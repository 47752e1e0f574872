use vstd::prelude::*;

verus! {

/// One of the seven meaningful bits of the processor status register.
#[derive(Clone, Copy, Debug, PartialEq, Eq, Structural)]
pub enum Flag {
    /// C: carry out of the last addition or shift.
    Carry,
    /// Z: the last value written was zero.
    Zero,
    /// I: interrupts are disabled.
    InterruptDisable,
    /// D: decimal mode.
    Decimal,
    /// B: break.
    Break,
    /// V: signed overflow of the last addition.
    Overflow,
    /// N: bit 7 of the last value written.
    Negative,
}

/// The processor status register, one field per flag.
///
/// Bit 5 of the hardware register has no meaning and is not represented.
#[derive(Clone, Copy, Debug, PartialEq, Eq, Structural)]
pub struct Status {
    pub carry: bool,
    pub zero: bool,
    pub interrupt_disable: bool,
    pub decimal: bool,
    pub brk: bool,
    pub overflow: bool,
    pub negative: bool,
}

/// The register with every flag clear.
pub open spec fn no_flags() -> Status {
    Status {
        carry: false,
        zero: false,
        interrupt_disable: false,
        decimal: false,
        brk: false,
        overflow: false,
        negative: false,
    }
}

impl Status {
    /// Whether flag `f` is set.
    pub open spec fn has(self, f: Flag) -> bool {
        match f {
            Flag::Carry => self.carry,
            Flag::Zero => self.zero,
            Flag::InterruptDisable => self.interrupt_disable,
            Flag::Decimal => self.decimal,
            Flag::Break => self.brk,
            Flag::Overflow => self.overflow,
            Flag::Negative => self.negative,
        }
    }

    /// This register with flag `f` set to `v` and every other flag kept.
    pub open spec fn with(self, f: Flag, v: bool) -> Status {
        match f {
            Flag::Carry => Status { carry: v, ..self },
            Flag::Zero => Status { zero: v, ..self },
            Flag::InterruptDisable => Status { interrupt_disable: v, ..self },
            Flag::Decimal => Status { decimal: v, ..self },
            Flag::Break => Status { brk: v, ..self },
            Flag::Overflow => Status { overflow: v, ..self },
            Flag::Negative => Status { negative: v, ..self },
        }
    }

    /// The register with every flag clear.
    pub fn empty() -> (r: Status)
        ensures
            r == no_flags(),
    {
        Status {
            carry: false,
            zero: false,
            interrupt_disable: false,
            decimal: false,
            brk: false,
            overflow: false,
            negative: false,
        }
    }

    /// The register with flag `f` set and every other flag clear.
    pub fn only(f: Flag) -> (r: Status)
        ensures
            r == no_flags().with(f, true),
    {
        let mut r = Status::empty();
        r.set(f, true);
        r
    }

    /// Whether flag `f` is set.
    pub fn contains(&self, f: Flag) -> (r: bool)
        ensures
            r == self.has(f),
    {
        match f {
            Flag::Carry => self.carry,
            Flag::Zero => self.zero,
            Flag::InterruptDisable => self.interrupt_disable,
            Flag::Decimal => self.decimal,
            Flag::Break => self.brk,
            Flag::Overflow => self.overflow,
            Flag::Negative => self.negative,
        }
    }

    /// Sets flag `f` to `v`, leaving the other flags as they were.
    pub fn set(&mut self, f: Flag, v: bool)
        ensures
            *final(self) == old(self).with(f, v),
    {
        match f {
            Flag::Carry => self.carry = v,
            Flag::Zero => self.zero = v,
            Flag::InterruptDisable => self.interrupt_disable = v,
            Flag::Decimal => self.decimal = v,
            Flag::Break => self.brk = v,
            Flag::Overflow => self.overflow = v,
            Flag::Negative => self.negative = v,
        }
    }

    /// Sets flag `f`.
    pub fn insert(&mut self, f: Flag)
        ensures
            *final(self) == old(self).with(f, true),
    {
        self.set(f, true);
    }

    /// Clears flag `f`.
    pub fn remove(&mut self, f: Flag)
        ensures
            *final(self) == old(self).with(f, false),
    {
        self.set(f, false);
    }
}

} // verus!
