use vstd::prelude::*;

use crate::opcode::AddressingMode;

verus! {

/// Why an operation of the simulator failed.
#[derive(Clone, Copy, Debug, PartialEq, Eq, Structural)]
pub enum CpuError {
    /// A two-byte access starting at `addr` would cross the top of the address space.
    OutOfRangeAccess { addr: u16 },
    /// A bulk write of `len` bytes starting at `start` does not fit in the address space.
    RangeOverflow { start: u16, len: usize },
    /// The byte `opcode`, fetched at `pc`, has no entry in the instruction table.
    UnimplementedOpcode { opcode: u8, pc: u16 },
    /// An operand address was asked for under a mode that has no memory operand.
    InvalidAddressingModeUse { mode: AddressingMode },
    /// A taken branch at `pc` with displacement `offset` leaves the address space.
    BranchOverflow { pc: u16, offset: i16 },
    /// `run` executed its whole step budget without reaching a halt.
    StepBudgetExhausted,
}

} // verus!
