use vstd::prelude::*;

use crate::error::CpuError;
use crate::memory::word_at;
use crate::opcode::{decode, AddressingMode, Mnemonic};
use crate::status::{Flag, Status};

verus! {

/// The state of the machine as a mathematical value: registers, flags, program counter
/// and the 64 KiB of memory.
pub struct CpuState {
    pub a: u8,
    pub x: u8,
    pub y: u8,
    pub status: Status,
    pub pc: u16,
    pub mem: Seq<u8>,
}

/// `v` reduced to eight bits.
pub open spec fn wrap8(v: int) -> u8 {
    (v % 256) as u8
}

/// `v` reduced to sixteen bits.
pub open spec fn wrap16(v: int) -> u16 {
    (v % 65536) as u16
}

/// `v` read as a two's-complement signed byte.
pub open spec fn signed(v: u8) -> int {
    if v >= 128 {
        v - 256
    } else {
        v as int
    }
}

/// `s` with N copied from bit 7 of `v` and Z set iff `v` is zero.
pub open spec fn with_nz(s: Status, v: u8) -> Status {
    Status { negative: v >= 128, zero: v == 0, ..s }
}

impl CpuState {
    /// This state with A replaced by `v`, N and Z following `v`.
    pub open spec fn with_a(self, v: u8) -> CpuState {
        CpuState { a: v, status: with_nz(self.status, v), ..self }
    }

    /// This state with X replaced by `v`, N and Z following `v`.
    pub open spec fn with_x(self, v: u8) -> CpuState {
        CpuState { x: v, status: with_nz(self.status, v), ..self }
    }

    /// This state with Y replaced by `v`, N and Z following `v`.
    pub open spec fn with_y(self, v: u8) -> CpuState {
        CpuState { y: v, status: with_nz(self.status, v), ..self }
    }

    /// This state with flag `f` set to `v`.
    pub open spec fn with_flag(self, f: Flag, v: bool) -> CpuState {
        CpuState { status: self.status.with(f, v), ..self }
    }

    /// This state with `v` stored at `addr`.
    pub open spec fn with_byte(self, addr: u16, v: u8) -> CpuState {
        CpuState { mem: self.mem.update(addr as int, v), ..self }
    }

    /// The carry flag as a number.
    pub open spec fn carry_in(self) -> int {
        if self.status.carry {
            1
        } else {
            0
        }
    }
}

/// The effect of adding `v` and the carry to A: C is the unsigned carry out, V is set when
/// the signed sum leaves [-128, 127], and A takes the low eight bits of the sum.
pub open spec fn add_with_carry(s: CpuState, v: u8) -> CpuState {
    let sum = s.a + v + s.carry_in();
    let signed_sum = signed(s.a) + signed(v) + s.carry_in();
    s.with_flag(Flag::Carry, sum > 255).with_flag(
        Flag::Overflow,
        signed_sum > 127 || signed_sum < -128,
    ).with_a(wrap8(sum))
}

/// The bitwise complement of `v`.
pub open spec fn complement(v: u8) -> u8 {
    (255 - v) as u8
}

/// The result and the carry out of shifting or rotating `v` by the instruction `m`,
/// with `carry` the carry flag before it.
pub open spec fn shifted(m: Mnemonic, v: u8, carry: bool) -> (u8, bool) {
    let c: int = if carry {
        1
    } else {
        0
    };
    match m {
        Mnemonic::Asl => (wrap8(v * 2), v >= 128),
        Mnemonic::Lsr => ((v / 2) as u8, v % 2 == 1),
        Mnemonic::Rol => (wrap8(v * 2 + c), v >= 128),
        _ => ((v / 2 + c * 128) as u8, v % 2 == 1),
    }
}

/// The address of the operand of the instruction at `pc`.
pub open spec fn operand_pointer(pc: u16) -> u16 {
    wrap16(pc + 1)
}

/// The effective address for mode `mode`, given the address `addr` that follows the
/// opcode. The modes without a memory operand give `InvalidAddressingModeUse`; a two-byte
/// read at the top address gives `OutOfRangeAccess`.
pub open spec fn operand_address(s: CpuState, addr: u16, mode: AddressingMode) -> Result<
    u16,
    CpuError,
> {
    match mode {
        AddressingMode::Immediate => Ok(addr),
        AddressingMode::Relative => Ok(addr),
        AddressingMode::ZeroPage => Ok(s.mem[addr as int] as u16),
        AddressingMode::ZeroPageX => Ok(wrap8(s.mem[addr as int] + s.x) as u16),
        AddressingMode::ZeroPageY => Ok(wrap8(s.mem[addr as int] + s.y) as u16),
        AddressingMode::Absolute => word_at(s.mem, addr),
        AddressingMode::AbsoluteX => match word_at(s.mem, addr) {
            Ok(w) => Ok(wrap16(w + s.x)),
            Err(e) => Err(e),
        },
        AddressingMode::AbsoluteY => match word_at(s.mem, addr) {
            Ok(w) => Ok(wrap16(w + s.y)),
            Err(e) => Err(e),
        },
        AddressingMode::Indirect => match word_at(s.mem, addr) {
            Ok(p) => word_at(s.mem, p),
            Err(e) => Err(e),
        },
        AddressingMode::IndirectX => word_at(s.mem, wrap8(s.mem[addr as int] + s.x) as u16),
        AddressingMode::IndirectY => match word_at(s.mem, s.mem[addr as int] as u16) {
            Ok(p) => Ok(wrap16(p + s.y)),
            Err(e) => Err(e),
        },
        AddressingMode::Accumulator => Err(CpuError::InvalidAddressingModeUse { mode }),
        AddressingMode::NoneAddressing => Err(CpuError::InvalidAddressingModeUse { mode }),
    }
}

/// `f` applied to the effective address of the current instruction's operand.
pub open spec fn at_operand(s: CpuState, mode: AddressingMode, f: spec_fn(u16) -> CpuState) -> Result<
    CpuState,
    CpuError,
> {
    match operand_address(s, operand_pointer(s.pc), mode) {
        Ok(addr) => Ok(f(addr)),
        Err(e) => Err(e),
    }
}

/// `f` applied to the byte at the effective address of the current instruction's operand.
pub open spec fn with_operand(s: CpuState, mode: AddressingMode, f: spec_fn(u8) -> CpuState) -> Result<
    CpuState,
    CpuError,
> {
    at_operand(s, mode, |addr: u16| f(s.mem[addr as int]))
}

/// A shift or rotate `m`, on A under `Accumulator` and on the operand in memory otherwise.
pub open spec fn shift(s: CpuState, m: Mnemonic, mode: AddressingMode) -> Result<CpuState, CpuError> {
    if mode == AddressingMode::Accumulator {
        let (r, c) = shifted(m, s.a, s.status.carry);
        Ok(s.with_flag(Flag::Carry, c).with_a(r))
    } else {
        at_operand(
            s,
            mode,
            |addr: u16|
                {
                    let (r, c) = shifted(m, s.mem[addr as int], s.status.carry);
                    CpuState {
                        mem: s.mem.update(addr as int, r),
                        status: with_nz(s.status.with(Flag::Carry, c), r),
                        ..s
                    }
                },
        )
    }
}

/// The target of a taken branch at `pc` with displacement byte `d`: the address after
/// the two-byte instruction plus the signed displacement.
pub open spec fn branch_target(pc: u16, d: u8) -> int {
    pc + 2 + signed(d)
}

/// A conditional branch: taken when `taken` holds, and an error when the target leaves
/// the address space.
pub open spec fn branch(s: CpuState, taken: bool) -> Result<CpuState, CpuError> {
    if !taken {
        Ok(s)
    } else {
        let d = s.mem[operand_pointer(s.pc) as int];
        let target = branch_target(s.pc, d);
        if 0 <= target <= 0xffff {
            Ok(CpuState { pc: target as u16, ..s })
        } else {
            Err(CpuError::BranchOverflow { pc: s.pc, offset: signed(d) as i16 })
        }
    }
}

/// The effect of instruction `m` under mode `mode` on `s`, before the program counter
/// advances.
pub open spec fn execute(s: CpuState, m: Mnemonic, mode: AddressingMode) -> Result<CpuState, CpuError> {
    match m {
        Mnemonic::Adc => with_operand(s, mode, |v: u8| add_with_carry(s, v)),
        Mnemonic::Sbc => with_operand(s, mode, |v: u8| add_with_carry(s, complement(v))),
        Mnemonic::And => with_operand(s, mode, |v: u8| s.with_a(s.a & v)),
        Mnemonic::Eor => with_operand(s, mode, |v: u8| s.with_a(s.a ^ v)),
        Mnemonic::Ora => with_operand(s, mode, |v: u8| s.with_a(s.a | v)),
        Mnemonic::Lda => with_operand(s, mode, |v: u8| s.with_a(v)),
        Mnemonic::Ldx => with_operand(s, mode, |v: u8| s.with_x(v)),
        Mnemonic::Ldy => with_operand(s, mode, |v: u8| s.with_y(v)),
        Mnemonic::Sta => at_operand(s, mode, |addr: u16| s.with_byte(addr, s.a)),
        Mnemonic::Stx => at_operand(s, mode, |addr: u16| s.with_byte(addr, s.x)),
        Mnemonic::Sty => at_operand(s, mode, |addr: u16| s.with_byte(addr, s.y)),
        Mnemonic::Jmp => at_operand(s, mode, |addr: u16| CpuState { pc: addr, ..s }),
        Mnemonic::Asl => shift(s, m, mode),
        Mnemonic::Lsr => shift(s, m, mode),
        Mnemonic::Rol => shift(s, m, mode),
        Mnemonic::Ror => shift(s, m, mode),
        Mnemonic::Bcc => branch(s, !s.status.carry),
        Mnemonic::Bcs => branch(s, s.status.carry),
        Mnemonic::Inx => Ok(s.with_x(wrap8(s.x + 1))),
        Mnemonic::Tax => Ok(s.with_x(s.a)),
        Mnemonic::Tay => Ok(s.with_y(s.a)),
        Mnemonic::Txa => Ok(s.with_a(s.x)),
        Mnemonic::Tya => Ok(s.with_a(s.y)),
        Mnemonic::Clc => Ok(s.with_flag(Flag::Carry, false)),
        Mnemonic::Cld => Ok(s.with_flag(Flag::Decimal, false)),
        Mnemonic::Cli => Ok(s.with_flag(Flag::InterruptDisable, false)),
        Mnemonic::Clv => Ok(s.with_flag(Flag::Overflow, false)),
        Mnemonic::Sec => Ok(s.with_flag(Flag::Carry, true)),
        Mnemonic::Sed => Ok(s.with_flag(Flag::Decimal, true)),
        Mnemonic::Sei => Ok(s.with_flag(Flag::InterruptDisable, true)),
        Mnemonic::Brk => Ok(s),
    }
}

/// `t`, the state after an instruction of `bytes` bytes ran from `s`, with the program
/// counter moved past the instruction unless the instruction itself changed it.
pub open spec fn advanced(s: CpuState, t: CpuState, bytes: u8) -> CpuState {
    if t.pc == s.pc {
        CpuState { pc: wrap16(s.pc + bytes), ..t }
    } else {
        t
    }
}

/// A handler that returned `r` and moved the machine from `before` to `after` did what
/// `expected` says: the new state on success, or the error with nothing changed.
pub open spec fn applied(
    before: CpuState,
    after: CpuState,
    r: Result<(), CpuError>,
    expected: Result<CpuState, CpuError>,
) -> bool {
    match expected {
        Ok(t) => r is Ok && after == t,
        Err(e) => r == Err::<(), CpuError>(e) && after == before,
    }
}

/// One fetch-decode-execute cycle from `s`: the next state and whether to go on, or the
/// fatal condition met. The program counter advances by the instruction's length unless
/// the instruction moved it; only `BRK` stops the run.
#[verifier::opaque]
pub open spec fn step_spec(s: CpuState) -> Result<(CpuState, bool), CpuError> {
    let code = s.mem[s.pc as int];
    match decode(code) {
        None => Err(CpuError::UnimplementedOpcode { opcode: code, pc: s.pc }),
        Some(op) => match execute(s, op.mnemonic, op.addressing_mode) {
            Err(e) => Err(e),
            Ok(t) => Ok((advanced(s, t, op.bytes), op.mnemonic != Mnemonic::Brk)),
        },
    }
}

/// Where a run stands.
pub enum RunState {
    /// Still executing, in this state.
    Running(CpuState),
    /// Stopped by `BRK`, in this state.
    Halted(CpuState),
    /// Stopped by a fatal condition, met in this state.
    Failed(CpuState, CpuError),
}

/// Where a run from `s` stands after at most `n` instructions. Once halted or failed it
/// stays so.
pub open spec fn run_from(s: CpuState, n: nat) -> RunState
    decreases n,
{
    if n == 0 {
        RunState::Running(s)
    } else {
        match run_from(s, (n - 1) as nat) {
            RunState::Running(t) => match step_spec(t) {
                Ok((u, true)) => RunState::Running(u),
                Ok((u, false)) => RunState::Halted(u),
                Err(e) => RunState::Failed(t, e),
            },
            other => other,
        }
    }
}

/// The most instructions one call of `run` executes.
pub const STEP_BUDGET: u64 = 0xffff_ffff_ffff_ffff;

/// A run from `start` that returned `r` ended in `end` as `run_from` says for the whole
/// step budget: halted is `Ok`, a fatal condition is its error with the state in which it
/// was met, and a run still going when the budget is spent is `StepBudgetExhausted`.
pub open spec fn ran(start: CpuState, end: CpuState, r: Result<(), CpuError>) -> bool {
    match run_from(start, STEP_BUDGET as nat) {
        RunState::Halted(t) => r is Ok && end == t,
        RunState::Failed(t, e) => r == Err::<(), CpuError>(e) && end == t,
        RunState::Running(t) => r == Err::<(), CpuError>(CpuError::StepBudgetExhausted) && end
            == t,
    }
}

/// A run that has halted or failed after `n` instructions stands the same after any more.
pub proof fn lemma_run_settled(s: CpuState, n: nat, m: nat)
    requires
        n <= m,
        !(run_from(s, n) is Running),
    ensures
        run_from(s, m) == run_from(s, n),
    decreases m - n,
{
    if n < m {
        lemma_run_settled(s, n, (m - 1) as nat);
    }
}

} // verus!
