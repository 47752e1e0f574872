use vstd::prelude::*;

use crate::error::CpuError;
use crate::memory::{store_word, word_at, MEM_ADDR_MAX, MEM_SIZE};
use crate::model::{
    branch_target, execute, operand_address, operand_pointer, run_from, signed, step_spec,
    CpuState, RunState,
};
use crate::opcode::{decode, lemma_table_well_formed, AddressingMode, Mnemonic};
use crate::status::Status;

verus! {

/// A 16-bit value written at `a` reads back unchanged from `a`. At the top address both
/// the write and the read are refused with `OutOfRangeAccess`, and the write leaves memory
/// as it was.
pub proof fn lemma_word_round_trip(m: Seq<u8>, a: u16, v: u16)
    requires
        m.len() == MEM_SIZE,
    ensures
        a != MEM_ADDR_MAX ==> word_at(store_word(m, a, v), a) == Ok::<u16, CpuError>(v),
        a == MEM_ADDR_MAX ==> word_at(m, a) == Err::<u16, CpuError>(
            CpuError::OutOfRangeAccess { addr: a },
        ),
{
    if a != MEM_ADDR_MAX {
        let w = store_word(m, a, v);
        assert(w[a as int] == (v % 256) as u8);
        assert(w[a as int + 1] == (v / 256) as u8);
        assert((v / 256) * 256 + v % 256 == v) by (nonlinear_arith);
    }
}

/// N holds bit 7 of `v` and Z says whether `v` is zero.
pub open spec fn flags_follow(s: Status, v: u8) -> bool {
    &&& s.negative == (v & 0x80 != 0)
    &&& s.zero == (v == 0)
}

/// After every flag-setting instruction, N is bit 7 and Z is the zeroness of the value
/// it produced: A for loads into A, transfers into A, logic and arithmetic, and shifts of
/// A; X for loads into X, `TAX` and `INX`; Y for loads into Y and `TAY`; the byte written
/// back for shifts of memory.
pub proof fn lemma_flags_follow_result(s: CpuState, m: Mnemonic, mode: AddressingMode)
    requires
        s.mem.len() == MEM_SIZE,
        execute(s, m, mode) is Ok,
    ensures
        ({
            let t = execute(s, m, mode)->Ok_0;
            &&& (m == Mnemonic::Lda || m == Mnemonic::Adc || m == Mnemonic::Sbc || m
                == Mnemonic::And || m == Mnemonic::Eor || m == Mnemonic::Ora || m == Mnemonic::Txa
                || m == Mnemonic::Tya) ==> flags_follow(t.status, t.a)
            &&& (m == Mnemonic::Ldx || m == Mnemonic::Tax || m == Mnemonic::Inx) ==> flags_follow(
                t.status,
                t.x,
            )
            &&& (m == Mnemonic::Ldy || m == Mnemonic::Tay) ==> flags_follow(t.status, t.y)
            &&& (m == Mnemonic::Asl || m == Mnemonic::Lsr || m == Mnemonic::Rol || m
                == Mnemonic::Ror) && mode == AddressingMode::Accumulator ==> flags_follow(
                t.status,
                t.a,
            )
            &&& (m == Mnemonic::Asl || m == Mnemonic::Lsr || m == Mnemonic::Rol || m
                == Mnemonic::Ror) && mode != AddressingMode::Accumulator ==> flags_follow(
                t.status,
                t.mem[operand_address(s, operand_pointer(s.pc), mode)->Ok_0 as int],
            )
        }),
{
    assert(forall|v: u8| (v & 0x80 != 0) == (v >= 128)) by (bit_vector);
}

/// With carry set, branch-if-carry-clear falls through with nothing changed, and
/// branch-if-carry-set goes to the address after the instruction plus the signed
/// displacement, forward or backward, or fails with `BranchOverflow` when that leaves the
/// address space. With carry clear the two trade places.
pub proof fn lemma_branch_symmetry(s: CpuState)
    ensures
        ({
            let d = s.mem[operand_pointer(s.pc) as int];
            let target = branch_target(s.pc, d);
            let taken = if 0 <= target <= 0xffff {
                Ok::<CpuState, CpuError>(CpuState { pc: target as u16, ..s })
            } else {
                Err::<CpuState, CpuError>(
                    CpuError::BranchOverflow { pc: s.pc, offset: signed(d) as i16 },
                )
            };
            &&& s.status.carry ==> execute(s, Mnemonic::Bcc, AddressingMode::Relative) == Ok::<
                CpuState,
                CpuError,
            >(s)
            &&& s.status.carry ==> execute(s, Mnemonic::Bcs, AddressingMode::Relative) == taken
            &&& !s.status.carry ==> execute(s, Mnemonic::Bcs, AddressingMode::Relative) == Ok::<
                CpuState,
                CpuError,
            >(s)
            &&& !s.status.carry ==> execute(s, Mnemonic::Bcc, AddressingMode::Relative) == taken
        }),
{
}

/// An opcode byte with no table entry stops execution: the step reports
/// `UnimplementedOpcode` with the byte and the program counter, and a run from there fails
/// with it in the same state, whatever the budget.
pub proof fn lemma_unimplemented_opcode_halts(s: CpuState, n: nat)
    requires
        s.mem.len() == MEM_SIZE,
        decode(s.mem[s.pc as int]) is None,
        n >= 1,
    ensures
        step_spec(s) == Err::<(CpuState, bool), CpuError>(
            CpuError::UnimplementedOpcode { opcode: s.mem[s.pc as int], pc: s.pc },
        ),
        run_from(s, n) == RunState::Failed(
            s,
            CpuError::UnimplementedOpcode { opcode: s.mem[s.pc as int], pc: s.pc },
        ),
    decreases n,
{
    let e = CpuError::UnimplementedOpcode { opcode: s.mem[s.pc as int], pc: s.pc };
    assert(step_spec(s) == Err::<(CpuState, bool), CpuError>(e)) by {
        reveal(step_spec);
    }
    assert(run_from(s, 0) == RunState::Running(s));
    if n > 1 {
        lemma_unimplemented_opcode_halts(s, (n - 1) as nat);
    }
}

/// An instruction under a mode that fits it never asks for the operand address of a mode
/// without one; so no entry of the table ever meets `InvalidAddressingModeUse`.
pub proof fn lemma_no_invalid_mode_use(s: CpuState, code: u8)
    requires
        decode(code) is Some,
    ensures
        !(execute(
            s,
            decode(code)->Some_0.mnemonic,
            decode(code)->Some_0.addressing_mode,
        ) matches Err(CpuError::InvalidAddressingModeUse { .. })),
{
    lemma_table_well_formed(code);
}

} // verus!
