use vstd::prelude::*;

use crate::error::CpuError;
use crate::memory::{lemma_mem_len, store_range, store_word, word, word_at, Mem, MEM_SIZE};
use crate::model::{
    add_with_carry, advanced, applied, branch, branch_target, execute, lemma_run_settled,
    operand_address, operand_pointer, ran, run_from, shifted, signed, step_spec, CpuState,
    RunState, STEP_BUDGET,
};
use crate::opcode::{lookup, AddressingMode, Mnemonic, OpCode};
use crate::status::{no_flags, Flag, Status};

verus! {

broadcast use lemma_mem_len;

/// Where the address to start execution at is stored, little-endian.
pub const INIT_PROGRAM_COUNTER_ADDR: u16 = 0xfffc;

/// Where programs are loaded.
pub const MEM_PRG_ROM_ADDR_START: u16 = 0x8000;

/// The largest program `load` accepts.
pub const MEM_PRG_ROM_SIZE: usize = 0x8000;

/// The state after `load` wrote `program` from `MEM_PRG_ROM_ADDR_START` on and pointed the
/// reset vector at it.
pub open spec fn loaded(s: CpuState, program: Seq<u8>) -> CpuState {
    CpuState {
        mem: store_word(
            store_range(s.mem, MEM_PRG_ROM_ADDR_START as int, program),
            INIT_PROGRAM_COUNTER_ADDR,
            MEM_PRG_ROM_ADDR_START,
        ),
        ..s
    }
}

/// The state after `reset`: registers and flags cleared, the program counter taken from
/// the reset vector.
pub open spec fn reset_state(s: CpuState) -> CpuState {
    CpuState {
        a: 0,
        x: 0,
        y: 0,
        status: no_flags(),
        pc: word(
            s.mem[INIT_PROGRAM_COUNTER_ADDR as int],
            s.mem[INIT_PROGRAM_COUNTER_ADDR as int + 1],
        ),
        ..s
    }
}

/// A 6502 processor with its memory.
pub struct CPU {
    /// Accumulator.
    pub reg_a: u8,
    /// Index register X.
    pub reg_x: u8,
    /// Index register Y.
    pub reg_y: u8,
    /// Status flags.
    pub reg_status: Status,
    /// Program counter.
    pub pc: u16,
    /// The 64 KiB address space.
    pub mem: Mem,
}

impl View for CPU {
    type V = CpuState;

    open spec fn view(&self) -> CpuState {
        CpuState {
            a: self.reg_a,
            x: self.reg_x,
            y: self.reg_y,
            status: self.reg_status,
            pc: self.pc,
            mem: self.mem@,
        }
    }
}

impl CPU {
    /// A processor with registers, flags, program counter and memory all zero.
    pub fn new() -> (r: CPU)
        ensures
            r@ == (CpuState {
                a: 0,
                x: 0,
                y: 0,
                status: no_flags(),
                pc: 0,
                mem: Seq::new(MEM_SIZE as nat, |i: int| 0u8),
            }),
    {
        CPU { reg_a: 0, reg_x: 0, reg_y: 0, reg_status: Status::empty(), pc: 0, mem: Mem::new() }
    }

    /// The byte at `addr`.
    pub fn read_mem(&self, addr: u16) -> (r: u8)
        ensures
            r == self@.mem[addr as int],
    {
        self.mem.read(addr)
    }

    /// The little-endian word at `addr`; an error at the top address.
    pub fn read_mem16(&self, addr: u16) -> (r: Result<u16, CpuError>)
        ensures
            r == word_at(self@.mem, addr),
    {
        self.mem.read16(addr)
    }

    /// Stores `val` at `addr`.
    pub fn write_mem(&mut self, addr: u16, val: u8)
        ensures
            final(self)@ == old(self)@.with_byte(addr, val),
    {
        self.mem.write(addr, val)
    }

    /// Copies bit 7 of `register` into N.
    fn set_negative_flag(&mut self, register: u8)
        ensures
            final(self)@ == old(self)@.with_flag(Flag::Negative, register >= 128),
    {
        if register & 0b1000_0000 == 0 {
            assert(register & 0b1000_0000 == 0 ==> register < 128) by (bit_vector);
            self.reg_status.remove(Flag::Negative);
        } else {
            assert(register & 0b1000_0000 != 0 ==> register >= 128) by (bit_vector);
            self.reg_status.insert(Flag::Negative);
        }
    }

    /// Sets Z iff `register` is zero.
    fn set_zero_flag(&mut self, register: u8)
        ensures
            final(self)@ == old(self)@.with_flag(Flag::Zero, register == 0),
    {
        if register == 0 {
            self.reg_status.insert(Flag::Zero);
        } else {
            self.reg_status.remove(Flag::Zero);
        }
    }

    /// Writes A, with N and Z following the new value.
    fn set_reg_a(&mut self, val: u8)
        ensures
            final(self)@ == old(self)@.with_a(val),
    {
        self.reg_a = val;
        self.set_negative_flag(val);
        self.set_zero_flag(val);
    }

    /// Adds `val` and the carry to A, setting C, V, N and Z.
    fn add_to_reg_a(&mut self, val: u8)
        ensures
            final(self)@ == add_with_carry(old(self)@, val),
    {
        let carry: u16 = if self.reg_status.contains(Flag::Carry) {
            1
        } else {
            0
        };
        let signed_a: i16 = if self.reg_a >= 128 {
            self.reg_a as i16 - 256
        } else {
            self.reg_a as i16
        };
        let signed_val: i16 = if val >= 128 {
            val as i16 - 256
        } else {
            val as i16
        };
        let signed_result: i16 = signed_a + signed_val + carry as i16;
        if signed_result > 127 || signed_result < -128 {
            self.reg_status.insert(Flag::Overflow);
        } else {
            self.reg_status.remove(Flag::Overflow);
        }
        let unsigned_result: u16 = self.reg_a as u16 + val as u16 + carry;
        if unsigned_result > 255 {
            self.reg_status.insert(Flag::Carry);
        } else {
            self.reg_status.remove(Flag::Carry);
        }
        self.set_reg_a((unsigned_result % 256) as u8);
    }

    /// Loads `program` from `MEM_PRG_ROM_ADDR_START` on and points the reset vector at
    /// it. A program longer than `MEM_PRG_ROM_SIZE` does not fit: `RangeOverflow`, with
    /// nothing written.
    pub fn load(&mut self, program: &[u8]) -> (r: Result<(), CpuError>)
        ensures
            program@.len() > MEM_PRG_ROM_SIZE ==> r == Err::<(), CpuError>(
                CpuError::RangeOverflow {
                    start: MEM_PRG_ROM_ADDR_START,
                    len: program@.len() as usize,
                },
            ) && final(self)@ == old(self)@,
            program@.len() <= MEM_PRG_ROM_SIZE ==> r is Ok && final(self)@ == loaded(
                old(self)@,
                program@,
            ),
    {
        match self.mem.write_range(MEM_PRG_ROM_ADDR_START, program) {
            Ok(()) => {},
            Err(e) => return Err(e),
        }
        self.mem.write16(INIT_PROGRAM_COUNTER_ADDR, MEM_PRG_ROM_ADDR_START)
    }

    /// Clears A, X, Y and every flag, and sets the program counter from the reset vector.
    pub fn reset(&mut self)
        ensures
            final(self)@ == reset_state(old(self)@),
    {
        self.reg_a = 0;
        self.reg_x = 0;
        self.reg_y = 0;
        self.reg_status = Status::empty();
        self.pc = match self.mem.read16(INIT_PROGRAM_COUNTER_ADDR) {
            Ok(start) => start,
            Err(_) => 0,
        };
    }

    /// Steps until `BRK` halts the machine or a fatal condition stops it, as `ran` states.
    /// At most `STEP_BUDGET` instructions run: a program still going after that many gets
    /// `StepBudgetExhausted`. A host that wants a smaller bound calls `step` itself.
    pub fn run(&mut self) -> (r: Result<(), CpuError>)
        ensures
            ran(old(self)@, final(self)@, r),
    {
        let ghost start = self@;
        let mut remaining: u64 = STEP_BUDGET;
        loop
            invariant
                start == old(self)@,
                run_from(start, (STEP_BUDGET - remaining) as nat) == RunState::Running(self@),
            decreases remaining,
        {
            if remaining == 0 {
                return Err(CpuError::StepBudgetExhausted);
            }
            let ghost done = (STEP_BUDGET - remaining) as nat;
            match self.step() {
                Ok(true) => {
                    remaining = remaining - 1;
                },
                Ok(false) => {
                    proof {
                        assert(run_from(start, done + 1) == RunState::Halted(self@));
                        lemma_run_settled(start, done + 1, STEP_BUDGET as nat);
                    }
                    return Ok(());
                },
                Err(e) => {
                    proof {
                        assert(run_from(start, done + 1) == RunState::Failed(self@, e));
                        lemma_run_settled(start, done + 1, STEP_BUDGET as nat);
                    }
                    return Err(e);
                },
            }
        }
    }

    /// Executes the instruction at the program counter. `Ok(true)` to go on, `Ok(false)`
    /// after `BRK`; a fatal condition is returned with the state left as it was.
    pub fn step(&mut self) -> (r: Result<bool, CpuError>)
        ensures
            match step_spec(old(self)@) {
                Ok((t, go_on)) => r == Ok::<bool, CpuError>(go_on) && final(self)@ == t,
                Err(e) => r == Err::<bool, CpuError>(e) && final(self)@ == old(self)@,
            },
    {
        reveal(step_spec);
        let code = self.read_mem(self.pc);
        match lookup(code) {
            Some(opcode) => self.dispatch_instruction(opcode),
            None => Err(CpuError::UnimplementedOpcode { opcode: code, pc: self.pc }),
        }
    }

    /// Loads `program`, resets, and runs it. A program that does not fit is refused before
    /// anything runs.
    pub fn interpret(&mut self, program: &[u8]) -> (r: Result<(), CpuError>)
        ensures
            program@.len() > MEM_PRG_ROM_SIZE ==> r == Err::<(), CpuError>(
                CpuError::RangeOverflow {
                    start: MEM_PRG_ROM_ADDR_START,
                    len: program@.len() as usize,
                },
            ) && final(self)@ == old(self)@,
            program@.len() <= MEM_PRG_ROM_SIZE ==> ran(
                reset_state(loaded(old(self)@, program@)),
                final(self)@,
                r,
            ),
    {
        match self.load(program) {
            Ok(()) => {},
            Err(e) => return Err(e),
        }
        self.reset();
        self.run()
    }

    /// Runs the handler of `opcode`, then moves the program counter past the instruction
    /// unless the handler moved it. `Ok(false)` after `BRK`.
    fn dispatch_instruction(&mut self, opcode: OpCode) -> (r: Result<bool, CpuError>)
        ensures
            match execute(old(self)@, opcode.mnemonic, opcode.addressing_mode) {
                Ok(t) => r == Ok::<bool, CpuError>(opcode.mnemonic != Mnemonic::Brk)
                    && final(self)@ == advanced(old(self)@, t, opcode.bytes),
                Err(e) => r == Err::<bool, CpuError>(e) && final(self)@ == old(self)@,
            },
    {
        let curr_pc = self.pc;
        match self.execute_instruction(opcode.mnemonic, opcode.addressing_mode) {
            Ok(()) => {},
            Err(e) => return Err(e),
        }
        if curr_pc == self.pc {
            self.pc = ((self.pc as u32 + opcode.bytes as u32) % 65536) as u16;
        }
        Ok(opcode.mnemonic != Mnemonic::Brk)
    }

    /// Runs the handler of instruction `m` under `mode`.
    fn execute_instruction(&mut self, m: Mnemonic, mode: AddressingMode) -> (r: Result<(), CpuError>)
        ensures
            applied(old(self)@, final(self)@, r, execute(old(self)@, m, mode)),
    {
        match m {
            Mnemonic::Adc => self.adc(mode),
            Mnemonic::And => self.and(mode),
            Mnemonic::Asl => self.asl(mode),
            Mnemonic::Bcc => self.bcc(),
            Mnemonic::Bcs => self.bcs(),
            Mnemonic::Brk => {
                self.brk();
                Ok(())
            },
            Mnemonic::Clc => {
                self.clc();
                Ok(())
            },
            Mnemonic::Cld => {
                self.cld();
                Ok(())
            },
            Mnemonic::Cli => {
                self.cli();
                Ok(())
            },
            Mnemonic::Clv => {
                self.clv();
                Ok(())
            },
            Mnemonic::Eor => self.eor(mode),
            Mnemonic::Inx => {
                self.inx();
                Ok(())
            },
            Mnemonic::Jmp => self.jmp(mode),
            Mnemonic::Lda => self.lda(mode),
            Mnemonic::Ldx => self.ldx(mode),
            Mnemonic::Ldy => self.ldy(mode),
            Mnemonic::Lsr => self.lsr(mode),
            Mnemonic::Ora => self.ora(mode),
            Mnemonic::Rol => self.rol(mode),
            Mnemonic::Ror => self.ror(mode),
            Mnemonic::Sta => self.sta(mode),
            Mnemonic::Stx => self.stx(mode),
            Mnemonic::Sty => self.sty(mode),
            Mnemonic::Tax => {
                self.tax();
                Ok(())
            },
            Mnemonic::Tay => {
                self.tay();
                Ok(())
            },
            Mnemonic::Txa => {
                self.txa();
                Ok(())
            },
            Mnemonic::Tya => {
                self.tya();
                Ok(())
            },
            Mnemonic::Sbc => self.sbc(mode),
            Mnemonic::Sec => {
                self.sec();
                Ok(())
            },
            Mnemonic::Sed => {
                self.sed();
                Ok(())
            },
            Mnemonic::Sei => {
                self.sei();
                Ok(())
            },
        }
    }

    /// The address of the current instruction's operand: the byte after the opcode.
    fn get_operand_address(&self) -> (r: u16)
        ensures
            r == operand_pointer(self.pc),
    {
        if self.pc == 0xffff {
            0
        } else {
            self.pc + 1
        }
    }

    /// The effective address under `addr_mode`, for the operand bytes at `addr`.
    fn read_mem_operand(&self, addr: u16, addr_mode: AddressingMode) -> (r: Result<u16, CpuError>)
        ensures
            r == operand_address(self@, addr, addr_mode),
    {
        match addr_mode {
            AddressingMode::Immediate => Ok(addr),
            AddressingMode::Relative => Ok(addr),
            AddressingMode::ZeroPage => Ok(self.read_mem(addr) as u16),
            AddressingMode::ZeroPageX => {
                Ok(((self.read_mem(addr) as u16 + self.reg_x as u16) % 256) as u8 as u16)
            },
            AddressingMode::ZeroPageY => {
                Ok(((self.read_mem(addr) as u16 + self.reg_y as u16) % 256) as u8 as u16)
            },
            AddressingMode::Absolute => self.read_mem16(addr),
            AddressingMode::AbsoluteX => match self.read_mem16(addr) {
                Ok(w) => Ok(((w as u32 + self.reg_x as u32) % 65536) as u16),
                Err(e) => Err(e),
            },
            AddressingMode::AbsoluteY => match self.read_mem16(addr) {
                Ok(w) => Ok(((w as u32 + self.reg_y as u32) % 65536) as u16),
                Err(e) => Err(e),
            },
            AddressingMode::Indirect => match self.read_mem16(addr) {
                Ok(p) => self.read_mem16(p),
                Err(e) => Err(e),
            },
            AddressingMode::IndirectX => {
                let p = ((self.read_mem(addr) as u16 + self.reg_x as u16) % 256) as u8;
                self.read_mem16(p as u16)
            },
            AddressingMode::IndirectY => match self.read_mem16(self.read_mem(addr) as u16) {
                Ok(p) => Ok(((p as u32 + self.reg_y as u32) % 65536) as u16),
                Err(e) => Err(e),
            },
            AddressingMode::Accumulator => Err(CpuError::InvalidAddressingModeUse { mode: addr_mode }),
            AddressingMode::NoneAddressing => Err(
                CpuError::InvalidAddressingModeUse { mode: addr_mode },
            ),
        }
    }

    /// The target of a branch taken at the current instruction with displacement byte
    /// `relative_addr`; an error when it leaves the address space.
    fn calc_new_pc(&self, relative_addr: u8) -> (r: Result<u16, CpuError>)
        ensures
            0 <= branch_target(self.pc, relative_addr) <= 0xffff ==> r == Ok::<u16, CpuError>(
                branch_target(self.pc, relative_addr) as u16,
            ),
            !(0 <= branch_target(self.pc, relative_addr) <= 0xffff) ==> r == Err::<u16, CpuError>(
                CpuError::BranchOverflow { pc: self.pc, offset: signed(relative_addr) as i16 },
            ),
    {
        let offset: i16 = if relative_addr >= 128 {
            relative_addr as i16 - 256
        } else {
            relative_addr as i16
        };
        let target: i32 = self.pc as i32 + 2 + offset as i32;
        if target < 0 || target > 0xffff {
            Err(CpuError::BranchOverflow { pc: self.pc, offset })
        } else {
            Ok(target as u16)
        }
    }

    /// Reads the operand byte of the current instruction under `addr_mode`.
    fn read_operand_value(&self, addr_mode: AddressingMode) -> (r: Result<u8, CpuError>)
        ensures
            match operand_address(self@, operand_pointer(self.pc), addr_mode) {
                Ok(addr) => r == Ok::<u8, CpuError>(self@.mem[addr as int]),
                Err(e) => r == Err::<u8, CpuError>(e),
            },
    {
        match self.read_mem_operand(self.get_operand_address(), addr_mode) {
            Ok(addr) => Ok(self.read_mem(addr)),
            Err(e) => Err(e),
        }
    }

    fn adc(&mut self, addr_mode: AddressingMode) -> (r: Result<(), CpuError>)
        ensures
            applied(old(self)@, final(self)@, r, execute(old(self)@, Mnemonic::Adc, addr_mode)),
    {
        match self.read_operand_value(addr_mode) {
            Ok(val) => {
                self.add_to_reg_a(val);
                Ok(())
            },
            Err(e) => Err(e),
        }
    }

    fn sbc(&mut self, addr_mode: AddressingMode) -> (r: Result<(), CpuError>)
        ensures
            applied(old(self)@, final(self)@, r, execute(old(self)@, Mnemonic::Sbc, addr_mode)),
    {
        match self.read_operand_value(addr_mode) {
            Ok(val) => {
                assert(!val == (255 - val) as u8) by (bit_vector);
                self.add_to_reg_a(!val);
                Ok(())
            },
            Err(e) => Err(e),
        }
    }

    fn and(&mut self, addr_mode: AddressingMode) -> (r: Result<(), CpuError>)
        ensures
            applied(old(self)@, final(self)@, r, execute(old(self)@, Mnemonic::And, addr_mode)),
    {
        match self.read_operand_value(addr_mode) {
            Ok(val) => {
                self.set_reg_a(self.reg_a & val);
                Ok(())
            },
            Err(e) => Err(e),
        }
    }

    fn eor(&mut self, addr_mode: AddressingMode) -> (r: Result<(), CpuError>)
        ensures
            applied(old(self)@, final(self)@, r, execute(old(self)@, Mnemonic::Eor, addr_mode)),
    {
        match self.read_operand_value(addr_mode) {
            Ok(val) => {
                self.set_reg_a(self.reg_a ^ val);
                Ok(())
            },
            Err(e) => Err(e),
        }
    }

    fn ora(&mut self, addr_mode: AddressingMode) -> (r: Result<(), CpuError>)
        ensures
            applied(old(self)@, final(self)@, r, execute(old(self)@, Mnemonic::Ora, addr_mode)),
    {
        match self.read_operand_value(addr_mode) {
            Ok(val) => {
                self.set_reg_a(self.reg_a | val);
                Ok(())
            },
            Err(e) => Err(e),
        }
    }
    fn lda(&mut self, addr_mode: AddressingMode) -> (r: Result<(), CpuError>)
        ensures
            applied(old(self)@, final(self)@, r, execute(old(self)@, Mnemonic::Lda, addr_mode)),
    {
        match self.read_operand_value(addr_mode) {
            Ok(val) => {
                self.reg_a = val;
                self.set_negative_flag(val);
                self.set_zero_flag(val);
                Ok(())
            },
            Err(e) => Err(e),
        }
    }

    fn ldx(&mut self, addr_mode: AddressingMode) -> (r: Result<(), CpuError>)
        ensures
            applied(old(self)@, final(self)@, r, execute(old(self)@, Mnemonic::Ldx, addr_mode)),
    {
        match self.read_operand_value(addr_mode) {
            Ok(val) => {
                self.reg_x = val;
                self.set_negative_flag(val);
                self.set_zero_flag(val);
                Ok(())
            },
            Err(e) => Err(e),
        }
    }

    fn ldy(&mut self, addr_mode: AddressingMode) -> (r: Result<(), CpuError>)
        ensures
            applied(old(self)@, final(self)@, r, execute(old(self)@, Mnemonic::Ldy, addr_mode)),
    {
        match self.read_operand_value(addr_mode) {
            Ok(val) => {
                self.reg_y = val;
                self.set_negative_flag(val);
                self.set_zero_flag(val);
                Ok(())
            },
            Err(e) => Err(e),
        }
    }

    fn sta(&mut self, addr_mode: AddressingMode) -> (r: Result<(), CpuError>)
        ensures
            applied(old(self)@, final(self)@, r, execute(old(self)@, Mnemonic::Sta, addr_mode)),
    {
        match self.read_mem_operand(self.get_operand_address(), addr_mode) {
            Ok(addr) => {
                self.write_mem(addr, self.reg_a);
                Ok(())
            },
            Err(e) => Err(e),
        }
    }

    fn stx(&mut self, addr_mode: AddressingMode) -> (r: Result<(), CpuError>)
        ensures
            applied(old(self)@, final(self)@, r, execute(old(self)@, Mnemonic::Stx, addr_mode)),
    {
        match self.read_mem_operand(self.get_operand_address(), addr_mode) {
            Ok(addr) => {
                self.write_mem(addr, self.reg_x);
                Ok(())
            },
            Err(e) => Err(e),
        }
    }

    fn sty(&mut self, addr_mode: AddressingMode) -> (r: Result<(), CpuError>)
        ensures
            applied(old(self)@, final(self)@, r, execute(old(self)@, Mnemonic::Sty, addr_mode)),
    {
        match self.read_mem_operand(self.get_operand_address(), addr_mode) {
            Ok(addr) => {
                self.write_mem(addr, self.reg_y);
                Ok(())
            },
            Err(e) => Err(e),
        }
    }

    fn jmp(&mut self, addr_mode: AddressingMode) -> (r: Result<(), CpuError>)
        ensures
            applied(old(self)@, final(self)@, r, execute(old(self)@, Mnemonic::Jmp, addr_mode)),
    {
        match self.read_mem_operand(self.get_operand_address(), addr_mode) {
            Ok(addr) => {
                self.pc = addr;
                Ok(())
            },
            Err(e) => Err(e),
        }
    }

    /// Shifts or rotates by `m` (one of ASL, LSR, ROL, ROR) the accumulator under
    /// `Accumulator` and the operand in memory otherwise; the bit shifted out becomes C.
    fn shift(&mut self, m: Mnemonic, addr_mode: AddressingMode) -> (r: Result<(), CpuError>)
        requires
            m == Mnemonic::Asl || m == Mnemonic::Lsr || m == Mnemonic::Rol || m == Mnemonic::Ror,
        ensures
            applied(old(self)@, final(self)@, r, execute(old(self)@, m, addr_mode)),
    {
        let carry = self.reg_status.contains(Flag::Carry);
        match addr_mode {
            AddressingMode::Accumulator => {
                let (val, carry_out) = shift_value(m, self.reg_a, carry);
                self.reg_status.set(Flag::Carry, carry_out);
                self.set_reg_a(val);
                Ok(())
            },
            _ => match self.read_mem_operand(self.get_operand_address(), addr_mode) {
                Ok(addr) => {
                    let (val, carry_out) = shift_value(m, self.read_mem(addr), carry);
                    self.write_mem(addr, val);
                    self.reg_status.set(Flag::Carry, carry_out);
                    self.set_zero_flag(val);
                    self.set_negative_flag(val);
                    Ok(())
                },
                Err(e) => Err(e),
            },
        }
    }

    fn asl(&mut self, addr_mode: AddressingMode) -> (r: Result<(), CpuError>)
        ensures
            applied(old(self)@, final(self)@, r, execute(old(self)@, Mnemonic::Asl, addr_mode)),
    {
        self.shift(Mnemonic::Asl, addr_mode)
    }

    fn lsr(&mut self, addr_mode: AddressingMode) -> (r: Result<(), CpuError>)
        ensures
            applied(old(self)@, final(self)@, r, execute(old(self)@, Mnemonic::Lsr, addr_mode)),
    {
        self.shift(Mnemonic::Lsr, addr_mode)
    }

    fn rol(&mut self, addr_mode: AddressingMode) -> (r: Result<(), CpuError>)
        ensures
            applied(old(self)@, final(self)@, r, execute(old(self)@, Mnemonic::Rol, addr_mode)),
    {
        self.shift(Mnemonic::Rol, addr_mode)
    }

    fn ror(&mut self, addr_mode: AddressingMode) -> (r: Result<(), CpuError>)
        ensures
            applied(old(self)@, final(self)@, r, execute(old(self)@, Mnemonic::Ror, addr_mode)),
    {
        self.shift(Mnemonic::Ror, addr_mode)
    }

    /// Branches when the carry flag equals `on_carry`.
    fn branch_if_carry(&mut self, on_carry: bool) -> (r: Result<(), CpuError>)
        ensures
            applied(
                old(self)@,
                final(self)@,
                r,
                branch(old(self)@, old(self).reg_status.carry == on_carry),
            ),
    {
        if self.reg_status.contains(Flag::Carry) != on_carry {
            return Ok(());
        }
        let relative_addr = self.read_mem(self.get_operand_address());
        match self.calc_new_pc(relative_addr) {
            Ok(new_pc) => {
                self.pc = new_pc;
                Ok(())
            },
            Err(e) => Err(e),
        }
    }

    fn bcc(&mut self) -> (r: Result<(), CpuError>)
        ensures
            applied(
                old(self)@,
                final(self)@,
                r,
                execute(old(self)@, Mnemonic::Bcc, AddressingMode::Relative),
            ),
    {
        self.branch_if_carry(false)
    }

    fn bcs(&mut self) -> (r: Result<(), CpuError>)
        ensures
            applied(
                old(self)@,
                final(self)@,
                r,
                execute(old(self)@, Mnemonic::Bcs, AddressingMode::Relative),
            ),
    {
        self.branch_if_carry(true)
    }

    fn brk(&mut self)
        ensures
            execute(old(self)@, Mnemonic::Brk, AddressingMode::NoneAddressing) == Ok::<
                CpuState,
                CpuError,
            >(final(self)@),
    {

    }

    fn inx(&mut self)
        ensures
            execute(old(self)@, Mnemonic::Inx, AddressingMode::NoneAddressing) == Ok::<
                CpuState,
                CpuError,
            >(final(self)@),
    {
        let val_x: u8 = if self.reg_x == 255 {
            0
        } else {
            self.reg_x + 1
        };
        self.reg_x = val_x;
        self.set_negative_flag(val_x);
        self.set_zero_flag(val_x);
    }

    fn tax(&mut self)
        ensures
            execute(old(self)@, Mnemonic::Tax, AddressingMode::NoneAddressing) == Ok::<
                CpuState,
                CpuError,
            >(final(self)@),
    {
        let val = self.reg_a;
        self.reg_x = val;
        self.set_negative_flag(val);
        self.set_zero_flag(val);
    }

    fn tay(&mut self)
        ensures
            execute(old(self)@, Mnemonic::Tay, AddressingMode::NoneAddressing) == Ok::<
                CpuState,
                CpuError,
            >(final(self)@),
    {
        let val = self.reg_a;
        self.reg_y = val;
        self.set_negative_flag(val);
        self.set_zero_flag(val);
    }

    fn txa(&mut self)
        ensures
            execute(old(self)@, Mnemonic::Txa, AddressingMode::NoneAddressing) == Ok::<
                CpuState,
                CpuError,
            >(final(self)@),
    {
        let val = self.reg_x;
        self.reg_a = val;
        self.set_negative_flag(val);
        self.set_zero_flag(val);
    }

    fn tya(&mut self)
        ensures
            execute(old(self)@, Mnemonic::Tya, AddressingMode::NoneAddressing) == Ok::<
                CpuState,
                CpuError,
            >(final(self)@),
    {
        let val = self.reg_y;
        self.reg_a = val;
        self.set_negative_flag(val);
        self.set_zero_flag(val);
    }

    fn clc(&mut self)
        ensures
            execute(old(self)@, Mnemonic::Clc, AddressingMode::NoneAddressing) == Ok::<
                CpuState,
                CpuError,
            >(final(self)@),
    {
        self.reg_status.remove(Flag::Carry);
    }

    fn cld(&mut self)
        ensures
            execute(old(self)@, Mnemonic::Cld, AddressingMode::NoneAddressing) == Ok::<
                CpuState,
                CpuError,
            >(final(self)@),
    {
        self.reg_status.remove(Flag::Decimal);
    }

    fn cli(&mut self)
        ensures
            execute(old(self)@, Mnemonic::Cli, AddressingMode::NoneAddressing) == Ok::<
                CpuState,
                CpuError,
            >(final(self)@),
    {
        self.reg_status.remove(Flag::InterruptDisable);
    }

    fn clv(&mut self)
        ensures
            execute(old(self)@, Mnemonic::Clv, AddressingMode::NoneAddressing) == Ok::<
                CpuState,
                CpuError,
            >(final(self)@),
    {
        self.reg_status.remove(Flag::Overflow);
    }

    fn sec(&mut self)
        ensures
            execute(old(self)@, Mnemonic::Sec, AddressingMode::NoneAddressing) == Ok::<
                CpuState,
                CpuError,
            >(final(self)@),
    {
        self.reg_status.insert(Flag::Carry);
    }

    fn sed(&mut self)
        ensures
            execute(old(self)@, Mnemonic::Sed, AddressingMode::NoneAddressing) == Ok::<
                CpuState,
                CpuError,
            >(final(self)@),
    {
        self.reg_status.insert(Flag::Decimal);
    }

    fn sei(&mut self)
        ensures
            execute(old(self)@, Mnemonic::Sei, AddressingMode::NoneAddressing) == Ok::<
                CpuState,
                CpuError,
            >(final(self)@),
    {
        self.reg_status.insert(Flag::InterruptDisable);
    }
}

/// The result and the carry out of the shift or rotate `m` on `v`.
fn shift_value(m: Mnemonic, v: u8, carry: bool) -> (r: (u8, bool))
    requires
        m == Mnemonic::Asl || m == Mnemonic::Lsr || m == Mnemonic::Rol || m == Mnemonic::Ror,
    ensures
        r == shifted(m, v, carry),
{
    let c: u16 = if carry {
        1
    } else {
        0
    };
    match m {
        Mnemonic::Asl => (((v as u16 * 2) % 256) as u8, v >= 128),
        Mnemonic::Lsr => (v / 2, v % 2 == 1),
        Mnemonic::Rol => (((v as u16 * 2 + c) % 256) as u8, v >= 128),
        _ => ((v as u16 / 2 + c * 128) as u8, v % 2 == 1),
    }
}

} // verus!
