use vstd::prelude::*;

verus! {

/// How an instruction finds its operand.
#[derive(Clone, Copy, Debug, PartialEq, Eq, Structural)]
pub enum AddressingMode {
    /// The operand is the byte after the opcode.
    Immediate,
    /// The byte after the opcode is an address in page zero.
    ZeroPage,
    /// Page-zero address plus X, wrapping within page zero.
    ZeroPageX,
    /// Page-zero address plus Y, wrapping within page zero.
    ZeroPageY,
    /// The two bytes after the opcode are the address.
    Absolute,
    /// Absolute address plus X, wrapping at 16 bits.
    AbsoluteX,
    /// Absolute address plus Y, wrapping at 16 bits.
    AbsoluteY,
    /// The two bytes after the opcode point at the address. The pointer's high byte is
    /// read from the next address even across a page boundary.
    Indirect,
    /// Page-zero pointer plus X (wrapping in page zero) holds the address.
    IndirectX,
    /// Page-zero pointer holds an address, to which Y is added.
    IndirectY,
    /// The operand is register A.
    Accumulator,
    /// The byte after the opcode is a signed branch displacement.
    Relative,
    /// No operand.
    NoneAddressing,
}

/// The instructions the simulator implements.
#[derive(Clone, Copy, Debug, PartialEq, Eq, Structural)]
pub enum Mnemonic {
    /// Add with carry.
    Adc,
    /// Bitwise and into A.
    And,
    /// Arithmetic shift left.
    Asl,
    /// Branch if carry clear.
    Bcc,
    /// Branch if carry set.
    Bcs,
    /// Break: halt the run.
    Brk,
    /// Clear carry.
    Clc,
    /// Clear decimal mode.
    Cld,
    /// Clear interrupt disable.
    Cli,
    /// Clear overflow.
    Clv,
    /// Exclusive or into A.
    Eor,
    /// Jump.
    Jmp,
    /// Load A.
    Lda,
    /// Load X.
    Ldx,
    /// Load Y.
    Ldy,
    /// Logical shift right.
    Lsr,
    /// Inclusive or into A.
    Ora,
    /// Rotate left through carry.
    Rol,
    /// Rotate right through carry.
    Ror,
    /// Store A.
    Sta,
    /// Store X.
    Stx,
    /// Store Y.
    Sty,
    /// Increment X.
    Inx,
    /// Transfer A to X.
    Tax,
    /// Transfer A to Y.
    Tay,
    /// Transfer X to A.
    Txa,
    /// Transfer Y to A.
    Tya,
    /// Subtract with borrow.
    Sbc,
    /// Set carry.
    Sec,
    /// Set decimal mode.
    Sed,
    /// Set interrupt disable.
    Sei,
}

/// One entry of the instruction table.
#[derive(Clone, Copy, Debug, PartialEq, Eq, Structural)]
pub struct OpCode {
    pub code: u8,
    pub mnemonic: Mnemonic,
    /// Length of the instruction in bytes, opcode included.
    pub bytes: u8,
    /// Base cycle count; recorded, not enforced.
    pub cycles: u8,
    pub addressing_mode: AddressingMode,
}

/// The table entry made of these values.
pub open spec fn entry(code: u8, mnemonic: Mnemonic, bytes: u8, cycles: u8, mode: AddressingMode) -> OpCode {
    OpCode { code, mnemonic, bytes, cycles, addressing_mode: mode }
}

impl OpCode {
    pub fn new(code: u8, mnemonic: Mnemonic, bytes: u8, cycles: u8, addressing_mode: AddressingMode) -> (r: OpCode)
        ensures
            r == entry(code, mnemonic, bytes, cycles, addressing_mode),
    {
        OpCode { code, mnemonic, bytes, cycles, addressing_mode }
    }
}

/// The length in bytes of an instruction under `mode`, opcode included.
pub open spec fn instruction_len(mode: AddressingMode) -> u8 {
    match mode {
        AddressingMode::Accumulator | AddressingMode::NoneAddressing => 1,
        AddressingMode::Absolute | AddressingMode::AbsoluteX | AddressingMode::AbsoluteY
        | AddressingMode::Indirect => 3,
        _ => 2,
    }
}

/// Whether `mode` names an operand in memory (or the immediate byte).
pub open spec fn has_operand(mode: AddressingMode) -> bool {
    mode != AddressingMode::Accumulator && mode != AddressingMode::NoneAddressing
}

/// Whether instruction `m` can run under `mode`: the ones that read or write memory get a
/// mode with an operand, shifts may also work on A, branches take a displacement, and the
/// rest take no operand.
pub open spec fn mode_fits(m: Mnemonic, mode: AddressingMode) -> bool {
    match m {
        Mnemonic::Asl | Mnemonic::Lsr | Mnemonic::Rol | Mnemonic::Ror => mode
            == AddressingMode::Accumulator || (has_operand(mode) && mode
            != AddressingMode::Immediate && mode != AddressingMode::Relative),
        Mnemonic::Bcc | Mnemonic::Bcs => mode == AddressingMode::Relative,
        Mnemonic::Adc | Mnemonic::Sbc | Mnemonic::And | Mnemonic::Eor | Mnemonic::Ora
        | Mnemonic::Lda | Mnemonic::Ldx | Mnemonic::Ldy => has_operand(mode) && mode
            != AddressingMode::Relative,
        Mnemonic::Sta | Mnemonic::Stx | Mnemonic::Sty | Mnemonic::Jmp => has_operand(mode) && mode
            != AddressingMode::Immediate && mode != AddressingMode::Relative,
        _ => mode == AddressingMode::NoneAddressing,
    }
}

/// Every entry of the table is filed under its own byte, its length is the one its mode
/// gives, and its mode fits its instruction.
pub proof fn lemma_table_well_formed(code: u8)
    requires
        decode(code) is Some,
    ensures
        decode(code)->Some_0.code == code,
        decode(code)->Some_0.bytes == instruction_len(decode(code)->Some_0.addressing_mode),
        mode_fits(decode(code)->Some_0.mnemonic, decode(code)->Some_0.addressing_mode),
{
    reveal(decode);
}

/// The instruction table: the entry for each implemented opcode byte.
#[verifier::opaque]
pub open spec fn decode(code: u8) -> Option<OpCode> {
    match code {
        0x69 => Some(entry(0x69, Mnemonic::Adc, 2, 2, AddressingMode::Immediate)),
        0x65 => Some(entry(0x65, Mnemonic::Adc, 2, 3, AddressingMode::ZeroPage)),
        0x75 => Some(entry(0x75, Mnemonic::Adc, 2, 4, AddressingMode::ZeroPageX)),
        0x6d => Some(entry(0x6d, Mnemonic::Adc, 3, 4, AddressingMode::Absolute)),
        0x7d => Some(entry(0x7d, Mnemonic::Adc, 3, 4, AddressingMode::AbsoluteX)),
        0x79 => Some(entry(0x79, Mnemonic::Adc, 3, 4, AddressingMode::AbsoluteY)),
        0x61 => Some(entry(0x61, Mnemonic::Adc, 2, 6, AddressingMode::IndirectX)),
        0x71 => Some(entry(0x71, Mnemonic::Adc, 2, 5, AddressingMode::IndirectY)),
        0x29 => Some(entry(0x29, Mnemonic::And, 2, 2, AddressingMode::Immediate)),
        0x25 => Some(entry(0x25, Mnemonic::And, 2, 3, AddressingMode::ZeroPage)),
        0x35 => Some(entry(0x35, Mnemonic::And, 2, 4, AddressingMode::ZeroPageX)),
        0x2d => Some(entry(0x2d, Mnemonic::And, 3, 4, AddressingMode::Absolute)),
        0x3d => Some(entry(0x3d, Mnemonic::And, 3, 4, AddressingMode::AbsoluteX)),
        0x39 => Some(entry(0x39, Mnemonic::And, 3, 4, AddressingMode::AbsoluteY)),
        0x21 => Some(entry(0x21, Mnemonic::And, 2, 6, AddressingMode::IndirectX)),
        0x31 => Some(entry(0x31, Mnemonic::And, 2, 5, AddressingMode::IndirectY)),
        0x0a => Some(entry(0x0a, Mnemonic::Asl, 1, 2, AddressingMode::Accumulator)),
        0x06 => Some(entry(0x06, Mnemonic::Asl, 2, 5, AddressingMode::ZeroPage)),
        0x16 => Some(entry(0x16, Mnemonic::Asl, 2, 6, AddressingMode::ZeroPageX)),
        0x0e => Some(entry(0x0e, Mnemonic::Asl, 3, 6, AddressingMode::Absolute)),
        0x1e => Some(entry(0x1e, Mnemonic::Asl, 3, 7, AddressingMode::AbsoluteX)),
        0x90 => Some(entry(0x90, Mnemonic::Bcc, 2, 2, AddressingMode::Relative)),
        0xb0 => Some(entry(0xb0, Mnemonic::Bcs, 2, 2, AddressingMode::Relative)),
        0x00 => Some(entry(0x00, Mnemonic::Brk, 1, 7, AddressingMode::NoneAddressing)),
        0x18 => Some(entry(0x18, Mnemonic::Clc, 1, 2, AddressingMode::NoneAddressing)),
        0xd8 => Some(entry(0xd8, Mnemonic::Cld, 1, 2, AddressingMode::NoneAddressing)),
        0x58 => Some(entry(0x58, Mnemonic::Cli, 1, 2, AddressingMode::NoneAddressing)),
        0xb8 => Some(entry(0xb8, Mnemonic::Clv, 1, 2, AddressingMode::NoneAddressing)),
        0x49 => Some(entry(0x49, Mnemonic::Eor, 2, 2, AddressingMode::Immediate)),
        0x45 => Some(entry(0x45, Mnemonic::Eor, 2, 3, AddressingMode::ZeroPage)),
        0x55 => Some(entry(0x55, Mnemonic::Eor, 2, 4, AddressingMode::ZeroPageX)),
        0x4d => Some(entry(0x4d, Mnemonic::Eor, 3, 4, AddressingMode::Absolute)),
        0x5d => Some(entry(0x5d, Mnemonic::Eor, 3, 4, AddressingMode::AbsoluteX)),
        0x59 => Some(entry(0x59, Mnemonic::Eor, 3, 4, AddressingMode::AbsoluteY)),
        0x41 => Some(entry(0x41, Mnemonic::Eor, 2, 6, AddressingMode::IndirectX)),
        0x51 => Some(entry(0x51, Mnemonic::Eor, 2, 5, AddressingMode::IndirectY)),
        0x4c => Some(entry(0x4c, Mnemonic::Jmp, 3, 3, AddressingMode::Absolute)),
        0x6c => Some(entry(0x6c, Mnemonic::Jmp, 3, 5, AddressingMode::Indirect)),
        0xa9 => Some(entry(0xa9, Mnemonic::Lda, 2, 2, AddressingMode::Immediate)),
        0xa5 => Some(entry(0xa5, Mnemonic::Lda, 2, 3, AddressingMode::ZeroPage)),
        0xb5 => Some(entry(0xb5, Mnemonic::Lda, 2, 4, AddressingMode::ZeroPageX)),
        0xad => Some(entry(0xad, Mnemonic::Lda, 3, 4, AddressingMode::Absolute)),
        0xbd => Some(entry(0xbd, Mnemonic::Lda, 3, 4, AddressingMode::AbsoluteX)),
        0xb9 => Some(entry(0xb9, Mnemonic::Lda, 3, 4, AddressingMode::AbsoluteY)),
        0xa1 => Some(entry(0xa1, Mnemonic::Lda, 2, 6, AddressingMode::IndirectX)),
        0xb1 => Some(entry(0xb1, Mnemonic::Lda, 2, 5, AddressingMode::IndirectY)),
        0xa2 => Some(entry(0xa2, Mnemonic::Ldx, 2, 2, AddressingMode::Immediate)),
        0xa6 => Some(entry(0xa6, Mnemonic::Ldx, 2, 3, AddressingMode::ZeroPage)),
        0xb6 => Some(entry(0xb6, Mnemonic::Ldx, 2, 4, AddressingMode::ZeroPageY)),
        0xae => Some(entry(0xae, Mnemonic::Ldx, 3, 4, AddressingMode::Absolute)),
        0xbe => Some(entry(0xbe, Mnemonic::Ldx, 3, 4, AddressingMode::AbsoluteY)),
        0xa0 => Some(entry(0xa0, Mnemonic::Ldy, 2, 2, AddressingMode::Immediate)),
        0xa4 => Some(entry(0xa4, Mnemonic::Ldy, 2, 3, AddressingMode::ZeroPage)),
        0xb4 => Some(entry(0xb4, Mnemonic::Ldy, 2, 4, AddressingMode::ZeroPageX)),
        0xac => Some(entry(0xac, Mnemonic::Ldy, 3, 4, AddressingMode::Absolute)),
        0xbc => Some(entry(0xbc, Mnemonic::Ldy, 3, 4, AddressingMode::AbsoluteX)),
        0x4a => Some(entry(0x4a, Mnemonic::Lsr, 1, 2, AddressingMode::Accumulator)),
        0x46 => Some(entry(0x46, Mnemonic::Lsr, 2, 5, AddressingMode::ZeroPage)),
        0x56 => Some(entry(0x56, Mnemonic::Lsr, 2, 6, AddressingMode::ZeroPageX)),
        0x4e => Some(entry(0x4e, Mnemonic::Lsr, 3, 6, AddressingMode::Absolute)),
        0x5e => Some(entry(0x5e, Mnemonic::Lsr, 3, 7, AddressingMode::AbsoluteX)),
        0x09 => Some(entry(0x09, Mnemonic::Ora, 2, 2, AddressingMode::Immediate)),
        0x05 => Some(entry(0x05, Mnemonic::Ora, 2, 3, AddressingMode::ZeroPage)),
        0x15 => Some(entry(0x15, Mnemonic::Ora, 2, 4, AddressingMode::ZeroPageX)),
        0x0d => Some(entry(0x0d, Mnemonic::Ora, 3, 4, AddressingMode::Absolute)),
        0x1d => Some(entry(0x1d, Mnemonic::Ora, 3, 4, AddressingMode::AbsoluteX)),
        0x19 => Some(entry(0x19, Mnemonic::Ora, 3, 4, AddressingMode::AbsoluteY)),
        0x01 => Some(entry(0x01, Mnemonic::Ora, 2, 6, AddressingMode::IndirectX)),
        0x11 => Some(entry(0x11, Mnemonic::Ora, 2, 5, AddressingMode::IndirectY)),
        0x2a => Some(entry(0x2a, Mnemonic::Rol, 1, 2, AddressingMode::Accumulator)),
        0x26 => Some(entry(0x26, Mnemonic::Rol, 2, 5, AddressingMode::ZeroPage)),
        0x36 => Some(entry(0x36, Mnemonic::Rol, 2, 6, AddressingMode::ZeroPageX)),
        0x2e => Some(entry(0x2e, Mnemonic::Rol, 3, 6, AddressingMode::Absolute)),
        0x3e => Some(entry(0x3e, Mnemonic::Rol, 3, 7, AddressingMode::AbsoluteX)),
        0x6a => Some(entry(0x6a, Mnemonic::Ror, 1, 2, AddressingMode::Accumulator)),
        0x66 => Some(entry(0x66, Mnemonic::Ror, 2, 5, AddressingMode::ZeroPage)),
        0x76 => Some(entry(0x76, Mnemonic::Ror, 2, 6, AddressingMode::ZeroPageX)),
        0x6e => Some(entry(0x6e, Mnemonic::Ror, 3, 6, AddressingMode::Absolute)),
        0x7e => Some(entry(0x7e, Mnemonic::Ror, 3, 7, AddressingMode::AbsoluteX)),
        0x85 => Some(entry(0x85, Mnemonic::Sta, 2, 3, AddressingMode::ZeroPage)),
        0x95 => Some(entry(0x95, Mnemonic::Sta, 2, 4, AddressingMode::ZeroPageX)),
        0x8d => Some(entry(0x8d, Mnemonic::Sta, 3, 4, AddressingMode::Absolute)),
        0x9d => Some(entry(0x9d, Mnemonic::Sta, 3, 5, AddressingMode::AbsoluteX)),
        0x99 => Some(entry(0x99, Mnemonic::Sta, 3, 5, AddressingMode::AbsoluteY)),
        0x81 => Some(entry(0x81, Mnemonic::Sta, 2, 6, AddressingMode::IndirectX)),
        0x91 => Some(entry(0x91, Mnemonic::Sta, 2, 6, AddressingMode::IndirectY)),
        0x86 => Some(entry(0x86, Mnemonic::Stx, 2, 3, AddressingMode::ZeroPage)),
        0x96 => Some(entry(0x96, Mnemonic::Stx, 2, 4, AddressingMode::ZeroPageY)),
        0x8e => Some(entry(0x8e, Mnemonic::Stx, 3, 4, AddressingMode::Absolute)),
        0x84 => Some(entry(0x84, Mnemonic::Sty, 2, 3, AddressingMode::ZeroPage)),
        0x94 => Some(entry(0x94, Mnemonic::Sty, 2, 4, AddressingMode::ZeroPageX)),
        0x8c => Some(entry(0x8c, Mnemonic::Sty, 3, 4, AddressingMode::Absolute)),
        0xe8 => Some(entry(0xe8, Mnemonic::Inx, 1, 2, AddressingMode::NoneAddressing)),
        0xaa => Some(entry(0xaa, Mnemonic::Tax, 1, 2, AddressingMode::NoneAddressing)),
        0xa8 => Some(entry(0xa8, Mnemonic::Tay, 1, 2, AddressingMode::NoneAddressing)),
        0x8a => Some(entry(0x8a, Mnemonic::Txa, 1, 2, AddressingMode::NoneAddressing)),
        0x98 => Some(entry(0x98, Mnemonic::Tya, 1, 2, AddressingMode::NoneAddressing)),
        0xe9 => Some(entry(0xe9, Mnemonic::Sbc, 2, 2, AddressingMode::Immediate)),
        0xe5 => Some(entry(0xe5, Mnemonic::Sbc, 2, 3, AddressingMode::ZeroPage)),
        0xf5 => Some(entry(0xf5, Mnemonic::Sbc, 2, 4, AddressingMode::ZeroPageX)),
        0xed => Some(entry(0xed, Mnemonic::Sbc, 3, 4, AddressingMode::Absolute)),
        0xfd => Some(entry(0xfd, Mnemonic::Sbc, 3, 4, AddressingMode::AbsoluteX)),
        0xf9 => Some(entry(0xf9, Mnemonic::Sbc, 3, 4, AddressingMode::AbsoluteY)),
        0xe1 => Some(entry(0xe1, Mnemonic::Sbc, 2, 6, AddressingMode::IndirectX)),
        0xf1 => Some(entry(0xf1, Mnemonic::Sbc, 2, 5, AddressingMode::IndirectY)),
        0x38 => Some(entry(0x38, Mnemonic::Sec, 1, 2, AddressingMode::NoneAddressing)),
        0xf8 => Some(entry(0xf8, Mnemonic::Sed, 1, 2, AddressingMode::NoneAddressing)),
        0x78 => Some(entry(0x78, Mnemonic::Sei, 1, 2, AddressingMode::NoneAddressing)),
        _ => None,
    }
}

/// Looks `code` up in the instruction table.
pub fn lookup(code: u8) -> (r: Option<OpCode>)
    ensures
        r == decode(code),
{
    reveal(decode);
    match code {
        0x69 => Some(OpCode::new(0x69, Mnemonic::Adc, 2, 2, AddressingMode::Immediate)),
        0x65 => Some(OpCode::new(0x65, Mnemonic::Adc, 2, 3, AddressingMode::ZeroPage)),
        0x75 => Some(OpCode::new(0x75, Mnemonic::Adc, 2, 4, AddressingMode::ZeroPageX)),
        0x6d => Some(OpCode::new(0x6d, Mnemonic::Adc, 3, 4, AddressingMode::Absolute)),
        0x7d => Some(OpCode::new(0x7d, Mnemonic::Adc, 3, 4, AddressingMode::AbsoluteX)),
        0x79 => Some(OpCode::new(0x79, Mnemonic::Adc, 3, 4, AddressingMode::AbsoluteY)),
        0x61 => Some(OpCode::new(0x61, Mnemonic::Adc, 2, 6, AddressingMode::IndirectX)),
        0x71 => Some(OpCode::new(0x71, Mnemonic::Adc, 2, 5, AddressingMode::IndirectY)),
        0x29 => Some(OpCode::new(0x29, Mnemonic::And, 2, 2, AddressingMode::Immediate)),
        0x25 => Some(OpCode::new(0x25, Mnemonic::And, 2, 3, AddressingMode::ZeroPage)),
        0x35 => Some(OpCode::new(0x35, Mnemonic::And, 2, 4, AddressingMode::ZeroPageX)),
        0x2d => Some(OpCode::new(0x2d, Mnemonic::And, 3, 4, AddressingMode::Absolute)),
        0x3d => Some(OpCode::new(0x3d, Mnemonic::And, 3, 4, AddressingMode::AbsoluteX)),
        0x39 => Some(OpCode::new(0x39, Mnemonic::And, 3, 4, AddressingMode::AbsoluteY)),
        0x21 => Some(OpCode::new(0x21, Mnemonic::And, 2, 6, AddressingMode::IndirectX)),
        0x31 => Some(OpCode::new(0x31, Mnemonic::And, 2, 5, AddressingMode::IndirectY)),
        0x0a => Some(OpCode::new(0x0a, Mnemonic::Asl, 1, 2, AddressingMode::Accumulator)),
        0x06 => Some(OpCode::new(0x06, Mnemonic::Asl, 2, 5, AddressingMode::ZeroPage)),
        0x16 => Some(OpCode::new(0x16, Mnemonic::Asl, 2, 6, AddressingMode::ZeroPageX)),
        0x0e => Some(OpCode::new(0x0e, Mnemonic::Asl, 3, 6, AddressingMode::Absolute)),
        0x1e => Some(OpCode::new(0x1e, Mnemonic::Asl, 3, 7, AddressingMode::AbsoluteX)),
        0x90 => Some(OpCode::new(0x90, Mnemonic::Bcc, 2, 2, AddressingMode::Relative)),
        0xb0 => Some(OpCode::new(0xb0, Mnemonic::Bcs, 2, 2, AddressingMode::Relative)),
        0x00 => Some(OpCode::new(0x00, Mnemonic::Brk, 1, 7, AddressingMode::NoneAddressing)),
        0x18 => Some(OpCode::new(0x18, Mnemonic::Clc, 1, 2, AddressingMode::NoneAddressing)),
        0xd8 => Some(OpCode::new(0xd8, Mnemonic::Cld, 1, 2, AddressingMode::NoneAddressing)),
        0x58 => Some(OpCode::new(0x58, Mnemonic::Cli, 1, 2, AddressingMode::NoneAddressing)),
        0xb8 => Some(OpCode::new(0xb8, Mnemonic::Clv, 1, 2, AddressingMode::NoneAddressing)),
        0x49 => Some(OpCode::new(0x49, Mnemonic::Eor, 2, 2, AddressingMode::Immediate)),
        0x45 => Some(OpCode::new(0x45, Mnemonic::Eor, 2, 3, AddressingMode::ZeroPage)),
        0x55 => Some(OpCode::new(0x55, Mnemonic::Eor, 2, 4, AddressingMode::ZeroPageX)),
        0x4d => Some(OpCode::new(0x4d, Mnemonic::Eor, 3, 4, AddressingMode::Absolute)),
        0x5d => Some(OpCode::new(0x5d, Mnemonic::Eor, 3, 4, AddressingMode::AbsoluteX)),
        0x59 => Some(OpCode::new(0x59, Mnemonic::Eor, 3, 4, AddressingMode::AbsoluteY)),
        0x41 => Some(OpCode::new(0x41, Mnemonic::Eor, 2, 6, AddressingMode::IndirectX)),
        0x51 => Some(OpCode::new(0x51, Mnemonic::Eor, 2, 5, AddressingMode::IndirectY)),
        0x4c => Some(OpCode::new(0x4c, Mnemonic::Jmp, 3, 3, AddressingMode::Absolute)),
        0x6c => Some(OpCode::new(0x6c, Mnemonic::Jmp, 3, 5, AddressingMode::Indirect)),
        0xa9 => Some(OpCode::new(0xa9, Mnemonic::Lda, 2, 2, AddressingMode::Immediate)),
        0xa5 => Some(OpCode::new(0xa5, Mnemonic::Lda, 2, 3, AddressingMode::ZeroPage)),
        0xb5 => Some(OpCode::new(0xb5, Mnemonic::Lda, 2, 4, AddressingMode::ZeroPageX)),
        0xad => Some(OpCode::new(0xad, Mnemonic::Lda, 3, 4, AddressingMode::Absolute)),
        0xbd => Some(OpCode::new(0xbd, Mnemonic::Lda, 3, 4, AddressingMode::AbsoluteX)),
        0xb9 => Some(OpCode::new(0xb9, Mnemonic::Lda, 3, 4, AddressingMode::AbsoluteY)),
        0xa1 => Some(OpCode::new(0xa1, Mnemonic::Lda, 2, 6, AddressingMode::IndirectX)),
        0xb1 => Some(OpCode::new(0xb1, Mnemonic::Lda, 2, 5, AddressingMode::IndirectY)),
        0xa2 => Some(OpCode::new(0xa2, Mnemonic::Ldx, 2, 2, AddressingMode::Immediate)),
        0xa6 => Some(OpCode::new(0xa6, Mnemonic::Ldx, 2, 3, AddressingMode::ZeroPage)),
        0xb6 => Some(OpCode::new(0xb6, Mnemonic::Ldx, 2, 4, AddressingMode::ZeroPageY)),
        0xae => Some(OpCode::new(0xae, Mnemonic::Ldx, 3, 4, AddressingMode::Absolute)),
        0xbe => Some(OpCode::new(0xbe, Mnemonic::Ldx, 3, 4, AddressingMode::AbsoluteY)),
        0xa0 => Some(OpCode::new(0xa0, Mnemonic::Ldy, 2, 2, AddressingMode::Immediate)),
        0xa4 => Some(OpCode::new(0xa4, Mnemonic::Ldy, 2, 3, AddressingMode::ZeroPage)),
        0xb4 => Some(OpCode::new(0xb4, Mnemonic::Ldy, 2, 4, AddressingMode::ZeroPageX)),
        0xac => Some(OpCode::new(0xac, Mnemonic::Ldy, 3, 4, AddressingMode::Absolute)),
        0xbc => Some(OpCode::new(0xbc, Mnemonic::Ldy, 3, 4, AddressingMode::AbsoluteX)),
        0x4a => Some(OpCode::new(0x4a, Mnemonic::Lsr, 1, 2, AddressingMode::Accumulator)),
        0x46 => Some(OpCode::new(0x46, Mnemonic::Lsr, 2, 5, AddressingMode::ZeroPage)),
        0x56 => Some(OpCode::new(0x56, Mnemonic::Lsr, 2, 6, AddressingMode::ZeroPageX)),
        0x4e => Some(OpCode::new(0x4e, Mnemonic::Lsr, 3, 6, AddressingMode::Absolute)),
        0x5e => Some(OpCode::new(0x5e, Mnemonic::Lsr, 3, 7, AddressingMode::AbsoluteX)),
        0x09 => Some(OpCode::new(0x09, Mnemonic::Ora, 2, 2, AddressingMode::Immediate)),
        0x05 => Some(OpCode::new(0x05, Mnemonic::Ora, 2, 3, AddressingMode::ZeroPage)),
        0x15 => Some(OpCode::new(0x15, Mnemonic::Ora, 2, 4, AddressingMode::ZeroPageX)),
        0x0d => Some(OpCode::new(0x0d, Mnemonic::Ora, 3, 4, AddressingMode::Absolute)),
        0x1d => Some(OpCode::new(0x1d, Mnemonic::Ora, 3, 4, AddressingMode::AbsoluteX)),
        0x19 => Some(OpCode::new(0x19, Mnemonic::Ora, 3, 4, AddressingMode::AbsoluteY)),
        0x01 => Some(OpCode::new(0x01, Mnemonic::Ora, 2, 6, AddressingMode::IndirectX)),
        0x11 => Some(OpCode::new(0x11, Mnemonic::Ora, 2, 5, AddressingMode::IndirectY)),
        0x2a => Some(OpCode::new(0x2a, Mnemonic::Rol, 1, 2, AddressingMode::Accumulator)),
        0x26 => Some(OpCode::new(0x26, Mnemonic::Rol, 2, 5, AddressingMode::ZeroPage)),
        0x36 => Some(OpCode::new(0x36, Mnemonic::Rol, 2, 6, AddressingMode::ZeroPageX)),
        0x2e => Some(OpCode::new(0x2e, Mnemonic::Rol, 3, 6, AddressingMode::Absolute)),
        0x3e => Some(OpCode::new(0x3e, Mnemonic::Rol, 3, 7, AddressingMode::AbsoluteX)),
        0x6a => Some(OpCode::new(0x6a, Mnemonic::Ror, 1, 2, AddressingMode::Accumulator)),
        0x66 => Some(OpCode::new(0x66, Mnemonic::Ror, 2, 5, AddressingMode::ZeroPage)),
        0x76 => Some(OpCode::new(0x76, Mnemonic::Ror, 2, 6, AddressingMode::ZeroPageX)),
        0x6e => Some(OpCode::new(0x6e, Mnemonic::Ror, 3, 6, AddressingMode::Absolute)),
        0x7e => Some(OpCode::new(0x7e, Mnemonic::Ror, 3, 7, AddressingMode::AbsoluteX)),
        0x85 => Some(OpCode::new(0x85, Mnemonic::Sta, 2, 3, AddressingMode::ZeroPage)),
        0x95 => Some(OpCode::new(0x95, Mnemonic::Sta, 2, 4, AddressingMode::ZeroPageX)),
        0x8d => Some(OpCode::new(0x8d, Mnemonic::Sta, 3, 4, AddressingMode::Absolute)),
        0x9d => Some(OpCode::new(0x9d, Mnemonic::Sta, 3, 5, AddressingMode::AbsoluteX)),
        0x99 => Some(OpCode::new(0x99, Mnemonic::Sta, 3, 5, AddressingMode::AbsoluteY)),
        0x81 => Some(OpCode::new(0x81, Mnemonic::Sta, 2, 6, AddressingMode::IndirectX)),
        0x91 => Some(OpCode::new(0x91, Mnemonic::Sta, 2, 6, AddressingMode::IndirectY)),
        0x86 => Some(OpCode::new(0x86, Mnemonic::Stx, 2, 3, AddressingMode::ZeroPage)),
        0x96 => Some(OpCode::new(0x96, Mnemonic::Stx, 2, 4, AddressingMode::ZeroPageY)),
        0x8e => Some(OpCode::new(0x8e, Mnemonic::Stx, 3, 4, AddressingMode::Absolute)),
        0x84 => Some(OpCode::new(0x84, Mnemonic::Sty, 2, 3, AddressingMode::ZeroPage)),
        0x94 => Some(OpCode::new(0x94, Mnemonic::Sty, 2, 4, AddressingMode::ZeroPageX)),
        0x8c => Some(OpCode::new(0x8c, Mnemonic::Sty, 3, 4, AddressingMode::Absolute)),
        0xe8 => Some(OpCode::new(0xe8, Mnemonic::Inx, 1, 2, AddressingMode::NoneAddressing)),
        0xaa => Some(OpCode::new(0xaa, Mnemonic::Tax, 1, 2, AddressingMode::NoneAddressing)),
        0xa8 => Some(OpCode::new(0xa8, Mnemonic::Tay, 1, 2, AddressingMode::NoneAddressing)),
        0x8a => Some(OpCode::new(0x8a, Mnemonic::Txa, 1, 2, AddressingMode::NoneAddressing)),
        0x98 => Some(OpCode::new(0x98, Mnemonic::Tya, 1, 2, AddressingMode::NoneAddressing)),
        0xe9 => Some(OpCode::new(0xe9, Mnemonic::Sbc, 2, 2, AddressingMode::Immediate)),
        0xe5 => Some(OpCode::new(0xe5, Mnemonic::Sbc, 2, 3, AddressingMode::ZeroPage)),
        0xf5 => Some(OpCode::new(0xf5, Mnemonic::Sbc, 2, 4, AddressingMode::ZeroPageX)),
        0xed => Some(OpCode::new(0xed, Mnemonic::Sbc, 3, 4, AddressingMode::Absolute)),
        0xfd => Some(OpCode::new(0xfd, Mnemonic::Sbc, 3, 4, AddressingMode::AbsoluteX)),
        0xf9 => Some(OpCode::new(0xf9, Mnemonic::Sbc, 3, 4, AddressingMode::AbsoluteY)),
        0xe1 => Some(OpCode::new(0xe1, Mnemonic::Sbc, 2, 6, AddressingMode::IndirectX)),
        0xf1 => Some(OpCode::new(0xf1, Mnemonic::Sbc, 2, 5, AddressingMode::IndirectY)),
        0x38 => Some(OpCode::new(0x38, Mnemonic::Sec, 1, 2, AddressingMode::NoneAddressing)),
        0xf8 => Some(OpCode::new(0xf8, Mnemonic::Sed, 1, 2, AddressingMode::NoneAddressing)),
        0x78 => Some(OpCode::new(0x78, Mnemonic::Sei, 1, 2, AddressingMode::NoneAddressing)),
        _ => None,
    }
}

} // verus!
