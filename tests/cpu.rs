use nes_emulator::{CpuError, Flag, Mem, Status, CPU};

#[test]
fn test_mem_init() {
    let mem = Mem::new();

    for i in 0..0xffff {
        assert_eq!(mem.read(i as u16), 0x00);
    }
}

#[test]
fn test_mem_read_write() {
    let mut mem = Mem::new();

    mem.write(0x01, 0xff);

    assert_eq!(mem.read(0x01), 0xff);
}

#[test]
fn test_mem_read16() {
    let mut mem = Mem::new();

    mem.write(0x01, 0xff);
    mem.write(0x02, 0xcc);

    assert_eq!(mem.read16(0x01), Ok(0xccff));
}

#[test]
fn test_mem_read16_out_of_range() {
    let mem = Mem::new();

    assert_eq!(
        mem.read16(0xffff),
        Err(CpuError::OutOfRangeAccess { addr: 0xffff })
    );
}

#[test]
fn test_mem_write_range() {
    let mut mem = Mem::new();
    let input: Vec<u8> = vec![0, 1, 2, 3, 4, 5];

    assert_eq!(mem.write_range(0x01, &input[1..]), Ok(()));

    assert_eq!(mem.read(0x01), 1);
    assert_eq!(mem.read(0x02), 2);
    assert_eq!(mem.read(0x03), 3);
    assert_eq!(mem.read(0x04), 4);
    assert_eq!(mem.read(0x05), 5);
}

#[test]
fn test_mem_write16() {
    let mut mem = Mem::new();

    assert_eq!(mem.write16(0x01, 0xffcc), Ok(()));

    assert_eq!(mem.read16(0x01), Ok(0xffcc));
}

#[test]
fn test_mem_write16_out_or_range() {
    let mut mem = Mem::new();

    assert_eq!(
        mem.write16(0xffff, 0xffff),
        Err(CpuError::OutOfRangeAccess { addr: 0xffff })
    );
}

#[test]
fn test_mem_write_range_out_of_range() {
    let mut mem = Mem::new();
    let input: Vec<u8> = vec![0, 1, 2, 3, 4, 5];

    assert_eq!(
        mem.write_range(0xfffe, &input[1..]),
        Err(CpuError::RangeOverflow { start: 0xfffe, len: 5 })
    );
}

#[test]
fn test_initial_register() {
    let mut cpu = CPU::new();
    cpu.reset();

    assert_eq!(cpu.reg_a, 0);
    assert_eq!(cpu.reg_x, 0);
    assert_eq!(cpu.reg_y, 0);
    assert_eq!(cpu.reg_status, Status::empty());
    assert_eq!(cpu.pc, 0x00);
}

#[test]
fn test_lda_immediate_load_data() {
    let mut cpu = CPU::new();
    let program = vec![0xa9, 0b0000_1111, 0x00];

    assert_eq!(cpu.interpret(&program), Ok(()));

    assert_eq!(cpu.reg_a, 0b0000_1111);
    assert_eq!(cpu.reg_status, Status::empty());
}

#[test]
fn test_lda_immediate_negative_flag() {
    let mut cpu = CPU::new();
    let program = vec![0xa9, 0b1000_1111, 0x00];

    assert_eq!(cpu.interpret(&program), Ok(()));

    assert_eq!(cpu.reg_a, 0b1000_1111);
    assert_eq!(cpu.reg_status, Status::only(Flag::Negative));
}

#[test]
fn test_lda_immediate_zero_flag() {
    let mut cpu = CPU::new();
    let program = vec![0xa9, 0x00, 0x00];

    assert_eq!(cpu.interpret(&program), Ok(()));

    assert_eq!(cpu.reg_a, 0x00);
    assert_eq!(cpu.reg_status, Status::only(Flag::Zero));
}

#[test]
fn test_ldx_immediate() {
    let mut cpu = CPU::new();
    let program = vec![0xa2, 0x7c, 0x00];

    assert_eq!(cpu.interpret(&program), Ok(()));

    assert_eq!(cpu.reg_x, 0x7c);
    assert_eq!(cpu.reg_status, Status::empty());
}

#[test]
fn test_ldx_zero_flag() {
    let mut cpu = CPU::new();
    let program = vec![0xa2, 0x00, 0x00];

    assert_eq!(cpu.interpret(&program), Ok(()));

    assert_eq!(cpu.reg_x, 0x00);
    assert_eq!(cpu.reg_status, Status::only(Flag::Zero));
}

#[test]
fn test_ldx_negative_flag() {
    let mut cpu = CPU::new();
    let program = vec![0xa2, 0xfc, 0x00];

    assert_eq!(cpu.interpret(&program), Ok(()));

    assert_eq!(cpu.reg_x, 0xfc);
    assert_eq!(cpu.reg_status, Status::only(Flag::Negative));
}

#[test]
fn test_ldy_immediate() {
    let mut cpu = CPU::new();
    let program = vec![0xa0, 0x7c, 0x00];

    assert_eq!(cpu.interpret(&program), Ok(()));

    assert_eq!(cpu.reg_y, 0x7c);
    assert_eq!(cpu.reg_status, Status::empty());
}

#[test]
fn test_ldy_zero_flag() {
    let mut cpu = CPU::new();
    let program = vec![0xa0, 0x00, 0x00];

    assert_eq!(cpu.interpret(&program), Ok(()));

    assert_eq!(cpu.reg_y, 0x00);
    assert_eq!(cpu.reg_status, Status::only(Flag::Zero));
}

#[test]
fn test_ldy_negative_flag() {
    let mut cpu = CPU::new();
    let program = vec![0xa0, 0xfc, 0x00];

    assert_eq!(cpu.interpret(&program), Ok(()));

    assert_eq!(cpu.reg_y, 0xfc);
    assert_eq!(cpu.reg_status, Status::only(Flag::Negative));
}

#[test]
fn test_tax_load_data() {
    let mut cpu = CPU::new();
    // LDA #$8f
    // TAX
    // BRK
    let program = vec![0xa9, 0b0111_1111, 0xaa, 0x00];

    assert_eq!(cpu.interpret(&program), Ok(()));

    assert_eq!(cpu.reg_a, 0b0111_1111);
    assert_eq!(cpu.reg_x, 0b0111_1111);
    assert_eq!(cpu.reg_status, Status::empty());
}

#[test]
fn test_tax_negative_flag() {
    let mut cpu = CPU::new();
    // LDA #$ff
    // TAX
    // BRK
    let program = vec![0xa9, 0b1111_1111, 0xaa, 0x00];

    assert_eq!(cpu.interpret(&program), Ok(()));

    assert_eq!(cpu.reg_a, 0b1111_1111);
    assert_eq!(cpu.reg_x, 0b1111_1111);
    assert_eq!(cpu.reg_status, Status::only(Flag::Negative));
}

#[test]
fn test_tax_zero_flag() {
    let mut cpu = CPU::new();
    // LDA #$ff
    // TAX
    // BRK
    let program = vec![0xa9, 0x00, 0xaa, 0x00];

    assert_eq!(cpu.interpret(&program), Ok(()));

    assert_eq!(cpu.reg_a, 0x00);
    assert_eq!(cpu.reg_x, 0x00);
    assert_eq!(cpu.reg_status, Status::only(Flag::Zero));
}

#[test]
fn test_tay_load_data() {
    let mut cpu = CPU::new();
    // LDA #$8f
    // TAY
    // BRK
    let program = vec![0xa9, 0b0111_1111, 0xa8, 0x00];

    assert_eq!(cpu.interpret(&program), Ok(()));

    assert_eq!(cpu.reg_a, 0b0111_1111);
    assert_eq!(cpu.reg_y, 0b0111_1111);
    assert_eq!(cpu.reg_status, Status::empty());
}

#[test]
fn test_tay_negative_flag() {
    let mut cpu = CPU::new();
    // LDA #$ff
    // TAX
    // BRK
    let program = vec![0xa9, 0b1111_1111, 0xa8, 0x00];

    assert_eq!(cpu.interpret(&program), Ok(()));

    assert_eq!(cpu.reg_a, 0b1111_1111);
    assert_eq!(cpu.reg_y, 0b1111_1111);
    assert_eq!(cpu.reg_status, Status::only(Flag::Negative));
}

#[test]
fn test_tay_zero_flag() {
    let mut cpu = CPU::new();
    // LDA #$ff
    // TAX
    // BRK
    let program = vec![0xa9, 0x00, 0xa8, 0x00];

    assert_eq!(cpu.interpret(&program), Ok(()));

    assert_eq!(cpu.reg_a, 0x00);
    assert_eq!(cpu.reg_y, 0x00);
    assert_eq!(cpu.reg_status, Status::only(Flag::Zero));
}

#[test]
fn test_txa_load_data() {
    let mut cpu = CPU::new();
    // LDX #$7f
    // TXA
    // BRK
    let program = vec![0xa2, 0b0111_1111, 0x8a, 0x00];

    assert_eq!(cpu.interpret(&program), Ok(()));

    assert_eq!(cpu.reg_a, 0b0111_1111);
    assert_eq!(cpu.reg_x, 0b0111_1111);
    assert_eq!(cpu.reg_status, Status::empty());
}

#[test]
fn test_txa_negative_flag() {
    let mut cpu = CPU::new();
    // LDX #$ff
    // TAX
    // BRK
    let program = vec![0xa2, 0b1111_1111, 0x8a, 0x00];

    assert_eq!(cpu.interpret(&program), Ok(()));

    assert_eq!(cpu.reg_a, 0b1111_1111);
    assert_eq!(cpu.reg_x, 0b1111_1111);
    assert_eq!(cpu.reg_status, Status::only(Flag::Negative));
}

#[test]
fn test_txa_zero_flag() {
    let mut cpu = CPU::new();
    // LDA #$ff
    // TAX
    // BRK
    let program = vec![0xa2, 0x00, 0x8a, 0x00];

    assert_eq!(cpu.interpret(&program), Ok(()));

    assert_eq!(cpu.reg_a, 0x00);
    assert_eq!(cpu.reg_x, 0x00);
    assert_eq!(cpu.reg_status, Status::only(Flag::Zero));
}

#[test]
fn test_tya_load_data() {
    let mut cpu = CPU::new();
    // LDY #$7f
    // TYA
    // BRK
    let program = vec![0xa0, 0b0111_1111, 0x98, 0x00];

    assert_eq!(cpu.interpret(&program), Ok(()));

    assert_eq!(cpu.reg_a, 0b0111_1111);
    assert_eq!(cpu.reg_y, 0b0111_1111);
    assert_eq!(cpu.reg_status, Status::empty());
}

#[test]
fn test_tya_negative_flag() {
    let mut cpu = CPU::new();
    // LDY #$ff
    // TYA
    // BRK
    let program = vec![0xa0, 0b1111_1111, 0x98, 0x00];

    assert_eq!(cpu.interpret(&program), Ok(()));

    assert_eq!(cpu.reg_a, 0b1111_1111);
    assert_eq!(cpu.reg_y, 0b1111_1111);
    assert_eq!(cpu.reg_status, Status::only(Flag::Negative));
}

#[test]
fn test_tya_zero_flag() {
    let mut cpu = CPU::new();
    // LDY #$ff
    // TYA
    // BRK
    let program = vec![0xa0, 0x00, 0x98, 0x00];

    assert_eq!(cpu.interpret(&program), Ok(()));

    assert_eq!(cpu.reg_a, 0x00);
    assert_eq!(cpu.reg_y, 0x00);
    assert_eq!(cpu.reg_status, Status::only(Flag::Zero));
}

#[test]
fn test_inx() {
    let mut cpu = CPU::new();
    // INX
    // INX
    let program = vec![0xe8, 0xe8, 0x00];

    assert_eq!(cpu.interpret(&program), Ok(()));

    assert_eq!(cpu.reg_x, 0x02);
    assert_eq!(cpu.reg_status, Status::empty());
}

#[test]
fn test_inx_zero_flag() {
    let mut cpu = CPU::new();
    let mut program = vec![0; 8000];
    for i in 0..0x100 {
        program[i] = 0xe8;
    }

    // INX * 256
    // BRK
    assert_eq!(cpu.interpret(&program), Ok(()));

    assert_eq!(cpu.reg_x, 0x00);
    assert_eq!(cpu.reg_status, Status::only(Flag::Zero));
}

#[test]
fn test_inx_negative_flag() {
    let mut cpu = CPU::new();
    let mut program = vec![0; 8000];
    for i in 0..0xf0 {
        program[i] = 0xe8;
    }
    // INX * 0xf0
    // BRK
    assert_eq!(cpu.interpret(&program), Ok(()));

    assert_eq!(cpu.reg_x, 0xf0);
    assert_eq!(cpu.reg_status, Status::only(Flag::Negative));
}

#[test]
fn test_inx_overflow() {
    let mut cpu = CPU::new();
    let mut program = vec![0; 8000];
    for i in 0..0x101 {
        program[i] = 0xe8;
    }

    // INX * 257
    // BRK
    assert_eq!(cpu.interpret(&program), Ok(()));

    assert_eq!(cpu.reg_x, 1)
}

#[test]
fn test_jmp_absolute() {
    let mut cpu = CPU::new();
    // JMP $8004  <= 0x8000
    // BRK
    // LDA #$01     <= 0x8004
    // BRK
    let program = vec![0x4c, 0x04, 0x80, 0x00, 0xa9, 0x01, 0x00];

    assert_eq!(cpu.interpret(&program), Ok(()));

    assert_eq!(cpu.reg_a, 0x01);
    assert_eq!(cpu.reg_status, Status::empty());
}

#[test]
fn test_jmp_indirect() {
    let mut cpu = CPU::new();
    // JMP ($8007) <= 0x8000
    // BRK           <= 0x8003
    // LDA #$01      <= 0x8004
    // BRK           <= 0x8006
    // 0x04          <= 0x8007
    // 0x08
    let program = vec![0x6c, 0x07, 0x80, 0x00, 0xa9, 0x01, 0x00, 0x04, 0x80];

    assert_eq!(cpu.interpret(&program), Ok(()));

    assert_eq!(cpu.reg_a, 0x01);
    assert_eq!(cpu.reg_status, Status::empty());
}

#[test]
fn test_sta() {
    let mut cpu = CPU::new();
    // LDA #$a2
    // STA $800a
    // LDA #$1c
    // STA $800b
    // 0x00         <= 0x800a
    // 0x00         <= 0x800b
    // BRK
    let program = vec![
        0xa9, 0xa2, 0x8d, 0x0a, 0x80, 0xa9, 0x1c, 0x8d, 0x0b, 0x80, 0x00, 0x00, 0x00,
    ];

    assert_eq!(cpu.interpret(&program), Ok(()));

    assert_eq!(cpu.reg_x, 0x1c);
    assert_eq!(cpu.reg_status, Status::empty());
}

#[test]
fn test_stx() {
    let mut cpu = CPU::new();
    // LDX #$a9
    // STX $800a
    // LDX #$1c
    // STX $800b
    // 0x00         <= 0x800a
    // 0x00         <= 0x800b
    // BRK
    let program = vec![
        0xa2, 0xa9, 0x8e, 0x0a, 0x80, 0xa2, 0x1c, 0x8e, 0x0b, 0x80, 0x00, 0x00, 0x00,
    ];

    assert_eq!(cpu.interpret(&program), Ok(()));

    assert_eq!(cpu.reg_a, 0x1c);
    assert_eq!(cpu.reg_status, Status::empty());
}

#[test]
fn test_sty() {
    let mut cpu = CPU::new();
    // LDY #$a9
    // STY $800a
    // LDY #$1c
    // STY $800b
    // 0x00         <= 0x800a
    // 0x00         <= 0x800b
    // BRK
    let program = vec![
        0xa0, 0xa9, 0x8c, 0x0a, 0x80, 0xa0, 0x1c, 0x8c, 0x0b, 0x80, 0x00, 0x00, 0x00,
    ];

    assert_eq!(cpu.interpret(&program), Ok(()));

    assert_eq!(cpu.reg_a, 0x1c);
    assert_eq!(cpu.reg_status, Status::empty());
}

#[test]
fn test_sec() {
    let mut cpu = CPU::new();
    // SEC
    // BRK
    let program = vec![0x38, 0x00];

    assert_eq!(cpu.interpret(&program), Ok(()));

    assert_eq!(cpu.reg_status.contains(Flag::Carry), true);
}

#[test]
fn test_sed() {
    let mut cpu = CPU::new();
    // SED
    // BRK
    let program = vec![0xf8, 0x00];

    assert_eq!(cpu.interpret(&program), Ok(()));

    assert_eq!(cpu.reg_status.contains(Flag::Decimal), true);
}

#[test]
fn test_sei() {
    let mut cpu = CPU::new();
    // SEI
    // BRK
    let program = vec![0x78, 0x00];

    assert_eq!(cpu.interpret(&program), Ok(()));

    assert_eq!(cpu.reg_status.contains(Flag::InterruptDisable), true);
}

#[test]
fn test_adc() {
    let mut cpu = CPU::new();
    // LDA #$01
    // ADC #$01
    // BRK
    let program = vec![0xa9, 0x01, 0x69, 0x01, 0x00];

    assert_eq!(cpu.interpret(&program), Ok(()));

    assert_eq!(cpu.reg_a, 0x02);
    assert_eq!(cpu.reg_status, Status::empty());
}

#[test]
fn test_adc_input_carrier() {
    let mut cpu = CPU::new();
    // SEC
    // LDA #$01
    // ADC #$01
    // BRK
    let program = vec![0x38, 0xa9, 0x01, 0x69, 0x01, 0x00];

    assert_eq!(cpu.interpret(&program), Ok(()));

    assert_eq!(cpu.reg_a, 0x03);
    assert_eq!(cpu.reg_status, Status::empty());
}

#[test]
fn test_adc_output_add_two_positives() {
    let mut cpu = CPU::new();
    // LDA #$40
    // ADC #$40
    // BRK
    let program = vec![0xa9, 0x40, 0x69, 0x40, 0x00];

    assert_eq!(cpu.interpret(&program), Ok(()));

    assert_eq!(cpu.reg_a, 0x80);
    assert_eq!(cpu.reg_status.contains(Flag::Carry), false);
    assert_eq!(cpu.reg_status.contains(Flag::Negative), true);
    assert_eq!(cpu.reg_status.contains(Flag::Overflow), true);
    assert_eq!(cpu.reg_status.contains(Flag::Zero), false);
}

#[test]
fn test_adc_output_add_two_positives_and_carrier() {
    let mut cpu = CPU::new();
    // SEC
    // LDA #$3f
    // ADC #$40
    // BRK
    let program = vec![0x38, 0xa9, 0x3f, 0x69, 0x40, 0x00];

    assert_eq!(cpu.interpret(&program), Ok(()));

    assert_eq!(cpu.reg_a, 0x80);
    assert_eq!(cpu.reg_status.contains(Flag::Carry), false);
    assert_eq!(cpu.reg_status.contains(Flag::Negative), true);
    assert_eq!(cpu.reg_status.contains(Flag::Overflow), true);
    assert_eq!(cpu.reg_status.contains(Flag::Zero), false);
}

#[test]
fn test_adc_output_overflow_add_two_negatives() {
    let mut cpu = CPU::new();
    // LDA #$80
    // ADC #$80
    // BRK
    let program = vec![0xa9, 0x80, 0x69, 0x80, 0x00];

    assert_eq!(cpu.interpret(&program), Ok(()));

    assert_eq!(cpu.reg_a, 0x00);
    assert_eq!(cpu.reg_status.contains(Flag::Overflow), true);
    assert_eq!(cpu.reg_status.contains(Flag::Carry), true);
    assert_eq!(cpu.reg_status.contains(Flag::Zero), true);
}

#[test]
fn test_adc_output_overflow_add_two_negative_and_carrier() {
    let mut cpu = CPU::new();
    // SEC
    // LDA #$bf
    // ADC #$c0
    // BRK
    let program = vec![0x38, 0xa9, 0xbf, 0x69, 0xc0, 0x00];

    assert_eq!(cpu.interpret(&program), Ok(()));

    assert_eq!(cpu.reg_a, 0x80);
    assert_eq!(cpu.reg_status.contains(Flag::Overflow), false);
    assert_eq!(cpu.reg_status.contains(Flag::Carry), true);
    assert_eq!(cpu.reg_status.contains(Flag::Zero), false);
    assert_eq!(cpu.reg_status.contains(Flag::Negative), true);
}

#[test]
fn test_sbc() {
    let mut cpu = CPU::new();
    // LDA #$01
    // SBC #$01
    // BRK
    let program = vec![0xa9, 0x01, 0xe9, 0x01, 0x00];

    assert_eq!(cpu.interpret(&program), Ok(()));

    assert_eq!(cpu.reg_a, 0xff);
    assert_eq!(cpu.reg_status.contains(Flag::Negative), true);
    assert_eq!(cpu.reg_status.contains(Flag::Carry), false);
    assert_eq!(cpu.reg_status.contains(Flag::Overflow), false);
    assert_eq!(cpu.reg_status.contains(Flag::Zero), false);
}

#[test]
fn test_sbc_carrier() {
    let mut cpu = CPU::new();
    // SBC
    // LDA #$01
    // SBC #$01
    // BRK
    let program = vec![0x38, 0xa9, 0x01, 0xe9, 0x01, 0x00];

    assert_eq!(cpu.interpret(&program), Ok(()));

    assert_eq!(cpu.reg_a, 0x00);
    assert_eq!(cpu.reg_status.contains(Flag::Negative), false);
    assert_eq!(cpu.reg_status.contains(Flag::Carry), true);
    assert_eq!(cpu.reg_status.contains(Flag::Overflow), false);
    assert_eq!(cpu.reg_status.contains(Flag::Zero), true);
}

#[test]
fn test_and() {
    let mut cpu = CPU::new();
    // LDA #$ff
    // AND #$01
    // BRK
    let program = vec![0xa9, 0xff, 0x29, 0x01, 0x00];

    assert_eq!(cpu.interpret(&program), Ok(()));

    assert_eq!(cpu.reg_a, 0x01);
}

#[test]
fn test_asl() {
    let mut cpu = CPU::new();
    // LDA #$ff
    // ASL A
    // BRK
    let program = vec![0xa9, 0xff, 0x0a, 0x00];

    assert_eq!(cpu.interpret(&program), Ok(()));

    assert_eq!(cpu.reg_a, 0xfe);
    assert_eq!(cpu.reg_status.contains(Flag::Carry), true);
    assert_eq!(cpu.reg_status.contains(Flag::Negative), true);
    assert_eq!(cpu.reg_status.contains(Flag::Zero), false);
}

#[test]
fn test_asl_zero() {
    let mut cpu = CPU::new();
    // LDA #$00
    // ASL A
    // BRK
    let program = vec![0xa9, 0x00, 0x0a, 0x00];

    assert_eq!(cpu.interpret(&program), Ok(()));

    assert_eq!(cpu.reg_a, 0x00);
    assert_eq!(cpu.reg_status.contains(Flag::Carry), false);
    assert_eq!(cpu.reg_status.contains(Flag::Negative), false);
    assert_eq!(cpu.reg_status.contains(Flag::Zero), true);
}

#[test]
fn test_asl_zeropage() {
    let mut cpu = CPU::new();
    // LDA #$ff
    // STA $f0
    // ASL $f0
    // BRK
    let program = vec![0xa9, 0xff, 0x85, 0xf0, 0x06, 0xf0, 0x00];

    assert_eq!(cpu.interpret(&program), Ok(()));

    assert_eq!(cpu.reg_a, 0xff);
    assert_eq!(cpu.read_mem(0x00f0), 0xfe);
    assert_eq!(cpu.reg_status.contains(Flag::Carry), true);
    assert_eq!(cpu.reg_status.contains(Flag::Negative), true);
    assert_eq!(cpu.reg_status.contains(Flag::Zero), false);
}

#[test]
fn test_asl_zero_zeropage() {
    let mut cpu = CPU::new();
    // LDA #$00
    // STA $f0
    // ASL $f0
    // BRK
    let program = vec![0xa9, 0x00, 0x85, 0xf0, 0x06, 0xf0, 0x00];

    assert_eq!(cpu.interpret(&program), Ok(()));

    assert_eq!(cpu.reg_a, 0x00);
    assert_eq!(cpu.read_mem(0x00f0), 0x00);
    assert_eq!(cpu.reg_status.contains(Flag::Carry), false);
    assert_eq!(cpu.reg_status.contains(Flag::Negative), false);
    assert_eq!(cpu.reg_status.contains(Flag::Zero), true);
}

#[test]
fn test_asl_zeropagex() {
    let mut cpu = CPU::new();
    // LDA #$ff
    // STA $f0
    // LDX #$01
    // ASL $ef, X
    // BRK
    let program = vec![0xa9, 0xff, 0x85, 0xf0, 0xa2, 0x01, 0x16, 0xef, 0x00];

    assert_eq!(cpu.interpret(&program), Ok(()));

    assert_eq!(cpu.reg_a, 0xff);
    assert_eq!(cpu.read_mem(0x00f0), 0xfe);
    assert_eq!(cpu.reg_status.contains(Flag::Carry), true);
    assert_eq!(cpu.reg_status.contains(Flag::Negative), true);
    assert_eq!(cpu.reg_status.contains(Flag::Zero), false);
}

#[test]
fn test_asl_absolute() {
    let mut cpu = CPU::new();
    // LDA #$ff
    // STA $f0
    // LDX #$01
    // ASL $00ef
    // BRK
    let program = vec![0xa9, 0xff, 0x85, 0xf0, 0xa2, 0x01, 0x1e, 0xef, 0x00];

    assert_eq!(cpu.interpret(&program), Ok(()));

    assert_eq!(cpu.reg_a, 0xff);
    assert_eq!(cpu.read_mem(0x00f0), 0xfe);
    assert_eq!(cpu.reg_status.contains(Flag::Carry), true);
    assert_eq!(cpu.reg_status.contains(Flag::Negative), true);
    assert_eq!(cpu.reg_status.contains(Flag::Zero), false);
}

#[test]
fn test_asl_absolutex() {
    let mut cpu = CPU::new();
    // LDA #$ff
    // STA $f0
    // LDX #$01
    // ASL $00ef, x
    // BRK
    let program = vec![0xa9, 0xff, 0x85, 0xf0, 0xa2, 0x01, 0x1e, 0xef, 0x00];

    assert_eq!(cpu.interpret(&program), Ok(()));

    assert_eq!(cpu.reg_a, 0xff);
    assert_eq!(cpu.read_mem(0x00f0), 0xfe);
    assert_eq!(cpu.reg_status.contains(Flag::Carry), true);
    assert_eq!(cpu.reg_status.contains(Flag::Negative), true);
    assert_eq!(cpu.reg_status.contains(Flag::Zero), false);
}

#[test]
fn test_eor() {
    let mut cpu = CPU::new();
    // LDA #$f0
    // EOR #$0f
    // BRK
    let program = vec![0xa9, 0xf0, 0x49, 0x0f, 0x00];

    assert_eq!(cpu.interpret(&program), Ok(()));

    assert_eq!(cpu.reg_a, 0xff);
    assert_eq!(cpu.reg_status.contains(Flag::Negative), true);
    assert_eq!(cpu.reg_status.contains(Flag::Zero), false);
}

#[test]
fn test_eor_zero() {
    let mut cpu = CPU::new();
    // LDA #$ff
    // EOR #$ff
    // BRK
    let program = vec![0xa9, 0xff, 0x49, 0xff, 0x00];

    assert_eq!(cpu.interpret(&program), Ok(()));

    assert_eq!(cpu.reg_a, 0x00);
    assert_eq!(cpu.reg_status.contains(Flag::Negative), false);
    assert_eq!(cpu.reg_status.contains(Flag::Zero), true);
}

#[test]
fn test_ora() {
    let mut cpu = CPU::new();
    // LDA #$f0
    // ORA #$0f
    // BRK
    let program = vec![0xa9, 0xf0, 0x09, 0x0f, 0x00];

    assert_eq!(cpu.interpret(&program), Ok(()));

    assert_eq!(cpu.reg_a, 0xff);
    assert_eq!(cpu.reg_status.contains(Flag::Negative), true);
    assert_eq!(cpu.reg_status.contains(Flag::Zero), false);
}

#[test]
fn test_ora_zero() {
    let mut cpu = CPU::new();
    // LDA #$00
    // ORA #$00
    // BRK
    let program = vec![0xa9, 0x00, 0x09, 0x00, 0x00];

    assert_eq!(cpu.interpret(&program), Ok(()));

    assert_eq!(cpu.reg_a, 0x00);
    assert_eq!(cpu.reg_status.contains(Flag::Negative), false);
    assert_eq!(cpu.reg_status.contains(Flag::Zero), true);
}

#[test]
fn test_lsr() {
    let mut cpu = CPU::new();
    // LDA #$ff
    // LSR A
    // BRK
    let program = vec![0xa9, 0xff, 0x4a, 0x00];

    assert_eq!(cpu.interpret(&program), Ok(()));

    assert_eq!(cpu.reg_a, 0x7f);
    assert_eq!(cpu.reg_status.contains(Flag::Carry), true);
    assert_eq!(cpu.reg_status.contains(Flag::Negative), false);
    assert_eq!(cpu.reg_status.contains(Flag::Zero), false);
}

#[test]
fn test_lsr_zero() {
    let mut cpu = CPU::new();
    // LDA #$00
    // LSR A
    // BRK
    let program = vec![0xa9, 0x00, 0x4a, 0x00];

    assert_eq!(cpu.interpret(&program), Ok(()));

    assert_eq!(cpu.reg_a, 0x00);
    assert_eq!(cpu.reg_status.contains(Flag::Carry), false);
    assert_eq!(cpu.reg_status.contains(Flag::Negative), false);
    assert_eq!(cpu.reg_status.contains(Flag::Zero), true);
}

#[test]
fn test_lsr_zeropage() {
    let mut cpu = CPU::new();
    // LDA #$ff
    // STA $f0
    // LSR $f0
    // BRK
    let program = vec![0xa9, 0xff, 0x85, 0xf0, 0x46, 0xf0, 0x00];

    assert_eq!(cpu.interpret(&program), Ok(()));

    assert_eq!(cpu.reg_a, 0xff);
    assert_eq!(cpu.read_mem(0x00f0), 0x7f);
    assert_eq!(cpu.reg_status.contains(Flag::Carry), true);
    assert_eq!(cpu.reg_status.contains(Flag::Negative), false);
    assert_eq!(cpu.reg_status.contains(Flag::Zero), false);
}

#[test]
fn test_lsr_zero_zeropage() {
    let mut cpu = CPU::new();
    // LDA #$00
    // STA $f0
    // LSR $f0
    // BRK
    let program = vec![0xa9, 0x00, 0x85, 0xf0, 0x46, 0xf0, 0x00];

    assert_eq!(cpu.interpret(&program), Ok(()));

    assert_eq!(cpu.reg_a, 0x00);
    assert_eq!(cpu.read_mem(0x00f0), 0x00);
    assert_eq!(cpu.reg_status.contains(Flag::Carry), false);
    assert_eq!(cpu.reg_status.contains(Flag::Negative), false);
    assert_eq!(cpu.reg_status.contains(Flag::Zero), true);
}

#[test]
fn test_rol() {
    let mut cpu = CPU::new();
    // LDA #$ff
    // ROL A
    // BRK
    let program = vec![0xa9, 0xff, 0x2a, 0x00];

    assert_eq!(cpu.interpret(&program), Ok(()));

    assert_eq!(cpu.reg_a, 0xfe);
    assert_eq!(cpu.reg_status.contains(Flag::Carry), true);
    assert_eq!(cpu.reg_status.contains(Flag::Negative), true);
    assert_eq!(cpu.reg_status.contains(Flag::Zero), false);
}

#[test]
fn test_rol_zero() {
    let mut cpu = CPU::new();
    // LDA #$00
    // ROL A
    // BRK
    let program = vec![0xa9, 0x00, 0x2a, 0x00];

    assert_eq!(cpu.interpret(&program), Ok(()));

    assert_eq!(cpu.reg_a, 0x00);
    assert_eq!(cpu.reg_status.contains(Flag::Carry), false);
    assert_eq!(cpu.reg_status.contains(Flag::Negative), false);
    assert_eq!(cpu.reg_status.contains(Flag::Zero), true);
}

#[test]
fn test_rol_carrier() {
    let mut cpu = CPU::new();
    // SEC
    // LDA #$ff
    // ROL A
    // BRK
    let program = vec![0x38, 0xa9, 0xff, 0x2a, 0x00];

    assert_eq!(cpu.interpret(&program), Ok(()));

    assert_eq!(cpu.reg_a, 0xff);
    assert_eq!(cpu.reg_status.contains(Flag::Carry), true);
    assert_eq!(cpu.reg_status.contains(Flag::Negative), true);
    assert_eq!(cpu.reg_status.contains(Flag::Zero), false);
}

#[test]
fn test_rol_zeropage() {
    let mut cpu = CPU::new();
    // LDA #$ff
    // STA $f0
    // ROL $f0
    // BRK
    let program = vec![0xa9, 0xff, 0x85, 0xf0, 0x26, 0xf0, 0x00];

    assert_eq!(cpu.interpret(&program), Ok(()));

    assert_eq!(cpu.reg_a, 0xff);
    assert_eq!(cpu.read_mem(0x00f0), 0xfe);
    assert_eq!(cpu.reg_status.contains(Flag::Carry), true);
    assert_eq!(cpu.reg_status.contains(Flag::Negative), true);
    assert_eq!(cpu.reg_status.contains(Flag::Zero), false);
}

#[test]
fn test_rol_zero_zeropage() {
    let mut cpu = CPU::new();
    // LDA #$00
    // STA $f0
    // ROL $f0
    // BRK
    let program = vec![0xa9, 0x00, 0x85, 0xf0, 0x26, 0xf0, 0x00];

    assert_eq!(cpu.interpret(&program), Ok(()));

    assert_eq!(cpu.reg_a, 0x00);
    assert_eq!(cpu.read_mem(0x00f0), 0x00);
    assert_eq!(cpu.reg_status.contains(Flag::Carry), false);
    assert_eq!(cpu.reg_status.contains(Flag::Negative), false);
    assert_eq!(cpu.reg_status.contains(Flag::Zero), true);
}

#[test]
fn test_rol_carrier_zeropage() {
    let mut cpu = CPU::new();
    // SEC
    // LDA #$ff
    // STA $f0
    // ROL $f0
    // BRK
    let program = vec![0x38, 0xa9, 0xff, 0x85, 0xf0, 0x26, 0xf0, 0x00];

    assert_eq!(cpu.interpret(&program), Ok(()));

    assert_eq!(cpu.reg_a, 0xff);
    assert_eq!(cpu.read_mem(0x00f0), 0xff);
    assert_eq!(cpu.reg_status.contains(Flag::Carry), true);
    assert_eq!(cpu.reg_status.contains(Flag::Negative), true);
    assert_eq!(cpu.reg_status.contains(Flag::Zero), false);
}

#[test]
fn test_ror() {
    let mut cpu = CPU::new();
    // LDA #$ff
    // ROR A
    // BRK
    let program = vec![0xa9, 0xff, 0x6a, 0x00];

    assert_eq!(cpu.interpret(&program), Ok(()));

    assert_eq!(cpu.reg_a, 0x7f);
    assert_eq!(cpu.reg_status.contains(Flag::Carry), true);
    assert_eq!(cpu.reg_status.contains(Flag::Negative), false);
    assert_eq!(cpu.reg_status.contains(Flag::Zero), false);
}

#[test]
fn test_ror_zero() {
    let mut cpu = CPU::new();
    // LDA #$00
    // ROR A
    // BRK
    let program = vec![0xa9, 0x00, 0x6a, 0x00];

    assert_eq!(cpu.interpret(&program), Ok(()));

    assert_eq!(cpu.reg_a, 0x00);
    assert_eq!(cpu.reg_status.contains(Flag::Carry), false);
    assert_eq!(cpu.reg_status.contains(Flag::Negative), false);
    assert_eq!(cpu.reg_status.contains(Flag::Zero), true);
}

#[test]
fn test_ror_carrier() {
    let mut cpu = CPU::new();
    // SEC
    // LDA #$ff
    // ROR A
    // BRK
    let program = vec![0x38, 0xa9, 0xff, 0x6a, 0x00];

    assert_eq!(cpu.interpret(&program), Ok(()));

    assert_eq!(cpu.reg_a, 0xff);
    assert_eq!(cpu.reg_status.contains(Flag::Carry), true);
    assert_eq!(cpu.reg_status.contains(Flag::Negative), true);
    assert_eq!(cpu.reg_status.contains(Flag::Zero), false);
}

#[test]
fn test_ror_zeropage() {
    let mut cpu = CPU::new();
    // LDA #$ff
    // STA $f0
    // ROR $f0
    // BRK
    let program = vec![0xa9, 0xff, 0x85, 0xf0, 0x66, 0xf0, 0x00];

    assert_eq!(cpu.interpret(&program), Ok(()));

    assert_eq!(cpu.reg_a, 0xff);
    assert_eq!(cpu.read_mem(0x00f0), 0x7f);
    assert_eq!(cpu.reg_status.contains(Flag::Carry), true);
    assert_eq!(cpu.reg_status.contains(Flag::Negative), false);
    assert_eq!(cpu.reg_status.contains(Flag::Zero), false);
}

#[test]
fn test_ror_zero_zeropage() {
    let mut cpu = CPU::new();
    // LDA #$00
    // STA $f0
    // ROR $f0
    // BRK
    let program = vec![0xa9, 0x00, 0x85, 0xf0, 0x66, 0xf0, 0x00];

    assert_eq!(cpu.interpret(&program), Ok(()));

    assert_eq!(cpu.reg_a, 0x00);
    assert_eq!(cpu.read_mem(0x00f0), 0x00);
    assert_eq!(cpu.reg_status.contains(Flag::Carry), false);
    assert_eq!(cpu.reg_status.contains(Flag::Negative), false);
    assert_eq!(cpu.reg_status.contains(Flag::Zero), true);
}

#[test]
fn test_ror_carrier_zeropage() {
    let mut cpu = CPU::new();
    // SEC
    // LDA #$ff
    // STA $f0
    // ROR $f0
    // BRK
    let program = vec![0x38, 0xa9, 0xff, 0x85, 0xf0, 0x66, 0xf0, 0x00];

    assert_eq!(cpu.interpret(&program), Ok(()));

    assert_eq!(cpu.reg_a, 0xff);
    assert_eq!(cpu.read_mem(0x00f0), 0xff);
    assert_eq!(cpu.reg_status.contains(Flag::Carry), true);
    assert_eq!(cpu.reg_status.contains(Flag::Negative), true);
    assert_eq!(cpu.reg_status.contains(Flag::Zero), false);
}

#[test]
fn test_clc() {
    let mut cpu = CPU::new();
    // SEC
    // CLC
    // BRK
    let program = vec![0x38, 0x18, 0x00];

    assert_eq!(cpu.interpret(&program), Ok(()));

    assert_eq!(cpu.reg_status.contains(Flag::Carry), false);
}

#[test]
fn test_cld() {
    let mut cpu = CPU::new();
    // SED
    // CLD
    // BRK
    let program = vec![0xf8, 0xd8, 0x00];

    assert_eq!(cpu.interpret(&program), Ok(()));

    assert_eq!(cpu.reg_status.contains(Flag::Decimal), false);
}

#[test]
fn test_cli() {
    let mut cpu = CPU::new();
    // SEI
    // CLI
    // BRK
    let program = vec![0x78, 0x58, 0x00];

    assert_eq!(cpu.interpret(&program), Ok(()));

    assert_eq!(cpu.reg_status.contains(Flag::InterruptDisable), false);
}

#[test]
fn test_clv() {
    let mut cpu = CPU::new();
    // LDA #$80
    // ADC #$80
    // CLV
    // BRK
    let program = vec![0xa9, 0x80, 0x69, 0x80, 0xb8, 0x00];

    assert_eq!(cpu.interpret(&program), Ok(()));

    assert_eq!(cpu.reg_a, 0x00);
    assert_eq!(cpu.reg_status.contains(Flag::Overflow), false);
}

#[test]
fn test_bcc_carrier_set() {
    let mut cpu = CPU::new();
    // SEC
    // BCC LABEL
    // LDA #$ff
    // BRK
    // LABEL: BRK
    let program = vec![0x38, 0x90, 0x03, 0xa9, 0xff, 0x00, 0x00];

    assert_eq!(cpu.interpret(&program), Ok(()));

    assert_eq!(cpu.reg_a, 0xff);
    assert_eq!(cpu.reg_status.contains(Flag::Carry), true);
}

#[test]
fn test_bcc_carrier_clear() {
    let mut cpu = CPU::new();
    // CLC
    // BCC LABEL
    // LDA #$ff
    // BRK
    // LABEL: BRK
    let program = vec![0x18, 0x90, 0x03, 0xa9, 0xff, 0x00, 0x00];

    assert_eq!(cpu.interpret(&program), Ok(()));

    assert_eq!(cpu.reg_a, 0x00);
    assert_eq!(cpu.reg_status.contains(Flag::Carry), false);
}

#[test]
fn test_bcc_carrier_clear_backward() {
    let mut cpu = CPU::new();
    // CLC
    // BCC LABEL0
    // LDA #$ff
    // LABEL1: BRK
    // LABEL0: BCC LABEL1
    // LDA #$ff
    // BRK
    let program = vec![
        0x18, 0x90, 0x03, 0xa9, 0xff, 0x00, 0x90, 0xfd, 0xa9, 0xff, 0x00,
    ];

    assert_eq!(cpu.interpret(&program), Ok(()));

    assert_eq!(cpu.reg_a, 0x00);
    assert_eq!(cpu.reg_status.contains(Flag::Carry), false);
}

#[test]
fn test_bcs_carrier_clear() {
    let mut cpu = CPU::new();
    // CLC
    // BCS LABEL
    // LDA #$ff
    // BRK
    // LABEL: BRK
    let program = vec![0x18, 0xb0, 0x03, 0xa9, 0xff, 0x00, 0x00];

    assert_eq!(cpu.interpret(&program), Ok(()));

    assert_eq!(cpu.reg_a, 0xff);
    assert_eq!(cpu.reg_status.contains(Flag::Carry), false);
}

#[test]
fn test_bcs_carrier_set() {
    let mut cpu = CPU::new();
    // SEC
    // BCS LABEL
    // LDA #$ff
    // BRK
    // LABEL: BRK
    let program = vec![0x38, 0xb0, 0x03, 0xa9, 0xff, 0x00, 0x00];

    assert_eq!(cpu.interpret(&program), Ok(()));

    assert_eq!(cpu.reg_a, 0x00);
    assert_eq!(cpu.reg_status.contains(Flag::Carry), true);
}

#[test]
fn test_bcs_carrier_set_backward() {
    let mut cpu = CPU::new();
    // SEC
    // BCS LABEL0
    // LDA #$ff
    // LABEL1: BRK
    // LABEL0: BCS LABEL1
    // LDA #$ff
    // BRK
    let program = vec![
        0x38, 0xb0, 0x03, 0xa9, 0xff, 0x00, 0xb0, 0xfd, 0xa9, 0xff, 0x00,
    ];

    assert_eq!(cpu.interpret(&program), Ok(()));

    assert_eq!(cpu.reg_a, 0x00);
    assert_eq!(cpu.reg_status.contains(Flag::Carry), true);
}
