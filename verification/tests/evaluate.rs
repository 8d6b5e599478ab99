use mos6502::instructions::addressing::AddressingMode;
use mos6502::instructions::interp::{decode, interp};
use mos6502::instructions::{
    Instruction, ADC, AND, ASL, BIT, BRK, CLC, CLD, CLI, CLV, CMP, CPX, CPY, DEC, DEX, DEY, EOR,
    INC, INX, INY, LDA, LDX, LDY, LSR, NOP, ORA, ROL, ROR, SBC, SEC, SED, SEI, STA, STX, STY, TAX,
    TAY, TSX, TXA, TXS, TYA,
};
use mos6502::memory::Memory;
use mos6502::registers::{Flags, ProgramCounter, Registers};

fn machine() -> (Memory, Registers) {
    (Memory::new(), Registers::default())
}

fn at(pc: u16, registers: Registers) -> Registers {
    Registers { pc: ProgramCounter { value: pc }, ..registers }
}

#[test]
fn adc_immediate_5_from_zero() {
    let (mut memory, mut registers) = machine();
    registers.pc.value = 0x0600;
    registers.acc.value = 0;
    registers.flags.carry = false;
    let instruction = decode(0x69, 0x05, 0x00).unwrap();
    assert_eq!(instruction, Instruction::ADC(ADC(AddressingMode::Immediate(5))));
    instruction.evaluate(&mut memory, &mut registers);
    assert_eq!(registers.acc.value, 5);
    assert_eq!(registers.pc.value, 0x0602);
    assert!(!registers.flags.carry);
    assert!(!registers.flags.zero);
    assert!(!registers.flags.overflow);
    assert!(!registers.flags.negative);
}

#[test]
fn adc_decoded_from_memory() {
    let (mut memory, mut registers) = machine();
    memory.absolute_write(0x0000, 0x69);
    memory.absolute_write(0x0001, 0x05);
    let instruction = interp(&memory, registers.pc.value).unwrap();
    instruction.evaluate(&mut memory, &mut registers);
    assert_eq!(registers.acc.value, 5);
    assert_eq!(registers.pc.value, 2);
}

#[test]
fn adc_adds_the_carry() {
    let (mut memory, mut registers) = machine();
    registers.acc.value = 0x10;
    registers.flags.carry = true;
    ADC(AddressingMode::Immediate(0x20)).evaluate(&mut memory, &mut registers);
    assert_eq!(registers.acc.value, 0x31);
    assert!(!registers.flags.carry);
}

#[test]
fn adc_sets_carry_on_unsigned_overflow() {
    let (mut memory, mut registers) = machine();
    registers.acc.value = 0xFF;
    ADC(AddressingMode::Immediate(0x01)).evaluate(&mut memory, &mut registers);
    assert_eq!(registers.acc.value, 0x00);
    assert!(registers.flags.carry);
    assert!(registers.flags.zero);
    assert!(!registers.flags.overflow);
    assert!(!registers.flags.negative);

    let (mut memory, mut registers) = machine();
    registers.acc.value = 0xFF;
    registers.flags.carry = true;
    ADC(AddressingMode::Immediate(0xFF)).evaluate(&mut memory, &mut registers);
    assert_eq!(registers.acc.value, 0xFF);
    assert!(registers.flags.carry);
    assert!(!registers.flags.zero);
    assert!(!registers.flags.overflow);
    assert!(registers.flags.negative);
}

#[test]
fn adc_sets_overflow_on_signed_overflow() {
    // 0x50 + 0x50 = 0xA0: two positives give a negative
    let (mut memory, mut registers) = machine();
    registers.acc.value = 0x50;
    ADC(AddressingMode::Immediate(0x50)).evaluate(&mut memory, &mut registers);
    assert_eq!(registers.acc.value, 0xA0);
    assert!(registers.flags.overflow);
    assert!(registers.flags.negative);
    assert!(!registers.flags.carry);

    // 0xD0 + 0x90 = 0x160: two negatives give a positive
    let (mut memory, mut registers) = machine();
    registers.acc.value = 0xD0;
    ADC(AddressingMode::Immediate(0x90)).evaluate(&mut memory, &mut registers);
    assert_eq!(registers.acc.value, 0x60);
    assert!(registers.flags.overflow);
    assert!(registers.flags.carry);
    assert!(!registers.flags.negative);

    // 0x7F + 0x00 + carry = 0x80
    let (mut memory, mut registers) = machine();
    registers.acc.value = 0x7F;
    registers.flags.carry = true;
    ADC(AddressingMode::Immediate(0x00)).evaluate(&mut memory, &mut registers);
    assert_eq!(registers.acc.value, 0x80);
    assert!(registers.flags.overflow);

    // 0x50 + 0x10 = 0x60: no overflow
    let (mut memory, mut registers) = machine();
    registers.acc.value = 0x50;
    registers.flags.overflow = true;
    ADC(AddressingMode::Immediate(0x10)).evaluate(&mut memory, &mut registers);
    assert_eq!(registers.acc.value, 0x60);
    assert!(!registers.flags.overflow);
}

#[test]
fn adc_agrees_with_wide_arithmetic_on_every_input() {
    for a in 0..=255u8 {
        for m in [0u8, 1, 0x7F, 0x80, 0xFF, a] {
            for carry in [false, true] {
                let (mut memory, mut registers) = machine();
                registers.acc.value = a;
                registers.flags.carry = carry;
                ADC(AddressingMode::Immediate(m)).evaluate(&mut memory, &mut registers);
                let sum = a as u16 + m as u16 + carry as u16;
                let signed = a as i8 as i16 + m as i8 as i16 + carry as i16;
                assert_eq!(registers.acc.value, (sum & 0xFF) as u8);
                assert_eq!(registers.flags.carry, sum > 0xFF);
                assert_eq!(registers.flags.zero, sum & 0xFF == 0);
                assert_eq!(registers.flags.negative, sum & 0x80 != 0);
                assert_eq!(registers.flags.overflow, !(-128..=127).contains(&signed));
            }
        }
    }
}

#[test]
fn adc_reads_through_every_mode() {
    let (mut memory, mut registers) = machine();
    registers.x.value = 1;
    registers.y.value = 2;
    memory.absolute_write(0x0010, 1);
    memory.absolute_write(0x0011, 2);
    memory.absolute_write(0x1234, 3);
    memory.absolute_write(0x1235, 4);
    memory.absolute_write(0x1236, 5);
    memory.absolute_write(0x0021, 0x00);
    memory.absolute_write(0x0022, 0x40);
    memory.absolute_write(0x4000, 6);
    memory.absolute_write(0x0030, 0x00);
    memory.absolute_write(0x0031, 0x50);
    memory.absolute_write(0x5002, 7);
    let program = [
        (AddressingMode::Immediate(8), 8u8, 2u16),
        (AddressingMode::ZeroPage(0x10), 1, 2),
        (AddressingMode::ZeroPageX(0x10), 2, 2),
        (AddressingMode::Absolute(0x1234), 3, 3),
        (AddressingMode::AbsoluteX(0x1234), 4, 3),
        (AddressingMode::AbsoluteY(0x1234), 5, 3),
        (AddressingMode::IndexedIndirect(0x20), 6, 2),
        (AddressingMode::IndirectIndexed(0x30), 7, 2),
    ];
    for (mode, operand, length) in program {
        registers.acc.value = 0x20;
        registers.pc.value = 0x0800;
        registers.flags = Flags::default();
        ADC(mode).evaluate(&mut memory, &mut registers);
        assert_eq!(registers.acc.value, 0x20 + operand, "{:?}", mode);
        assert_eq!(registers.pc.value, 0x0800 + length, "{:?}", mode);
    }
}

#[test]
fn sbc_subtracts_the_operand() {
    let (mut memory, mut registers) = machine();
    registers.acc.value = 0x50;
    registers.pc.value = 0x0100;
    SBC(AddressingMode::Immediate(0x20)).evaluate(&mut memory, &mut registers);
    assert_eq!(registers.acc.value, 0x30);
    assert_eq!(registers.pc.value, 0x0102);
    assert!(registers.flags.carry);
    assert!(!registers.flags.zero);
    assert!(!registers.flags.negative);
    assert!(!registers.flags.overflow);
}

#[test]
fn sbc_ignores_the_incoming_carry() {
    for carry in [false, true] {
        let (mut memory, mut registers) = machine();
        registers.acc.value = 9;
        registers.flags.carry = carry;
        SBC(AddressingMode::Immediate(4)).evaluate(&mut memory, &mut registers);
        assert_eq!(registers.acc.value, 5);
    }
}

#[test]
fn sbc_borrows_below_zero() {
    let (mut memory, mut registers) = machine();
    registers.acc.value = 0x05;
    SBC(AddressingMode::Immediate(0x0A)).evaluate(&mut memory, &mut registers);
    assert_eq!(registers.acc.value, 0xFB);
    assert!(!registers.flags.carry);
    assert!(registers.flags.negative);
    assert!(!registers.flags.zero);
    assert!(!registers.flags.overflow);

    let (mut memory, mut registers) = machine();
    registers.acc.value = 0x42;
    SBC(AddressingMode::Immediate(0x42)).evaluate(&mut memory, &mut registers);
    assert_eq!(registers.acc.value, 0);
    assert!(registers.flags.carry);
    assert!(registers.flags.zero);
}

#[test]
fn sbc_sets_overflow_on_signed_overflow() {
    // -128 - 1 leaves the signed range
    let (mut memory, mut registers) = machine();
    registers.acc.value = 0x80;
    SBC(AddressingMode::Immediate(0x01)).evaluate(&mut memory, &mut registers);
    assert_eq!(registers.acc.value, 0x7F);
    assert!(registers.flags.overflow);
    assert!(registers.flags.carry);
    // 127 - (-1) leaves the signed range
    let (mut memory, mut registers) = machine();
    registers.acc.value = 0x7F;
    SBC(AddressingMode::Immediate(0xFF)).evaluate(&mut memory, &mut registers);
    assert_eq!(registers.acc.value, 0x80);
    assert!(registers.flags.overflow);
    assert!(!registers.flags.carry);
}

#[test]
fn sbc_agrees_with_wide_arithmetic_on_every_input() {
    for a in 0..=255u8 {
        for m in [0u8, 1, 0x7F, 0x80, 0xFF, a] {
            let (mut memory, mut registers) = machine();
            registers.acc.value = a;
            SBC(AddressingMode::Immediate(m)).evaluate(&mut memory, &mut registers);
            let signed = a as i8 as i16 - m as i8 as i16;
            assert_eq!(registers.acc.value, a.wrapping_sub(m));
            assert_eq!(registers.flags.carry, a >= m);
            assert_eq!(registers.flags.zero, a == m);
            assert_eq!(registers.flags.negative, a.wrapping_sub(m) >= 0x80);
            assert_eq!(registers.flags.overflow, !(-128..=127).contains(&signed));
        }
    }
}

#[test]
fn and_masks_the_accumulator() {
    let (mut memory, mut registers) = machine();
    registers.acc.value = 0b1100_1010;
    memory.absolute_write(0x0040, 0b1010_1100);
    let before = registers.flags;
    AND(AddressingMode::ZeroPage(0x40)).evaluate(&mut memory, &mut registers);
    assert_eq!(registers.acc.value, 0b1000_1000);
    assert_eq!(memory.absolute(0x0040), 0b1010_1100);
    assert_eq!(registers.pc.value, 2);
    assert_eq!(registers.flags, before);
}

#[test]
fn ora_stores_through_the_addressing_mode() {
    let (mut memory, mut registers) = machine();
    registers.acc.value = 0b0000_1111;
    memory.absolute_write(0x2000, 0b1010_0000);
    ORA(AddressingMode::Absolute(0x2000)).evaluate(&mut memory, &mut registers);
    assert_eq!(memory.absolute(0x2000), 0b1010_1111);
    assert_eq!(registers.acc.value, 0b0000_1111);
    assert_eq!(registers.pc.value, 3);
    assert_eq!(registers.flags, Flags::default());
}

#[test]
fn eor_stores_through_the_addressing_mode() {
    let (mut memory, mut registers) = machine();
    registers.acc.value = 0b1111_0000;
    registers.x.value = 4;
    memory.absolute_write(0x0014, 0b1010_1010);
    EOR(AddressingMode::ZeroPageX(0x10)).evaluate(&mut memory, &mut registers);
    assert_eq!(memory.absolute(0x0014), 0b0101_1010);
    assert_eq!(registers.acc.value, 0b1111_0000);
    assert_eq!(registers.pc.value, 2);
    assert_eq!(registers.flags, Flags::default());
}

#[test]
fn bit_tests_without_changing_the_accumulator() {
    let (mut memory, mut registers) = machine();
    registers.acc.value = 0b0000_1111;
    memory.absolute_write(0x0050, 0b1100_0000);
    BIT(AddressingMode::ZeroPage(0x50)).evaluate(&mut memory, &mut registers);
    assert!(registers.flags.zero);
    assert!(registers.flags.negative);
    assert!(registers.flags.overflow);
    assert_eq!(registers.acc.value, 0b0000_1111);
    assert_eq!(registers.pc.value, 2);

    memory.absolute_write(0x3000, 0b0100_0001);
    BIT(AddressingMode::Absolute(0x3000)).evaluate(&mut memory, &mut registers);
    assert!(!registers.flags.zero);
    assert!(!registers.flags.negative);
    assert!(registers.flags.overflow);
    assert_eq!(registers.pc.value, 5);

    memory.absolute_write(0x3000, 0b1000_0001);
    BIT(AddressingMode::Absolute(0x3000)).evaluate(&mut memory, &mut registers);
    assert!(!registers.flags.zero);
    assert!(registers.flags.negative);
    assert!(!registers.flags.overflow);
    assert!(!registers.flags.carry);
}

#[test]
fn asl_shifts_left() {
    let (mut memory, mut registers) = machine();
    registers.acc.value = 0b1000_0101;
    ASL(AddressingMode::Accumulator).evaluate(&mut memory, &mut registers);
    assert_eq!(registers.acc.value, 0b0000_1010);
    assert_eq!(registers.pc.value, 1);
    assert_eq!(registers.flags, Flags::default());

    memory.absolute_write(0x0020, 0x41);
    ASL(AddressingMode::ZeroPage(0x20)).evaluate(&mut memory, &mut registers);
    assert_eq!(memory.absolute(0x0020), 0x82);
    assert_eq!(registers.acc.value, 0b0000_1010);
    assert_eq!(registers.pc.value, 3);
}

#[test]
fn lsr_shifts_right() {
    let (mut memory, mut registers) = machine();
    registers.acc.value = 0b1000_0101;
    LSR(AddressingMode::Accumulator).evaluate(&mut memory, &mut registers);
    assert_eq!(registers.acc.value, 0b0100_0010);
    assert_eq!(registers.pc.value, 1);
    assert_eq!(registers.flags, Flags::default());

    registers.x.value = 1;
    memory.absolute_write(0x4001, 0xFF);
    LSR(AddressingMode::AbsoluteX(0x4000)).evaluate(&mut memory, &mut registers);
    assert_eq!(memory.absolute(0x4001), 0x7F);
    assert_eq!(registers.pc.value, 4);
}

#[test]
fn rol_rotates_left_without_the_carry() {
    for carry in [false, true] {
        let (mut memory, mut registers) = machine();
        registers.acc.value = 0b1000_0101;
        registers.flags.carry = carry;
        ROL(AddressingMode::Accumulator).evaluate(&mut memory, &mut registers);
        assert_eq!(registers.acc.value, 0b0000_1011);
        assert_eq!(registers.flags.carry, carry);
        assert_eq!(registers.pc.value, 1);
    }
    let (mut memory, mut registers) = machine();
    memory.absolute_write(0x0030, 0x40);
    ROL(AddressingMode::ZeroPage(0x30)).evaluate(&mut memory, &mut registers);
    assert_eq!(memory.absolute(0x0030), 0x80);
}

#[test]
fn ror_rotates_right_without_the_carry() {
    for carry in [false, true] {
        let (mut memory, mut registers) = machine();
        registers.acc.value = 0b1000_0101;
        registers.flags.carry = carry;
        ROR(AddressingMode::Accumulator).evaluate(&mut memory, &mut registers);
        assert_eq!(registers.acc.value, 0b1100_0010);
        assert_eq!(registers.flags.carry, carry);
        assert_eq!(registers.pc.value, 1);
    }
    let (mut memory, mut registers) = machine();
    memory.absolute_write(0x5000, 0x01);
    ROR(AddressingMode::Absolute(0x5000)).evaluate(&mut memory, &mut registers);
    assert_eq!(memory.absolute(0x5000), 0x80);
    assert_eq!(registers.pc.value, 3);
}

#[test]
fn cmp_equal_operands() {
    let (mut memory, mut registers) = machine();
    registers.acc.value = 10;
    CMP(AddressingMode::Immediate(10)).evaluate(&mut memory, &mut registers);
    assert!(registers.flags.zero);
    assert!(registers.flags.carry);
    assert!(!registers.flags.negative);
    assert_eq!(registers.acc.value, 10);
    assert_eq!(registers.pc.value, 2);
}

#[test]
fn cmp_smaller_accumulator() {
    let (mut memory, mut registers) = machine();
    registers.acc.value = 5;
    CMP(AddressingMode::Immediate(10)).evaluate(&mut memory, &mut registers);
    assert!(registers.flags.negative);
    assert!(!registers.flags.carry);
    assert!(!registers.flags.zero);
    assert_eq!(registers.acc.value, 5);
}

#[test]
fn cmp_larger_accumulator() {
    let (mut memory, mut registers) = machine();
    registers.acc.value = 0xF0;
    registers.flags.negative = true;
    registers.flags.zero = true;
    memory.absolute_write(0x0200, 0x10);
    CMP(AddressingMode::Absolute(0x0200)).evaluate(&mut memory, &mut registers);
    assert!(registers.flags.carry);
    assert!(!registers.flags.zero);
    assert!(!registers.flags.negative);
    assert_eq!(registers.pc.value, 3);
}

#[test]
fn cpx_and_cpy_compare_their_register() {
    let (mut memory, mut registers) = machine();
    registers.x.value = 3;
    registers.y.value = 7;
    registers.acc.value = 0xFF;
    CPX(AddressingMode::Immediate(3)).evaluate(&mut memory, &mut registers);
    assert!(registers.flags.zero && registers.flags.carry && !registers.flags.negative);
    CPX(AddressingMode::Immediate(4)).evaluate(&mut memory, &mut registers);
    assert!(!registers.flags.zero && !registers.flags.carry && registers.flags.negative);
    CPY(AddressingMode::Immediate(7)).evaluate(&mut memory, &mut registers);
    assert!(registers.flags.zero && registers.flags.carry && !registers.flags.negative);
    memory.absolute_write(0x0009, 6);
    CPY(AddressingMode::ZeroPage(0x09)).evaluate(&mut memory, &mut registers);
    assert!(!registers.flags.zero && registers.flags.carry && !registers.flags.negative);
    assert_eq!(registers.pc.value, 8);
    assert_eq!((registers.x.value, registers.y.value, registers.acc.value), (3, 7, 0xFF));
}

#[test]
fn inc_and_dec_modify_memory_in_place() {
    let (mut memory, mut registers) = machine();
    memory.absolute_write(0x0010, 0x41);
    INC(AddressingMode::ZeroPage(0x10)).evaluate(&mut memory, &mut registers);
    assert_eq!(memory.absolute(0x0010), 0x42);
    assert_eq!(registers.pc.value, 2);
    INC(AddressingMode::Absolute(0x0010)).evaluate(&mut memory, &mut registers);
    assert_eq!(memory.absolute(0x0010), 0x43);
    assert_eq!(registers.pc.value, 5);
    DEC(AddressingMode::ZeroPage(0x10)).evaluate(&mut memory, &mut registers);
    assert_eq!(memory.absolute(0x0010), 0x42);
    assert_eq!(registers.pc.value, 7);
    registers.x.value = 0x10;
    DEC(AddressingMode::AbsoluteX(0x0000)).evaluate(&mut memory, &mut registers);
    assert_eq!(memory.absolute(0x0010), 0x41);
    assert_eq!(registers.pc.value, 10);
    assert_eq!(registers.flags, Flags::default());
}

#[test]
fn inc_and_dec_wrap_around() {
    let (mut memory, mut registers) = machine();
    memory.absolute_write(0x0010, 0xFF);
    INC(AddressingMode::ZeroPage(0x10)).evaluate(&mut memory, &mut registers);
    assert_eq!(memory.absolute(0x0010), 0x00);
    DEC(AddressingMode::ZeroPage(0x10)).evaluate(&mut memory, &mut registers);
    assert_eq!(memory.absolute(0x0010), 0xFF);
}

#[test]
fn index_increments_and_decrements() {
    let (mut memory, mut registers) = machine();
    INX.evaluate(&mut memory, &mut registers);
    assert_eq!(registers.x.value, 1);
    INY.evaluate(&mut memory, &mut registers);
    INY.evaluate(&mut memory, &mut registers);
    assert_eq!(registers.y.value, 2);
    DEX.evaluate(&mut memory, &mut registers);
    DEX.evaluate(&mut memory, &mut registers);
    assert_eq!(registers.x.value, 0xFF);
    INX.evaluate(&mut memory, &mut registers);
    assert_eq!(registers.x.value, 0x00);
    DEY.evaluate(&mut memory, &mut registers);
    DEY.evaluate(&mut memory, &mut registers);
    DEY.evaluate(&mut memory, &mut registers);
    assert_eq!(registers.y.value, 0xFF);
    INY.evaluate(&mut memory, &mut registers);
    assert_eq!(registers.y.value, 0x00);
    assert_eq!(registers.pc.value, 10);
    assert_eq!(registers.flags, Flags::default());
    assert_eq!(registers.acc.value, 0);
}

#[test]
fn loads_fill_their_register() {
    let (mut memory, mut registers) = machine();
    registers.flags.carry = true;
    let before = registers.flags;
    memory.absolute_write(0x0080, 0x11);
    memory.absolute_write(0x0081, 0x22);
    LDA(AddressingMode::Immediate(0x80)).evaluate(&mut memory, &mut registers);
    assert_eq!(registers.acc.value, 0x80);
    LDX(AddressingMode::ZeroPage(0x80)).evaluate(&mut memory, &mut registers);
    assert_eq!(registers.x.value, 0x11);
    registers.x.value = 1;
    LDY(AddressingMode::ZeroPageX(0x80)).evaluate(&mut memory, &mut registers);
    assert_eq!(registers.y.value, 0x22);
    registers.y.value = 1;
    LDX(AddressingMode::ZeroPageY(0x80)).evaluate(&mut memory, &mut registers);
    assert_eq!(registers.x.value, 0x22);
    LDA(AddressingMode::Immediate(0x00)).evaluate(&mut memory, &mut registers);
    assert_eq!(registers.acc.value, 0x00);
    assert_eq!(registers.pc.value, 10);
    assert_eq!(registers.flags, before);
}

#[test]
fn stores_write_their_register() {
    let (mut memory, mut registers) = machine();
    registers.acc.value = 0xA1;
    registers.x.value = 0x02;
    registers.y.value = 0x03;
    STA(AddressingMode::Absolute(0x0200)).evaluate(&mut memory, &mut registers);
    assert_eq!(memory.absolute(0x0200), 0xA1);
    STX(AddressingMode::ZeroPage(0x10)).evaluate(&mut memory, &mut registers);
    assert_eq!(memory.absolute(0x0010), 0x02);
    STY(AddressingMode::ZeroPageX(0x10)).evaluate(&mut memory, &mut registers);
    assert_eq!(memory.absolute(0x0012), 0x03);
    STX(AddressingMode::ZeroPageY(0x10)).evaluate(&mut memory, &mut registers);
    assert_eq!(memory.absolute(0x0013), 0x02);
    STA(AddressingMode::AbsoluteY(0x0300)).evaluate(&mut memory, &mut registers);
    assert_eq!(memory.absolute(0x0303), 0xA1);
    memory.absolute_write(0x0040, 0x00);
    memory.absolute_write(0x0041, 0x60);
    STA(AddressingMode::IndirectIndexed(0x40)).evaluate(&mut memory, &mut registers);
    assert_eq!(memory.absolute(0x6003), 0xA1);
    STA(AddressingMode::IndexedIndirect(0x3E)).evaluate(&mut memory, &mut registers);
    assert_eq!(memory.absolute(0x6000), 0xA1);
    assert_eq!(registers.pc.value, 3 + 2 + 2 + 2 + 3 + 2 + 2);
    assert_eq!((registers.acc.value, registers.x.value, registers.y.value), (0xA1, 2, 3));
    assert_eq!(registers.flags, Flags::default());
}

#[test]
fn transfers_copy_between_registers() {
    let (mut memory, mut registers) = machine();
    registers.acc.value = 0x80;
    TAX.evaluate(&mut memory, &mut registers);
    assert_eq!(registers.x.value, 0x80);
    TAY.evaluate(&mut memory, &mut registers);
    assert_eq!(registers.y.value, 0x80);
    registers.x.value = 0x01;
    TXA.evaluate(&mut memory, &mut registers);
    assert_eq!(registers.acc.value, 0x01);
    registers.y.value = 0x02;
    TYA.evaluate(&mut memory, &mut registers);
    assert_eq!(registers.acc.value, 0x02);
    registers.x.value = 0x55;
    TXS.evaluate(&mut memory, &mut registers);
    assert_eq!(registers.sp.value, 0x55);
    assert_eq!(registers.x.value, 0x55);
    registers.sp.value = 0xAA;
    TSX.evaluate(&mut memory, &mut registers);
    assert_eq!(registers.x.value, 0xAA);
    assert_eq!(registers.sp.value, 0xAA);
    assert_eq!(registers.pc.value, 6);
    assert_eq!(registers.flags, Flags::default());
    assert!(memory.inner.iter().all(|byte| *byte == 0));
}

#[test]
fn flag_instructions_set_one_flag() {
    let clear = Flags::default();
    let (mut memory, mut registers) = machine();
    SEC.evaluate(&mut memory, &mut registers);
    assert_eq!(registers.flags, Flags { carry: true, ..clear });
    SEI.evaluate(&mut memory, &mut registers);
    assert_eq!(registers.flags, Flags { carry: true, interrupt_disable: true, ..clear });
    SED.evaluate(&mut memory, &mut registers);
    assert_eq!(
        registers.flags,
        Flags { carry: true, interrupt_disable: true, decimal_mode: true, ..clear }
    );
    CLC.evaluate(&mut memory, &mut registers);
    assert_eq!(registers.flags, Flags { interrupt_disable: true, decimal_mode: true, ..clear });
    CLI.evaluate(&mut memory, &mut registers);
    assert_eq!(registers.flags, Flags { decimal_mode: true, ..clear });
    CLD.evaluate(&mut memory, &mut registers);
    assert_eq!(registers.flags, clear);
    registers.flags.overflow = true;
    registers.flags.negative = true;
    CLV.evaluate(&mut memory, &mut registers);
    assert_eq!(registers.flags, Flags { negative: true, ..clear });
    assert_eq!(registers.pc.value, 7);
}

#[test]
fn nop_and_brk_only_move_the_program_counter() {
    let (mut memory, mut registers) = machine();
    registers.pc.value = 0x1000;
    let before = registers;
    NOP.evaluate(&mut memory, &mut registers);
    assert_eq!(registers, at(0x1001, before));
    BRK.evaluate(&mut memory, &mut registers);
    assert_eq!(registers, at(0x1002, before));
    assert!(memory.inner.iter().all(|byte| *byte == 0));
}

#[test]
fn program_counter_wraps_after_the_last_address() {
    let (mut memory, mut registers) = machine();
    registers.pc.value = 0xFFFF;
    NOP.evaluate(&mut memory, &mut registers);
    assert_eq!(registers.pc.value, 0x0000);
    registers.pc.value = 0xFFFE;
    LDA(AddressingMode::Absolute(0x0000)).evaluate(&mut memory, &mut registers);
    assert_eq!(registers.pc.value, 0x0001);
}

#[test]
fn a_short_program_runs_from_memory() {
    // LDA #$0; ADC #$5; ASL A; TAX; STX $0100; LDX #$1; LDY $00FF,X; INY
    let program: [u8; 15] = [
        0xA9, 0x00, 0x69, 0x05, 0x0A, 0xAA, 0x8E, 0x00, 0x01, 0xA2, 0x01, 0xBC, 0xFF, 0x00, 0xC8,
    ];
    let (mut memory, mut registers) = machine();
    for (i, byte) in program.iter().enumerate() {
        memory.absolute_write(0x0600 + i as u16, *byte);
    }
    registers.pc.value = 0x0600;
    for _ in 0..8 {
        let instruction = interp(&memory, registers.pc.value).unwrap();
        assert!(instruction.is_evaluable());
        instruction.evaluate(&mut memory, &mut registers);
    }
    assert_eq!(registers.pc.value, 0x060F);
    assert_eq!(registers.acc.value, 10);
    assert_eq!(registers.x.value, 1);
    assert_eq!(registers.y.value, 11);
    assert_eq!(memory.absolute(0x0100), 10);
    assert_eq!(registers.sp.value, 0xFF);
}
