use mos6502::registers::{
    Accumulator, Flags, IndexRegister, IndexX, IndexY, ProgramCounter, Register, Registers,
    StackPointer,
};

fn flags_from_bits(bits: u8) -> Flags {
    Flags {
        carry: bits & 64 != 0,
        zero: bits & 32 != 0,
        interrupt_disable: bits & 16 != 0,
        decimal_mode: bits & 8 != 0,
        break_command: bits & 4 != 0,
        overflow: bits & 2 != 0,
        negative: bits & 1 != 0,
    }
}

#[test]
fn default_registers() {
    let registers = Registers::default();
    assert_eq!(registers.pc.value, 0);
    assert_eq!(registers.sp.value, 0xFF);
    assert_eq!(registers.acc.value, 0);
    assert_eq!(registers.x.value, 0);
    assert_eq!(registers.y.value, 0);
    assert_eq!(registers.flags, flags_from_bits(0));
    assert_eq!(ProgramCounter::default().value, 0);
    assert_eq!(StackPointer::default().value, 0xFF);
    assert_eq!(Accumulator::default().value, 0);
    assert_eq!(IndexX::default().value, 0);
    assert_eq!(IndexY::default().value, 0);
}

#[test]
fn raw_widens_the_register() {
    assert_eq!(ProgramCounter { value: 0xBEEF }.raw(), 0xBEEF);
    assert_eq!(StackPointer { value: 0xFD }.raw(), 0x00FD);
    assert_eq!(Accumulator { value: 0x80 }.raw(), 0x0080);
    assert_eq!(IndexX { value: 0xFF }.raw(), 0x00FF);
    assert_eq!(IndexY { value: 0x01 }.raw(), 0x0001);
}

#[test]
fn index_registers_read_and_write() {
    let mut x = IndexX::default();
    x.write(0x42);
    assert_eq!(x.read(), 0x42);
    assert_eq!(x.value, 0x42);
    let mut y = IndexY::default();
    y.write(0xFF);
    assert_eq!(y.read(), 0xFF);
    assert_eq!(y.value, 0xFF);
}

#[test]
fn flags_raw_packs_each_flag_at_its_weight() {
    let clear = Flags::default();
    assert_eq!(clear.raw(), 0);
    assert_eq!(Flags { carry: true, ..clear }.raw(), 64);
    assert_eq!(Flags { zero: true, ..clear }.raw(), 32);
    assert_eq!(Flags { interrupt_disable: true, ..clear }.raw(), 16);
    assert_eq!(Flags { decimal_mode: true, ..clear }.raw(), 8);
    assert_eq!(Flags { break_command: true, ..clear }.raw(), 4);
    assert_eq!(Flags { overflow: true, ..clear }.raw(), 2);
    assert_eq!(Flags { negative: true, ..clear }.raw(), 1);
    assert_eq!(flags_from_bits(0x7F).raw(), 0x7F);
    assert_eq!(Flags { carry: true, negative: true, ..clear }.raw(), 65);
}

#[test]
fn flags_write_unpacks_each_bit() {
    let mut flags = Flags::default();
    flags.write(0b0101_0101);
    assert_eq!(
        flags,
        Flags {
            carry: true,
            zero: false,
            interrupt_disable: true,
            decimal_mode: false,
            break_command: true,
            overflow: false,
            negative: true,
        }
    );
    flags.write(0);
    assert_eq!(flags, Flags::default());
}

#[test]
fn flags_write_ignores_the_top_bit() {
    let mut flags = Flags::default();
    flags.write(0x80);
    assert_eq!(flags, Flags::default());
    flags.write(0xFF);
    assert_eq!(flags, flags_from_bits(0x7F));
}

#[test]
fn flags_write_inverts_raw() {
    for bits in 0..128u8 {
        let flags = flags_from_bits(bits);
        assert_eq!(flags.raw(), bits as u16);
        let mut unpacked = Flags::default();
        unpacked.write(flags.raw() as u8);
        assert_eq!(unpacked, flags);
    }
}

#[test]
fn advance_moves_the_program_counter() {
    let mut registers = Registers::default();
    registers.pc.value = 0x0200;
    registers.advance(3);
    assert_eq!(registers.pc.value, 0x0203);
    let untouched = Registers { pc: ProgramCounter { value: 0 }, ..registers };
    assert_eq!(untouched, Registers::default());
}

#[test]
fn advance_wraps_at_the_end_of_the_address_space() {
    let mut registers = Registers::default();
    registers.pc.value = 0xFFFF;
    registers.advance(2);
    assert_eq!(registers.pc.value, 0x0001);
}
