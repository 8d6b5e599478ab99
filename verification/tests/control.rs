use mos6502::instructions::addressing::AddressingMode;
use mos6502::instructions::interp::{decode, interp};
use mos6502::instructions::{
    Instruction, BCC, BCS, BEQ, BMI, BNE, BPL, BVC, BVS, JMP, JSR, PHA, PHP, PLA, PLP, RTI, RTS,
};
use mos6502::memory::Memory;
use mos6502::registers::{Flags, ProgramCounter, Registers, StackPointer};
use mos6502::state::{pull, push};

fn machine() -> (Memory, Registers) {
    (Memory::new(), Registers::default())
}

#[test]
fn push_stores_at_the_stack_pointer_then_decrements() {
    let (mut memory, mut registers) = machine();
    push(&mut memory, &mut registers, 0xAB);
    assert_eq!(memory.absolute(0x01FF), 0xAB);
    assert_eq!(registers.sp.value, 0xFE);
    push(&mut memory, &mut registers, 0xCD);
    assert_eq!(memory.absolute(0x01FE), 0xCD);
    assert_eq!(registers.sp.value, 0xFD);
    assert_eq!(Registers { sp: StackPointer { value: 0xFF }, ..registers }, Registers::default());
}

#[test]
fn pull_increments_then_reads() {
    let (mut memory, mut registers) = machine();
    registers.sp.value = 0x7F;
    memory.absolute_write(0x0180, 0x11);
    memory.absolute_write(0x0181, 0x22);
    assert_eq!(pull(&memory, &mut registers), 0x11);
    assert_eq!(registers.sp.value, 0x80);
    assert_eq!(pull(&memory, &mut registers), 0x22);
    assert_eq!(registers.sp.value, 0x81);
}

#[test]
fn pull_returns_what_push_stored() {
    for sp in [0x00u8, 0x01, 0x80, 0xFE, 0xFF] {
        let (mut memory, mut registers) = machine();
        registers.sp.value = sp;
        push(&mut memory, &mut registers, 0x5A);
        push(&mut memory, &mut registers, 0xA5);
        assert_eq!(pull(&memory, &mut registers), 0xA5);
        assert_eq!(pull(&memory, &mut registers), 0x5A);
        assert_eq!(registers.sp.value, sp);
    }
}

#[test]
fn stack_pointer_wraps_within_the_stack_page() {
    let (mut memory, mut registers) = machine();
    registers.sp.value = 0x00;
    push(&mut memory, &mut registers, 0x77);
    assert_eq!(memory.absolute(0x0100), 0x77);
    assert_eq!(registers.sp.value, 0xFF);
    assert_eq!(pull(&memory, &mut registers), 0x77);
    assert_eq!(registers.sp.value, 0x00);
    assert_eq!(memory.absolute(0x0200), 0);
    assert_eq!(memory.absolute(0x00FF), 0);
}

#[test]
fn pha_and_pla_move_the_accumulator() {
    let (mut memory, mut registers) = machine();
    registers.acc.value = 0x42;
    PHA.evaluate(&mut memory, &mut registers);
    assert_eq!(memory.absolute(0x01FF), 0x42);
    assert_eq!(registers.sp.value, 0xFE);
    assert_eq!(registers.pc.value, 1);
    registers.acc.value = 0;
    PLA.evaluate(&mut memory, &mut registers);
    assert_eq!(registers.acc.value, 0x42);
    assert_eq!(registers.sp.value, 0xFF);
    assert_eq!(registers.pc.value, 2);
    assert_eq!(registers.flags, Flags::default());
}

#[test]
fn php_and_plp_move_the_flags() {
    let (mut memory, mut registers) = machine();
    let flags = Flags {
        carry: true,
        zero: false,
        interrupt_disable: true,
        decimal_mode: false,
        break_command: false,
        overflow: true,
        negative: true,
    };
    registers.flags = flags;
    PHP.evaluate(&mut memory, &mut registers);
    assert_eq!(memory.absolute(0x01FF), 64 + 16 + 2 + 1);
    assert_eq!(registers.sp.value, 0xFE);
    assert_eq!(registers.flags, flags);
    registers.flags = Flags::default();
    PLP.evaluate(&mut memory, &mut registers);
    assert_eq!(registers.flags, flags);
    assert_eq!(registers.sp.value, 0xFF);
    assert_eq!(registers.pc.value, 2);
}

#[test]
fn plp_restores_every_set_of_flags() {
    for bits in 0..128u8 {
        let (mut memory, mut registers) = machine();
        registers.flags.write(bits);
        let flags = registers.flags;
        PHP.evaluate(&mut memory, &mut registers);
        assert_eq!(memory.absolute(0x01FF), bits);
        registers.flags.write(!bits);
        PLP.evaluate(&mut memory, &mut registers);
        assert_eq!(registers.flags, flags);
    }
}

#[test]
fn jmp_absolute_sets_the_program_counter_from_any_start() {
    let instruction = decode(0x4C, 0x34, 0x12).unwrap();
    assert_eq!(instruction, Instruction::JMP(JMP(AddressingMode::Absolute(0x1234))));
    for start in [0x0000u16, 0x0001, 0x0200, 0x1234, 0x8000, 0xFFFD, 0xFFFF] {
        let (mut memory, mut registers) = machine();
        registers.pc.value = start;
        let before = registers;
        instruction.evaluate(&mut memory, &mut registers);
        assert_eq!(registers.pc.value, 0x1234);
        assert_eq!(registers, Registers { pc: ProgramCounter { value: 0x1234 }, ..before });
    }
}

#[test]
fn jmp_indirect_follows_the_pointer() {
    let (mut memory, mut registers) = machine();
    memory.absolute_write(0x0120, 0xFC);
    memory.absolute_write(0x0121, 0xBA);
    registers.pc.value = 0x0600;
    JMP(AddressingMode::Indirect(0x0120)).evaluate(&mut memory, &mut registers);
    assert_eq!(registers.pc.value, 0xBAFC);
}

#[test]
fn jsr_then_rts_returns_after_the_call() {
    let (mut memory, mut registers) = machine();
    registers.pc.value = 0x0200;
    JSR(0x8000).evaluate(&mut memory, &mut registers);
    assert_eq!(registers.pc.value, 0x8000);
    assert_eq!(registers.sp.value, 0xFD);
    RTS.evaluate(&mut memory, &mut registers);
    assert_eq!(registers.pc.value, 0x0203);
    assert_eq!(registers.sp.value, 0xFF);
}

#[test]
fn jsr_pushes_the_address_of_its_last_byte() {
    let (mut memory, mut registers) = machine();
    registers.pc.value = 0x12FE;
    JSR(0x4000).evaluate(&mut memory, &mut registers);
    // 0x12FE + 2 = 0x1300: high byte at 0x01FF, low byte at 0x01FE
    assert_eq!(memory.absolute(0x01FF), 0x13);
    assert_eq!(memory.absolute(0x01FE), 0x00);
    assert_eq!(registers.sp.value, 0xFD);
    assert_eq!(registers.pc.value, 0x4000);
    RTS.evaluate(&mut memory, &mut registers);
    assert_eq!(registers.pc.value, 0x1301);
}

#[test]
fn jsr_then_rts_from_every_kind_of_start() {
    for (start, sp) in [
        (0x0000u16, 0xFFu8),
        (0x00FF, 0x80),
        (0x34FD, 0x01),
        (0xFFFC, 0x00),
        (0xFFFD, 0xFF),
        (0xFFFE, 0x10),
        (0xFFFF, 0x01),
    ] {
        let (mut memory, mut registers) = machine();
        registers.pc.value = start;
        registers.sp.value = sp;
        registers.acc.value = 0x99;
        let before = registers;
        JSR(0xC000).evaluate(&mut memory, &mut registers);
        assert_eq!(registers.pc.value, 0xC000);
        assert_eq!(registers.sp.value, sp.wrapping_sub(2));
        RTS.evaluate(&mut memory, &mut registers);
        assert_eq!(
            registers,
            Registers { pc: ProgramCounter { value: start.wrapping_add(3) }, ..before }
        );
    }
}

#[test]
fn nested_calls_return_in_order() {
    let (mut memory, mut registers) = machine();
    registers.pc.value = 0x0600;
    JSR(0x0700).evaluate(&mut memory, &mut registers);
    JSR(0x0800).evaluate(&mut memory, &mut registers);
    assert_eq!(registers.sp.value, 0xFB);
    RTS.evaluate(&mut memory, &mut registers);
    assert_eq!(registers.pc.value, 0x0703);
    RTS.evaluate(&mut memory, &mut registers);
    assert_eq!(registers.pc.value, 0x0603);
    assert_eq!(registers.sp.value, 0xFF);
}

#[test]
fn rti_restores_flags_and_program_counter() {
    let (mut memory, mut registers) = machine();
    // as an interrupt would leave them: address high, address low, flags
    push(&mut memory, &mut registers, 0x12);
    push(&mut memory, &mut registers, 0x34);
    push(&mut memory, &mut registers, 64 + 1);
    assert_eq!(registers.sp.value, 0xFC);
    registers.pc.value = 0x9000;
    RTI.evaluate(&mut memory, &mut registers);
    assert_eq!(registers.pc.value, 0x1234);
    assert_eq!(registers.sp.value, 0xFF);
    assert_eq!(registers.flags, Flags { carry: true, negative: true, ..Flags::default() });
}

#[test]
fn branches_not_taken_skip_two_bytes() {
    let (mut memory, mut registers) = machine();
    registers.pc.value = 0x0600;
    registers.flags =
        Flags { negative: true, overflow: true, carry: true, zero: true, ..Flags::default() };
    BPL(0x10).evaluate(&mut memory, &mut registers);
    assert_eq!(registers.pc.value, 0x0602);
    BVC(0x10).evaluate(&mut memory, &mut registers);
    assert_eq!(registers.pc.value, 0x0604);
    BCC(0x10).evaluate(&mut memory, &mut registers);
    assert_eq!(registers.pc.value, 0x0606);
    BNE(0x10).evaluate(&mut memory, &mut registers);
    assert_eq!(registers.pc.value, 0x0608);
    registers.flags = Flags::default();
    BMI(0x10).evaluate(&mut memory, &mut registers);
    assert_eq!(registers.pc.value, 0x060A);
    BVS(0x10).evaluate(&mut memory, &mut registers);
    assert_eq!(registers.pc.value, 0x060C);
    BCS(0x10).evaluate(&mut memory, &mut registers);
    assert_eq!(registers.pc.value, 0x060E);
    BEQ(0x10).evaluate(&mut memory, &mut registers);
    assert_eq!(registers.pc.value, 0x0610);
}

#[test]
fn branches_taken_add_the_displacement() {
    let (mut memory, mut registers) = machine();
    registers.flags = Flags::default();
    registers.pc.value = 0x0600;
    BPL(0x10).evaluate(&mut memory, &mut registers);
    assert_eq!(registers.pc.value, 0x0612);
    registers.pc.value = 0x0600;
    BVC(-2).evaluate(&mut memory, &mut registers);
    assert_eq!(registers.pc.value, 0x0600);
    registers.pc.value = 0x0600;
    BCC(127).evaluate(&mut memory, &mut registers);
    assert_eq!(registers.pc.value, 0x0681);
    registers.pc.value = 0x0600;
    BNE(-128).evaluate(&mut memory, &mut registers);
    assert_eq!(registers.pc.value, 0x0582);
    registers.flags =
        Flags { negative: true, overflow: true, carry: true, zero: true, ..Flags::default() };
    registers.pc.value = 0x0600;
    BMI(5).evaluate(&mut memory, &mut registers);
    assert_eq!(registers.pc.value, 0x0607);
    registers.pc.value = 0x0600;
    BVS(-5).evaluate(&mut memory, &mut registers);
    assert_eq!(registers.pc.value, 0x05FD);
    registers.pc.value = 0x0600;
    BCS(0).evaluate(&mut memory, &mut registers);
    assert_eq!(registers.pc.value, 0x0602);
    registers.pc.value = 0x0600;
    BEQ(1).evaluate(&mut memory, &mut registers);
    assert_eq!(registers.pc.value, 0x0603);
}

#[test]
fn branches_change_nothing_but_the_program_counter() {
    let (mut memory, mut registers) = machine();
    registers.acc.value = 1;
    registers.x.value = 2;
    registers.y.value = 3;
    registers.sp.value = 4;
    registers.flags.zero = true;
    let before = registers;
    BEQ(-10).evaluate(&mut memory, &mut registers);
    assert_eq!(registers, Registers { pc: ProgramCounter { value: 0xFFF8 }, ..before });
    assert!(memory.inner.iter().all(|byte| *byte == 0));
}

#[test]
fn branches_wrap_at_the_end_of_the_address_space() {
    let (mut memory, mut registers) = machine();
    registers.pc.value = 0xFFF0;
    BPL(0x20).evaluate(&mut memory, &mut registers);
    assert_eq!(registers.pc.value, 0x0012);
    registers.pc.value = 0x0001;
    BPL(-4).evaluate(&mut memory, &mut registers);
    assert_eq!(registers.pc.value, 0xFFFF);
    registers.pc.value = 0xFFFF;
    BMI(0x20).evaluate(&mut memory, &mut registers);
    assert_eq!(registers.pc.value, 0x0001);
}

#[test]
fn a_counting_loop_runs_to_its_end() {
    // LDX #$03; loop: DEX; CPX #$00; BNE loop; NOP
    let program: [u8; 8] = [0xA2, 0x03, 0xCA, 0xE0, 0x00, 0xD0, 0xFB, 0xEA];
    let (mut memory, mut registers) = machine();
    for (i, byte) in program.iter().enumerate() {
        memory.absolute_write(0x0600 + i as u16, *byte);
    }
    registers.pc.value = 0x0600;
    let mut steps = 0;
    while registers.pc.value != 0x0607 {
        let instruction = interp(&memory, registers.pc.value).unwrap();
        instruction.evaluate(&mut memory, &mut registers);
        steps += 1;
        assert!(steps < 100);
    }
    assert_eq!(steps, 1 + 3 * 3);
    assert_eq!(registers.x.value, 0);
    assert!(registers.flags.zero);
    assert!(registers.flags.carry);
}
