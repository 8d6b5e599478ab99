//! The register file: program counter, stack pointer, accumulator, the two
//! index registers and the seven status flags.
//!
//! The accumulator and the index registers hold unsigned bytes. All register
//! arithmetic elsewhere in the crate is stated modulo 256 (or modulo 65536
//! for the program counter), never left to the host's overflow behaviour.

use vstd::prelude::*;

verus! {

/// A register that can be shown as a 16-bit raw value.
pub trait Register {
    /// The raw value of the register, widened to 16 bits.
    spec fn raw_value(&self) -> u16;

    fn raw(&self) -> (value: u16)
        ensures
            value == self.raw_value(),
    ;
}

/// A register that can serve as the index of an indexed addressing mode.
pub trait IndexRegister {
    /// The byte currently held by the register.
    spec fn index(&self) -> u8;

    fn read(&self) -> (value: u8)
        ensures
            value == self.index(),
    ;

    fn write(&mut self, value: u8)
        ensures
            final(self).index() == value,
    ;
}

/// Address of the opcode byte of the next instruction to execute.
#[derive(Clone, Copy, Debug, PartialEq, Eq, Structural)]
pub struct ProgramCounter {
    pub value: u16,
}

impl Default for ProgramCounter {
    fn default() -> (pc: Self)
        ensures
            pc.value == 0,
    {
        ProgramCounter { value: 0 }
    }
}

impl Register for ProgramCounter {
    open spec fn raw_value(&self) -> u16 {
        self.value
    }

    fn raw(&self) -> (value: u16) {
        self.value
    }
}

/// Offset of the next free slot in the stack page `0x0100..=0x01FF`.
#[derive(Clone, Copy, Debug, PartialEq, Eq, Structural)]
pub struct StackPointer {
    pub value: u8,
}

impl Default for StackPointer {
    /// An empty stack: the pointer rests at the top of the stack page.
    fn default() -> (sp: Self)
        ensures
            sp.value == 0xFF,
    {
        StackPointer { value: 0xFF }
    }
}

impl Register for StackPointer {
    open spec fn raw_value(&self) -> u16 {
        self.value as u16
    }

    fn raw(&self) -> (value: u16) {
        self.value as u16
    }
}

/// The accumulator.
#[derive(Clone, Copy, Debug, PartialEq, Eq, Structural)]
pub struct Accumulator {
    pub value: u8,
}

impl Default for Accumulator {
    fn default() -> (acc: Self)
        ensures
            acc.value == 0,
    {
        Accumulator { value: 0 }
    }
}

impl Register for Accumulator {
    open spec fn raw_value(&self) -> u16 {
        self.value as u16
    }

    fn raw(&self) -> (value: u16) {
        self.value as u16
    }
}

/// The X index register.
#[derive(Clone, Copy, Debug, PartialEq, Eq, Structural)]
pub struct IndexX {
    pub value: u8,
}

impl Default for IndexX {
    fn default() -> (x: Self)
        ensures
            x.value == 0,
    {
        IndexX { value: 0 }
    }
}

impl Register for IndexX {
    open spec fn raw_value(&self) -> u16 {
        self.value as u16
    }

    fn raw(&self) -> (value: u16) {
        self.value as u16
    }
}

impl IndexRegister for IndexX {
    open spec fn index(&self) -> u8 {
        self.value
    }

    fn read(&self) -> (value: u8) {
        self.value
    }

    fn write(&mut self, value: u8) {
        self.value = value;
    }
}

/// The Y index register.
#[derive(Clone, Copy, Debug, PartialEq, Eq, Structural)]
pub struct IndexY {
    pub value: u8,
}

impl Default for IndexY {
    fn default() -> (y: Self)
        ensures
            y.value == 0,
    {
        IndexY { value: 0 }
    }
}

impl Register for IndexY {
    open spec fn raw_value(&self) -> u16 {
        self.value as u16
    }

    fn raw(&self) -> (value: u16) {
        self.value as u16
    }
}

impl IndexRegister for IndexY {
    open spec fn index(&self) -> u8 {
        self.value
    }

    fn read(&self) -> (value: u8) {
        self.value
    }

    fn write(&mut self, value: u8) {
        self.value = value;
    }
}

/// The seven status flags, each an independent boolean.
#[derive(Clone, Copy, Debug, PartialEq, Eq, Structural)]
pub struct Flags {
    pub carry: bool,
    pub zero: bool,
    pub interrupt_disable: bool,
    pub decimal_mode: bool,
    pub break_command: bool,
    pub overflow: bool,
    pub negative: bool,
}

/// The weight of one flag in the packed flags byte: `weight` if the flag is
/// set, zero if it is clear.
pub open spec fn flag_bit(flag: bool, weight: int) -> int {
    if flag {
        weight
    } else {
        0
    }
}

impl Flags {
    /// The flags packed into one byte. Carry is the most significant of the
    /// seven bits used and negative the least; bit 7 is always clear.
    ///
    /// | bit | flag              | weight |
    /// |-----|-------------------|--------|
    /// | 6   | carry             | 64     |
    /// | 5   | zero              | 32     |
    /// | 4   | interrupt disable | 16     |
    /// | 3   | decimal mode      | 8      |
    /// | 2   | break command     | 4      |
    /// | 1   | overflow          | 2      |
    /// | 0   | negative          | 1      |
    pub open spec fn packed(&self) -> int {
        flag_bit(self.carry, 64) + flag_bit(self.zero, 32) + flag_bit(self.interrupt_disable, 16)
            + flag_bit(self.decimal_mode, 8) + flag_bit(self.break_command, 4) + flag_bit(
            self.overflow,
            2,
        ) + flag_bit(self.negative, 1)
    }

    /// The flags that a packed byte stands for. Bit 7 of the byte is ignored.
    pub open spec fn unpacked(value: u8) -> Flags {
        Flags {
            carry: (value / 64) % 2 == 1,
            zero: (value / 32) % 2 == 1,
            interrupt_disable: (value / 16) % 2 == 1,
            decimal_mode: (value / 8) % 2 == 1,
            break_command: (value / 4) % 2 == 1,
            overflow: (value / 2) % 2 == 1,
            negative: value % 2 == 1,
        }
    }

    /// Replaces all seven flags by those packed in `value`.
    pub fn write(&mut self, value: u8)
        ensures
            *final(self) == Flags::unpacked(value),
    {
        self.carry = (value / 64) % 2 == 1;
        self.zero = (value / 32) % 2 == 1;
        self.interrupt_disable = (value / 16) % 2 == 1;
        self.decimal_mode = (value / 8) % 2 == 1;
        self.break_command = (value / 4) % 2 == 1;
        self.overflow = (value / 2) % 2 == 1;
        self.negative = value % 2 == 1;
    }

    /// Unpacking a packed set of flags gives the same flags back.
    pub proof fn lemma_unpacked_packed(self)
        ensures
            0 <= self.packed() < 128,
            Flags::unpacked(self.packed() as u8) == self,
    {
    }
}

impl Default for Flags {
    /// All flags clear.
    fn default() -> (flags: Self)
        ensures
            flags == (Flags {
                carry: false,
                zero: false,
                interrupt_disable: false,
                decimal_mode: false,
                break_command: false,
                overflow: false,
                negative: false,
            }),
    {
        Flags {
            carry: false,
            zero: false,
            interrupt_disable: false,
            decimal_mode: false,
            break_command: false,
            overflow: false,
            negative: false,
        }
    }
}

impl Register for Flags {
    open spec fn raw_value(&self) -> u16 {
        self.packed() as u16
    }

    fn raw(&self) -> (value: u16) {
        let mut output: u16 = 0;
        if self.carry {
            output = output + 64;
        }
        if self.zero {
            output = output + 32;
        }
        if self.interrupt_disable {
            output = output + 16;
        }
        if self.decimal_mode {
            output = output + 8;
        }
        if self.break_command {
            output = output + 4;
        }
        if self.overflow {
            output = output + 2;
        }
        if self.negative {
            output = output + 1;
        }
        output
    }
}

/// The whole register file.
#[derive(Clone, Copy, Debug, PartialEq, Eq, Structural)]
pub struct Registers {
    pub pc: ProgramCounter,
    pub sp: StackPointer,
    pub acc: Accumulator,
    pub x: IndexX,
    pub y: IndexY,
    pub flags: Flags,
}

impl Registers {
    /// The same registers with the program counter set to `pc`, reduced
    /// modulo 65536.
    pub open spec fn at(self, pc: int) -> Registers {
        Registers { pc: ProgramCounter { value: (pc % 65536) as u16 }, ..self }
    }

    /// The same registers with the program counter moved forward by `bytes`,
    /// wrapping at the end of the address space.
    pub open spec fn advanced(self, bytes: int) -> Registers {
        self.at(self.pc.value + bytes)
    }

    /// Moves the program counter forward by `bytes`, wrapping at the end of
    /// the address space.
    pub fn advance(&mut self, bytes: u16)
        ensures
            *final(self) == old(self).advanced(bytes as int),
    {
        self.pc.value = self.pc.value.wrapping_add(bytes);
    }
}

impl Default for Registers {
    /// The state after power-on: every register zero, every flag clear, the
    /// stack empty.
    fn default() -> (registers: Self)
        ensures
            registers.pc.value == 0,
            registers.sp.value == 0xFF,
            registers.acc.value == 0,
            registers.x.value == 0,
            registers.y.value == 0,
            registers.flags == Flags::unpacked(0),
    {
        Registers {
            pc: ProgramCounter::default(),
            sp: StackPointer::default(),
            acc: Accumulator::default(),
            x: IndexX::default(),
            y: IndexY::default(),
            flags: Flags::default(),
        }
    }
}

} // verus!
