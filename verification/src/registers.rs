//! The register file: seven byte registers, four flags, and the 16-bit
//! program counter and stack pointer.

use vstd::prelude::*;
use vstd::std_specs::convert::FromSpecImpl;

use crate::data::{high_byte, join_bytes, low_byte, word_of, SplitByte};

verus! {

/// Position of the zero flag in the flags byte.
pub const ZERO_BIT: u8 = 7;

/// Position of the subtract flag in the flags byte.
pub const SUBTRACT_BIT: u8 = 6;

/// Position of the half-carry flag in the flags byte.
pub const HALF_CARRY_BIT: u8 = 5;

/// Position of the carry flag in the flags byte.
pub const CARRY_BIT: u8 = 4;

/// A byte register. `F` is the flags register seen as a byte.
#[derive(Copy, Clone, Debug, PartialEq, Eq, Structural)]
pub enum Register {
    A,
    B,
    C,
    D,
    E,
    F,
    H,
    L,
}

/// A byte register named as the place an operation reads or writes.
pub type RegisterTarget = Register;

/// Two byte registers read as one word, the first-named register on top.
#[derive(Copy, Clone, Debug, PartialEq, Eq, Structural)]
pub enum RegisterPair {
    BC,
    DE,
    HL,
}

/// One of the four status flags.
#[derive(Copy, Clone, Debug, PartialEq, Eq, Structural)]
pub enum Flag {
    Zero,
    Subtract,
    HalfCarry,
    Carry,
}

/// The four status flags. As a byte they fill the high nibble, zero flag on
/// top; the low nibble is always zero.
#[derive(Copy, Clone, Debug, PartialEq, Eq, Structural)]
pub struct FlagsRegister {
    pub zero: bool,
    pub subtract: bool,
    pub half_carry: bool,
    pub carry: bool,
}

impl FlagsRegister {
    /// The flags packed into a byte.
    pub open spec fn byte(self) -> u8 {
        ((if self.zero { 128int } else { 0 })
            + (if self.subtract { 64int } else { 0 })
            + (if self.half_carry { 32int } else { 0 })
            + (if self.carry { 16int } else { 0 })) as u8
    }

    /// The flags that the high nibble of `byte` holds.
    pub open spec fn of_byte(byte: u8) -> FlagsRegister {
        FlagsRegister {
            zero: (byte / 128) % 2 == 1,
            subtract: (byte / 64) % 2 == 1,
            half_carry: (byte / 32) % 2 == 1,
            carry: (byte / 16) % 2 == 1,
        }
    }

    /// The value of one flag.
    pub open spec fn get(self, flag: Flag) -> bool {
        match flag {
            Flag::Zero => self.zero,
            Flag::Subtract => self.subtract,
            Flag::HalfCarry => self.half_carry,
            Flag::Carry => self.carry,
        }
    }

    /// These flags with one of them replaced.
    pub open spec fn with(self, flag: Flag, value: bool) -> FlagsRegister {
        match flag {
            Flag::Zero => FlagsRegister { zero: value, ..self },
            Flag::Subtract => FlagsRegister { subtract: value, ..self },
            Flag::HalfCarry => FlagsRegister { half_carry: value, ..self },
            Flag::Carry => FlagsRegister { carry: value, ..self },
        }
    }

    /// Packing flags into a byte and unpacking the byte gives the flags back,
    /// and the low nibble of the packed byte is zero.
    pub proof fn lemma_pack_then_unpack(self)
        ensures
            FlagsRegister::of_byte(self.byte()) == self,
            self.byte() % 16 == 0,
    {
    }

    /// Unpacking a byte and packing the flags again keeps the high nibble and
    /// clears the low one.
    pub proof fn lemma_unpack_then_pack(byte: u8)
        ensures
            FlagsRegister::of_byte(byte).byte() == byte - byte % 16,
    {
    }
}

impl From<FlagsRegister> for u8 {
    fn from(flag: FlagsRegister) -> (byte: u8) {
        let zero: u8 = if flag.zero { 1 } else { 0 };
        let subtract: u8 = if flag.subtract { 1 } else { 0 };
        let half_carry: u8 = if flag.half_carry { 1 } else { 0 };
        let carry: u8 = if flag.carry { 1 } else { 0 };
        assert(zero <= 1 && subtract <= 1 && half_carry <= 1 && carry <= 1 ==> (zero << 7u8
            | subtract << 6u8 | half_carry << 5u8 | carry << 4u8) == 128 * zero + 64 * subtract
            + 32 * half_carry + 16 * carry) by (bit_vector);
        zero << ZERO_BIT | subtract << SUBTRACT_BIT | half_carry << HALF_CARRY_BIT | carry
            << CARRY_BIT
    }
}

impl FromSpecImpl<FlagsRegister> for u8 {
    open spec fn obeys_from_spec() -> bool {
        true
    }

    open spec fn from_spec(flag: FlagsRegister) -> u8 {
        flag.byte()
    }
}

impl From<u8> for FlagsRegister {
    fn from(byte: u8) -> (flags: FlagsRegister) {
        assert((byte & (1u8 << 7u8) != 0) == ((byte / 128) % 2 == 1)) by (bit_vector);
        assert((byte & (1u8 << 6u8) != 0) == ((byte / 64) % 2 == 1)) by (bit_vector);
        assert((byte & (1u8 << 5u8) != 0) == ((byte / 32) % 2 == 1)) by (bit_vector);
        assert((byte & (1u8 << 4u8) != 0) == ((byte / 16) % 2 == 1)) by (bit_vector);
        let zero = (byte & (1u8 << ZERO_BIT)) != 0;
        let subtract = (byte & (1u8 << SUBTRACT_BIT)) != 0;
        let half_carry = (byte & (1u8 << HALF_CARRY_BIT)) != 0;
        let carry = (byte & (1u8 << CARRY_BIT)) != 0;
        FlagsRegister { zero, subtract, half_carry, carry }
    }
}

impl FromSpecImpl<u8> for FlagsRegister {
    open spec fn obeys_from_spec() -> bool {
        true
    }

    open spec fn from_spec(byte: u8) -> FlagsRegister {
        FlagsRegister::of_byte(byte)
    }
}

/// The register file.
///
/// The pairs BC, DE and HL are views of two byte registers each, not storage
/// of their own. Every field holds exactly its declared width, so arithmetic
/// on the registers wraps.
#[derive(Copy, Clone, Debug, PartialEq, Eq, Structural)]
pub struct Registers {
    pub a: u8,
    pub b: u8,
    pub c: u8,
    pub d: u8,
    pub e: u8,
    pub h: u8,
    pub l: u8,
    pub flags: FlagsRegister,
    pub pc: u16,
    pub sp: u16,
}

impl Registers {
    /// The register file at power-on: every field zero, every flag clear.
    pub open spec fn zeroed() -> Registers {
        Registers {
            a: 0,
            b: 0,
            c: 0,
            d: 0,
            e: 0,
            h: 0,
            l: 0,
            flags: FlagsRegister { zero: false, subtract: false, half_carry: false, carry: false },
            pc: 0,
            sp: 0,
        }
    }

    /// The byte that register `reg` holds.
    pub open spec fn reg8(self, reg: Register) -> u8 {
        match reg {
            Register::A => self.a,
            Register::B => self.b,
            Register::C => self.c,
            Register::D => self.d,
            Register::E => self.e,
            Register::F => self.flags.byte(),
            Register::H => self.h,
            Register::L => self.l,
        }
    }

    /// This register file with `value` stored in register `reg`. Storing into
    /// `F` sets the flags from the high nibble and drops the low one.
    pub open spec fn with_reg8(self, reg: Register, value: u8) -> Registers {
        match reg {
            Register::A => Registers { a: value, ..self },
            Register::B => Registers { b: value, ..self },
            Register::C => Registers { c: value, ..self },
            Register::D => Registers { d: value, ..self },
            Register::E => Registers { e: value, ..self },
            Register::F => Registers { flags: FlagsRegister::of_byte(value), ..self },
            Register::H => Registers { h: value, ..self },
            Register::L => Registers { l: value, ..self },
        }
    }

    /// The word that the pair `pair` holds: first-named register on top.
    pub open spec fn reg16(self, pair: RegisterPair) -> u16 {
        match pair {
            RegisterPair::BC => word_of(self.b, self.c),
            RegisterPair::DE => word_of(self.d, self.e),
            RegisterPair::HL => word_of(self.h, self.l),
        }
    }

    /// This register file with `value` stored in the pair `pair`.
    pub open spec fn with_reg16(self, pair: RegisterPair, value: u16) -> Registers {
        match pair {
            RegisterPair::BC => Registers { b: high_byte(value), c: low_byte(value), ..self },
            RegisterPair::DE => Registers { d: high_byte(value), e: low_byte(value), ..self },
            RegisterPair::HL => Registers { h: high_byte(value), l: low_byte(value), ..self },
        }
    }

    /// This register file with one flag replaced.
    pub open spec fn with_flag(self, flag: Flag, value: bool) -> Registers {
        Registers { flags: self.flags.with(flag, value), ..self }
    }

    /// Creates the register file as it is at power-on.
    pub fn create() -> (reg: Registers)
        ensures
            reg == Registers::zeroed(),
    {
        Registers {
            a: 0x00,
            b: 0x00,
            c: 0x00,
            d: 0x00,
            e: 0x00,
            h: 0x00,
            l: 0x00,
            flags: FlagsRegister { zero: false, subtract: false, half_carry: false, carry: false },
            pc: 0x0000,
            sp: 0x0000,
        }
    }

    /// Reads a byte register.
    pub fn get_reg8(&self, reg: Register) -> (value: u8)
        ensures
            value == self.reg8(reg),
    {
        match reg {
            Register::A => self.a,
            Register::B => self.b,
            Register::C => self.c,
            Register::D => self.d,
            Register::E => self.e,
            Register::F => u8::from(self.flags),
            Register::H => self.h,
            Register::L => self.l,
        }
    }

    /// Reads a register pair.
    pub fn get_reg16(&self, reg: RegisterPair) -> (value: u16)
        ensures
            value == self.reg16(reg),
    {
        match reg {
            RegisterPair::BC => join_bytes(self.b, self.c),
            RegisterPair::DE => join_bytes(self.d, self.e),
            RegisterPair::HL => join_bytes(self.h, self.l),
        }
    }

    /// Writes a byte register and nothing else.
    pub fn set_reg8(&mut self, reg: Register, value: u8)
        ensures
            *final(self) == old(self).with_reg8(reg, value),
    {
        match reg {
            Register::A => self.a = value,
            Register::B => self.b = value,
            Register::C => self.c = value,
            Register::D => self.d = value,
            Register::E => self.e = value,
            Register::F => self.flags = FlagsRegister::from(value),
            Register::H => self.h = value,
            Register::L => self.l = value,
        }
    }

    /// Writes the two registers of a pair and nothing else.
    pub fn set_reg16(&mut self, reg: RegisterPair, value: u16)
        ensures
            *final(self) == old(self).with_reg16(reg, value),
    {
        let (high, low) = value.split_byte();
        match reg {
            RegisterPair::BC => {
                self.b = high;
                self.c = low;
            },
            RegisterPair::DE => {
                self.d = high;
                self.e = low;
            },
            RegisterPair::HL => {
                self.h = high;
                self.l = low;
            },
        }
    }

    /// Reads one flag.
    pub fn get_flag(&self, flag: Flag) -> (value: bool)
        ensures
            value == self.flags.get(flag),
    {
        match flag {
            Flag::Zero => self.flags.zero,
            Flag::Subtract => self.flags.subtract,
            Flag::HalfCarry => self.flags.half_carry,
            Flag::Carry => self.flags.carry,
        }
    }

    /// Writes one flag and nothing else.
    pub fn set_flag(&mut self, flag: Flag, value: bool)
        ensures
            *final(self) == old(self).with_flag(flag, value),
    {
        match flag {
            Flag::Zero => self.flags.zero = value,
            Flag::Subtract => self.flags.subtract = value,
            Flag::HalfCarry => self.flags.half_carry = value,
            Flag::Carry => self.flags.carry = value,
        }
    }

    /// Reads the zero flag.
    pub fn get_zero(&self) -> (value: bool)
        ensures
            value == self.flags.zero,
    {
        self.flags.zero
    }

    /// Reads the subtract flag.
    pub fn get_subtract(&self) -> (value: bool)
        ensures
            value == self.flags.subtract,
    {
        self.flags.subtract
    }

    /// Reads the half-carry flag.
    pub fn get_half_carry(&self) -> (value: bool)
        ensures
            value == self.flags.half_carry,
    {
        self.flags.half_carry
    }

    /// Reads the carry flag.
    pub fn get_carry(&self) -> (value: bool)
        ensures
            value == self.flags.carry,
    {
        self.flags.carry
    }

    /// Writes the zero flag and nothing else.
    pub fn set_zero(&mut self, value: bool)
        ensures
            *final(self) == old(self).with_flag(Flag::Zero, value),
    {
        self.flags.zero = value;
    }

    /// Writes the subtract flag and nothing else.
    pub fn set_subtract(&mut self, value: bool)
        ensures
            *final(self) == old(self).with_flag(Flag::Subtract, value),
    {
        self.flags.subtract = value;
    }

    /// Writes the half-carry flag and nothing else.
    pub fn set_half_carry(&mut self, value: bool)
        ensures
            *final(self) == old(self).with_flag(Flag::HalfCarry, value),
    {
        self.flags.half_carry = value;
    }

    /// Writes the carry flag and nothing else.
    pub fn set_carry(&mut self, value: bool)
        ensures
            *final(self) == old(self).with_flag(Flag::Carry, value),
    {
        self.flags.carry = value;
    }

    /// Reads the four flags as a byte; the register file is left as it was.
    pub fn get_flags(&mut self) -> (byte: u8)
        ensures
            byte == old(self).flags.byte(),
            *final(self) == *old(self),
    {
        u8::from(self.flags)
    }

    /// Sets the four flags from the high nibble of `value`; the low nibble is
    /// dropped and nothing else changes.
    pub fn set_flags(&mut self, value: u8)
        ensures
            *final(self) == (Registers { flags: FlagsRegister::of_byte(value), ..*old(self) }),
    {
        self.flags = FlagsRegister::from(value);
    }

    /// A byte register other than `F` reads back what was written to it, and
    /// `F` reads back the written byte with its low nibble cleared.
    pub proof fn lemma_set_then_get_reg8(self, reg: Register, value: u8)
        ensures
            reg != Register::F ==> self.with_reg8(reg, value).reg8(reg) == value,
            self.with_reg8(Register::F, value).reg8(Register::F) == value - value % 16,
    {
        FlagsRegister::lemma_unpack_then_pack(value);
    }

    /// A register pair reads back the word that was written to it.
    pub proof fn lemma_set_then_get_reg16(self, pair: RegisterPair, value: u16)
        ensures
            self.with_reg16(pair, value).reg16(pair) == value,
    {
    }

    /// A flag reads back the value that was written to it, and the other
    /// flags keep theirs.
    pub proof fn lemma_set_then_get_flag(self, flag: Flag, value: bool, other: Flag)
        ensures
            self.with_flag(flag, value).flags.get(flag) == value,
            other != flag ==> self.with_flag(flag, value).flags.get(other) == self.flags.get(
                other,
            ),
    {
    }

    /// Writing a pair touches its two registers only: the other pairs, the
    /// accumulator, the flags, the program counter and the stack pointer keep
    /// their values.
    pub proof fn lemma_set_reg16_frame(self, pair: RegisterPair, value: u16, other: RegisterPair)
        ensures
            other != pair ==> self.with_reg16(pair, value).reg16(other) == self.reg16(other),
            self.with_reg16(pair, value).a == self.a,
            self.with_reg16(pair, value).flags == self.flags,
            self.with_reg16(pair, value).pc == self.pc,
            self.with_reg16(pair, value).sp == self.sp,
    {
    }
}

impl Default for Registers {
    fn default() -> (reg: Registers)
        ensures
            reg == Registers::zeroed(),
    {
        Registers::create()
    }
}

} // verus!
