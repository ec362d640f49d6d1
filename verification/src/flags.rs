//! Carry and half-carry rules of the arithmetic unit.
//!
//! The rules are pure functions of the two operands. A carry leaves the top
//! bit of the operand width; a half-carry leaves bit 3 of a byte or bit 11 of
//! a word. For a subtraction `a - b` both flags report a borrow.

use vstd::prelude::*;

verus! {

/// Whether two operands are added or the second is taken from the first.
#[derive(Copy, Clone, Debug, PartialEq, Eq, Structural)]
pub enum ArithmeticMode {
    Add,
    Subtract,
}

/// Carry out of bit 7: the unbounded sum exceeds a byte, or the subtrahend
/// exceeds the minuend.
pub open spec fn carry8(mode: ArithmeticMode, a: u8, b: u8) -> bool {
    match mode {
        ArithmeticMode::Add => a + b > 255,
        ArithmeticMode::Subtract => b > a,
    }
}

/// Carry out of bit 3: the low nibbles sum to at least 16, or the low nibble
/// of the minuend is smaller than that of the subtrahend.
pub open spec fn half_carry8(mode: ArithmeticMode, a: u8, b: u8) -> bool {
    match mode {
        ArithmeticMode::Add => (a & 0x0F) + (b & 0x0F) >= 0x10,
        ArithmeticMode::Subtract => (a & 0x0F) < (b & 0x0F),
    }
}

/// Carry out of bit 15: the unbounded sum exceeds a word, or the subtrahend
/// exceeds the minuend.
pub open spec fn carry16(mode: ArithmeticMode, a: u16, b: u16) -> bool {
    match mode {
        ArithmeticMode::Add => a + b > 0xFFFF,
        ArithmeticMode::Subtract => b > a,
    }
}

/// Carry out of bit 11: the low twelve bits sum to at least 4096, or the low
/// twelve bits of the minuend are smaller than those of the subtrahend.
pub open spec fn half_carry16(mode: ArithmeticMode, a: u16, b: u16) -> bool {
    match mode {
        ArithmeticMode::Add => (a & 0x0FFF) + (b & 0x0FFF) >= 0x1000,
        ArithmeticMode::Subtract => (a & 0x0FFF) < (b & 0x0FFF),
    }
}

/// The byte half-carry rule in modular arithmetic: masking with `0x0F` keeps
/// the remainder modulo 16.
pub proof fn lemma_half_carry8_modular(mode: ArithmeticMode, a: u8, b: u8)
    ensures
        half_carry8(mode, a, b) == match mode {
            ArithmeticMode::Add => a % 16 + b % 16 >= 16,
            ArithmeticMode::Subtract => a % 16 < b % 16,
        },
{
    assert(a & 0x0F == a % 16) by (bit_vector);
    assert(b & 0x0F == b % 16) by (bit_vector);
}

/// The word half-carry rule in modular arithmetic: masking with `0x0FFF`
/// keeps the remainder modulo 4096.
pub proof fn lemma_half_carry16_modular(mode: ArithmeticMode, a: u16, b: u16)
    ensures
        half_carry16(mode, a, b) == match mode {
            ArithmeticMode::Add => a % 4096 + b % 4096 >= 4096,
            ArithmeticMode::Subtract => a % 4096 < b % 4096,
        },
{
    assert(a & 0x0FFF == a % 4096) by (bit_vector);
    assert(b & 0x0FFF == b % 4096) by (bit_vector);
}

/// Reports whether `a + b` or `a - b` carries out of bit 7.
pub fn check_carry8(mode: ArithmeticMode, a: u8, b: u8) -> (carry: bool)
    ensures
        carry == carry8(mode, a, b),
        mode == ArithmeticMode::Add ==> carry == (a + b > 255),
        mode == ArithmeticMode::Subtract ==> carry == (b > a),
{
    match mode {
        ArithmeticMode::Add => a as u16 + b as u16 > 0xFF,
        ArithmeticMode::Subtract => b > a,
    }
}

/// Reports whether `a + b` or `a - b` carries out of bit 3.
pub fn check_half_carry8(mode: ArithmeticMode, a: u8, b: u8) -> (half_carry: bool)
    ensures
        half_carry == half_carry8(mode, a, b),
        mode == ArithmeticMode::Add ==> half_carry == ((a & 0x0F) + (b & 0x0F) >= 0x10),
        mode == ArithmeticMode::Subtract ==> half_carry == ((a & 0x0F) < (b & 0x0F)),
{
    assert(a & 0x0F <= 0x0F) by (bit_vector);
    assert(b & 0x0F <= 0x0F) by (bit_vector);
    match mode {
        ArithmeticMode::Add => (a & 0x0F) + (b & 0x0F) >= 0x10,
        ArithmeticMode::Subtract => (a & 0x0F) < (b & 0x0F),
    }
}

/// Reports whether `a + b` or `a - b` carries out of bit 15.
pub fn check_carry16(mode: ArithmeticMode, a: u16, b: u16) -> (carry: bool)
    ensures
        carry == carry16(mode, a, b),
        mode == ArithmeticMode::Add ==> carry == (a + b > 0xFFFF),
        mode == ArithmeticMode::Subtract ==> carry == (b > a),
{
    match mode {
        ArithmeticMode::Add => a as u32 + b as u32 > 0xFFFF,
        ArithmeticMode::Subtract => b > a,
    }
}

/// Reports whether `a + b` or `a - b` carries out of bit 11.
pub fn check_half_carry16(mode: ArithmeticMode, a: u16, b: u16) -> (half_carry: bool)
    ensures
        half_carry == half_carry16(mode, a, b),
        mode == ArithmeticMode::Add ==> half_carry == ((a & 0x0FFF) + (b & 0x0FFF) >= 0x1000),
        mode == ArithmeticMode::Subtract ==> half_carry == ((a & 0x0FFF) < (b & 0x0FFF)),
{
    assert(a & 0x0FFF <= 0x0FFF) by (bit_vector);
    assert(b & 0x0FFF <= 0x0FFF) by (bit_vector);
    match mode {
        ArithmeticMode::Add => (a & 0x0FFF) + (b & 0x0FFF) >= 0x1000,
        ArithmeticMode::Subtract => (a & 0x0FFF) < (b & 0x0FFF),
    }
}

} // verus!
