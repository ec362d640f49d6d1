//! Addresses and the byte/word arithmetic shared by the whole crate.

use vstd::prelude::*;

verus! {

/// A location on the memory bus.
pub type Address = u16;

/// The most significant byte of a 16-bit word.
pub open spec fn high_byte(word: u16) -> u8 {
    (word / 256) as u8
}

/// The least significant byte of a 16-bit word.
pub open spec fn low_byte(word: u16) -> u8 {
    (word % 256) as u8
}

/// The 16-bit word whose most significant byte is `high` and whose least
/// significant byte is `low`.
pub open spec fn word_of(high: u8, low: u8) -> u16 {
    (high * 256 + low) as u16
}

/// The byte that is left of an unbounded result: its value modulo 256.
pub open spec fn wrap8(value: int) -> u8 {
    (value % 0x100) as u8
}

/// The word that is left of an unbounded result: its value modulo 65536.
pub open spec fn wrap16(value: int) -> u16 {
    (value % 0x1_0000) as u16
}

/// The address that follows `addr` by `offset` bytes; the address space wraps
/// around at its end.
pub open spec fn address_after(addr: u16, offset: int) -> u16 {
    wrap16(addr + offset)
}

/// Splitting a word and joining the halves again gives the word back.
pub proof fn lemma_split_then_join(word: u16)
    ensures
        word_of(high_byte(word), low_byte(word)) == word,
{
}

/// Joining two bytes and splitting the word again gives the bytes back.
pub proof fn lemma_join_then_split(high: u8, low: u8)
    ensures
        high_byte(word_of(high, low)) == high,
        low_byte(word_of(high, low)) == low,
{
}

/// A value that can be taken apart into a high and a low byte.
pub trait SplitByte {
    /// The two halves, high byte first.
    spec fn halves(&self) -> (u8, u8);

    /// Returns the high byte and the low byte, in that order.
    fn split_byte(&self) -> (parts: (u8, u8))
        ensures
            parts == self.halves(),
    ;
}

impl SplitByte for Address {
    open spec fn halves(&self) -> (u8, u8) {
        (high_byte(*self), low_byte(*self))
    }

    fn split_byte(&self) -> (parts: (u8, u8)) {
        let word: u16 = *self;
        assert((word & 0xFF00) >> 8 == word / 256) by (bit_vector);
        assert(word & 0xFF == word % 256) by (bit_vector);
        (((word & 0xFF00) >> 8) as u8, (word & 0xFF) as u8)
    }
}

/// Builds a word from its high and low byte.
pub fn join_bytes(high: u8, low: u8) -> (word: u16)
    ensures
        word == word_of(high, low),
{
    assert((high as u16) << 8 | (low as u16) == high * 256 + low) by (bit_vector);
    (high as u16) << 8 | (low as u16)
}

/// The sum of two bytes, wrapped to a byte.
pub fn wrapping_sum8(a: u8, b: u8) -> (sum: u8)
    ensures
        sum == wrap8(a + b),
{
    a.wrapping_add(b)
}

/// The difference of two bytes, wrapped to a byte.
pub fn wrapping_difference8(a: u8, b: u8) -> (difference: u8)
    ensures
        difference == wrap8(a - b),
{
    a.wrapping_sub(b)
}

/// The sum of two words, wrapped to a word.
pub fn wrapping_sum16(a: u16, b: u16) -> (sum: u16)
    ensures
        sum == wrap16(a + b),
{
    a.wrapping_add(b)
}

/// The difference of two words, wrapped to a word.
pub fn wrapping_difference16(a: u16, b: u16) -> (difference: u16)
    ensures
        difference == wrap16(a - b),
{
    a.wrapping_sub(b)
}

} // verus!
