//! The memory bus: one byte for every 16-bit address.

use vstd::prelude::*;
use vstd::std_specs::cmp::PartialEqSpecImpl;

use crate::data::{
    address_after, high_byte, join_bytes, low_byte, word_of, wrapping_sum16, Address, SplitByte,
};

verus! {

/// Number of bytes on the bus: one for each 16-bit address.
pub const MEM_SIZE: usize = 0x1_0000;

/// The memory in which every byte is zero.
pub open spec fn zeroed() -> Map<u16, u8> {
    Map::total(|addr: u16| 0u8)
}

/// The word stored at `addr`: low byte at `addr`, high byte at the address
/// after it.
pub open spec fn word_at(mem: Map<u16, u8>, addr: u16) -> u16 {
    word_of(mem[address_after(addr, 1)], mem[addr])
}

/// The memory `mem` with `value` stored at `addr`: low byte at `addr`, high
/// byte at the address after it.
pub open spec fn store_word(mem: Map<u16, u8>, addr: u16, value: u16) -> Map<u16, u8> {
    mem.insert(address_after(addr, 1), high_byte(value)).insert(addr, low_byte(value))
}

/// A word that was stored at an address is the word found there.
pub proof fn lemma_store_then_load_word(mem: Map<u16, u8>, addr: u16, value: u16)
    ensures
        word_at(store_word(mem, addr, value), addr) == value,
{
}

/// Storing a word changes the two bytes it occupies and no other.
pub proof fn lemma_store_word_frame(mem: Map<u16, u8>, addr: u16, value: u16, other: u16)
    requires
        other != addr,
        other != address_after(addr, 1),
    ensures
        store_word(mem, addr, value)[other] == mem[other],
{
}

/// A flat store of `MEM_SIZE` bytes.
///
/// Its view is the total map from addresses to the bytes they hold, so
/// reading and writing never fail and no address is out of range.
#[derive(Debug)]
pub struct MemoryBus {
    memory: Vec<u8>,
}

impl View for MemoryBus {
    type V = Map<u16, u8>;

    closed spec fn view(&self) -> Map<u16, u8> {
        Map::total(|addr: u16| self.memory@[addr as int])
    }
}

impl MemoryBus {
    #[verifier::type_invariant]
    spec fn well_formed(&self) -> bool {
        self.memory@.len() == MEM_SIZE
    }

    /// Every address holds a byte.
    pub proof fn lemma_total(&self)
        ensures
            forall|addr: u16| self@.dom().contains(addr),
    {
    }

    /// A bus on which every byte is zero.
    pub fn create() -> (bus: MemoryBus)
        ensures
            bus@ == zeroed(),
    {
        let bus = MemoryBus { memory: vec![0u8; MEM_SIZE] };
        assert(bus@ =~= zeroed());
        bus
    }

    /// Stores `data` at `addr` and leaves every other byte as it was.
    pub fn write(&mut self, addr: Address, data: u8)
        ensures
            final(self)@ == old(self)@.insert(addr, data),
    {
        proof {
            use_type_invariant(&*self);
        }
        self.memory[addr as usize] = data;
        assert(self@ =~= old(self)@.insert(addr, data));
    }

    /// The byte held at `addr`.
    pub fn read(&self, addr: Address) -> (data: u8)
        ensures
            data == self@[addr],
    {
        proof {
            use_type_invariant(self);
        }
        self.memory[addr as usize]
    }

    /// The word held at `addr`, low byte first. A word at the last address
    /// has its high byte at address zero.
    pub fn read_word(&self, addr: Address) -> (value: u16)
        ensures
            value == word_at(self@, addr),
    {
        let low: u8 = self.read(addr);
        let high: u8 = self.read(wrapping_sum16(addr, 1));
        join_bytes(high, low)
    }

    /// Stores `value` at `addr`, low byte first, and leaves every other byte
    /// as it was. A word at the last address has its high byte at address
    /// zero.
    pub fn write_word(&mut self, addr: Address, value: u16)
        ensures
            final(self)@ == store_word(old(self)@, addr, value),
    {
        let (high, low) = value.split_byte();
        self.write(wrapping_sum16(addr, 1), high);
        self.write(addr, low);
    }
}

impl PartialEq for MemoryBus {
    /// Two buses are equal when they hold the same byte at every address.
    fn eq(&self, other: &MemoryBus) -> (equal: bool) {
        proof {
            use_type_invariant(self);
            use_type_invariant(other);
        }
        let mut addr: usize = 0;
        while addr < MEM_SIZE
            invariant
                addr <= MEM_SIZE,
                self.memory@.len() == MEM_SIZE,
                other.memory@.len() == MEM_SIZE,
                forall|below: int| 0 <= below < addr ==> self.memory@[below] == other.memory@[below],
            decreases MEM_SIZE - addr,
        {
            if self.memory[addr] != other.memory[addr] {
                assert(self@[addr as u16] != other@[addr as u16]);
                return false;
            }
            addr += 1;
        }
        assert(self@ =~= other@);
        true
    }
}

impl PartialEqSpecImpl for MemoryBus {
    open spec fn obeys_eq_spec() -> bool {
        true
    }

    open spec fn eq_spec(&self, other: &MemoryBus) -> bool {
        self@ == other@
    }
}

impl Default for MemoryBus {
    fn default() -> (bus: MemoryBus)
        ensures
            bus@ == zeroed(),
    {
        MemoryBus::create()
    }
}

impl Clone for MemoryBus {
    fn clone(&self) -> (copy: MemoryBus)
        ensures
            copy@ == self@,
    {
        proof {
            use_type_invariant(self);
        }
        let copy = MemoryBus { memory: self.memory.clone() };
        assert(copy@ =~= self@);
        copy
    }
}

} // verus!
