//! The memory bus: a flat space of 65536 bytes in which every address is valid.

use vstd::prelude::*;
use crate::bits::{high_byte, high_of, join, low_byte, low_of, pair};

verus! {

/// The address after `addr`; the address after 0xFFFF is 0x0000.
pub open spec fn next_address(addr: u16) -> u16 {
    ((addr + 1) % 65536) as u16
}

/// The little-endian word in `memory` at `addr`: the low byte at `addr`, the high
/// byte at the address after it.
pub open spec fn word_at(memory: Seq<u8>, addr: u16) -> u16 {
    pair(memory[next_address(addr) as int], memory[addr as int])
}

/// `memory` with the little-endian word `value` stored at `addr`.
pub open spec fn store_word(memory: Seq<u8>, addr: u16, value: u16) -> Seq<u8> {
    memory.update(addr as int, low_byte(value)).update(next_address(addr) as int, high_byte(value))
}

/// The whole address space. No region of it is special at this layer.
pub struct MemoryBus {
    pub bytes: [u8; 65536],
}

impl View for MemoryBus {
    type V = Seq<u8>;

    /// The contents as a sequence of 65536 bytes, indexed by address.
    open spec fn view(&self) -> Seq<u8> {
        self.bytes@
    }
}

impl MemoryBus {
    /// A bus whose every byte is zero.
    pub fn new() -> (bus: MemoryBus)
        ensures
            bus@.len() == 65536,
            forall|addr: int| 0 <= addr < 65536 ==> bus@[addr] == 0,
    {
        MemoryBus { bytes: [0; 65536] }
    }

    /// The byte at `addr`.
    pub fn read_byte(&self, addr: u16) -> (value: u8)
        ensures
            value == self@[addr as int],
    {
        self.bytes[addr as usize]
    }

    /// Stores `value` at `addr` and leaves every other byte as it was.
    pub fn write_byte(&mut self, addr: u16, value: u8)
        ensures
            final(self)@ == old(self)@.update(addr as int, value),
    {
        self.bytes[addr as usize] = value;
    }

    /// The little-endian word at `addr`. The second byte of a word at 0xFFFF is
    /// the byte at 0x0000.
    pub fn read_word(&self, addr: u16) -> (value: u16)
        ensures
            value == word_at(self@, addr),
    {
        let low = self.read_byte(addr);
        let high = self.read_byte(addr.wrapping_add(1));
        join(high, low)
    }

    /// Stores `value` at `addr` in little-endian order, as `read_word` reads it.
    pub fn write_word(&mut self, addr: u16, value: u16)
        ensures
            final(self)@ == store_word(old(self)@, addr, value),
    {
        self.write_byte(addr, low_of(value));
        self.write_byte(addr.wrapping_add(1), high_of(value));
    }
}

/// A word that was stored at an address is the word that is read there.
pub proof fn lemma_word_round_trip(memory: Seq<u8>, addr: u16, value: u16)
    requires
        memory.len() == 65536,
    ensures
        word_at(store_word(memory, addr, value), addr) == value,
{
}

/// Storing a word changes the two bytes of the word and no other.
pub proof fn lemma_store_word_frame(memory: Seq<u8>, addr: u16, value: u16, other: u16)
    requires
        memory.len() == 65536,
        other != addr,
        other != next_address(addr),
    ensures
        store_word(memory, addr, value)[other as int] == memory[other as int],
        store_word(memory, addr, value).len() == 65536,
{
}

} // verus!
