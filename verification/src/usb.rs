//! The eight-byte setup packet that opens a USB control transfer.

use vstd::prelude::*;

verus! {

/// A setup packet, field by field.
#[derive(Clone, Copy, Debug, PartialEq, Eq, Structural)]
pub struct Setup {
    pub kind: u8,
    pub request: u8,
    pub value: u16,
    pub index: u16,
    pub length: u16,
}

impl Setup {
    /// The packet as the 64-bit word that holds its eight bytes in the order
    /// of the fields, the first field in the lowest byte.
    pub open spec fn spec_as_word(self) -> u64 {
        (self.kind as u64) | ((self.request as u64) << 8) | ((self.value as u64) << 16) | ((
        self.index as u64) << 32) | ((self.length as u64) << 48)
    }

    /// Packs the fields into one word, and reports that each field can be read
    /// back from its place in the word.
    pub fn as_word(&self) -> (word: u64)
        ensures
            word == self.spec_as_word(),
            word & 0xFF == self.kind,
            (word >> 8) & 0xFF == self.request,
            (word >> 16) & 0xFFFF == self.value,
            (word >> 32) & 0xFFFF == self.index,
            word >> 48 == self.length,
    {
        let k: u64 = self.kind as u64;
        let r: u64 = self.request as u64;
        let v: u64 = self.value as u64;
        let i: u64 = self.index as u64;
        let l: u64 = self.length as u64;
        let word: u64 = k | (r << 8) | (v << 16) | (i << 32) | (l << 48);
        assert(word & 0xFF == k && (word >> 8) & 0xFF == r && (word >> 16) & 0xFFFF == v && (word
            >> 32) & 0xFFFF == i && word >> 48 == l) by (bit_vector)
            requires
                k < 0x100,
                r < 0x100,
                v < 0x1_0000,
                i < 0x1_0000,
                l < 0x1_0000,
                word == k | (r << 8) | (v << 16) | (i << 32) | (l << 48),
        ;
        word
    }
}

} // verus!
