//! A flat, byte-addressed memory that spans a whole address space.

use vstd::prelude::*;
use crate::bytes::{assemble_word, high_order_byte, low_order_byte};
use crate::capability::address::Address;

verus! {

/// What `cells` holds once `data` has been copied into it from cell `base` on.
pub open spec fn loaded(cells: Seq<u8>, base: int, data: Seq<u8>) -> Seq<u8> {
    Seq::new(
        cells.len(),
        |i: int|
            if base <= i < base + data.len() {
                data[i - base]
            } else {
                cells[i]
            },
    )
}

/// The little-endian word found at cell `index` of `cells`: the low byte at
/// `index`, the high byte one cell further up, wrapping at the end.
pub open spec fn word_in(cells: Seq<u8>, index: int) -> u16 {
    assemble_word(cells[(index + 1) % (cells.len() as int)], cells[index])
}

/// `cells` after the little-endian word `word` has been stored at cell `index`.
pub open spec fn with_word(cells: Seq<u8>, index: int, word: u16) -> Seq<u8> {
    cells.update(index, low_order_byte(word)).update(
        (index + 1) % (cells.len() as int),
        high_order_byte(word),
    )
}

/// A memory with one byte per address; every address is valid.
pub trait Memory {
    type Address: Address;

    /// The content of the memory, cell by cell.
    spec fn cells(&self) -> Seq<u8>;

    /// The memory has exactly one cell for each address.
    proof fn lemma_cells_len(&self)
        ensures
            self.cells().len() == Self::Address::space(),
    ;

    fn get_byte(&self, addr: Self::Address) -> (value: u8)
        ensures
            value == self.cells()[addr.index()],
    ;

    /// Reads a little-endian word: low byte at `addr`, high byte at the
    /// address after it.
    fn get_word(&self, addr: Self::Address) -> (word: u16)
        ensures
            word == word_in(self.cells(), addr.index()),
    {
        let high = self.get_byte(addr.successor());
        let low = self.get_byte(addr);
        proof {
            self.lemma_cells_len();
        }
        assemble_word(high, low)
    }

    fn set_byte(&mut self, addr: Self::Address, value: u8)
        ensures
            final(self).cells() == old(self).cells().update(addr.index(), value),
    ;

    /// Writes a little-endian word: low byte at `addr`, high byte at the
    /// address after it.
    fn set_word(&mut self, addr: Self::Address, value: u16)
        ensures
            final(self).cells() == with_word(old(self).cells(), addr.index(), value),
    {
        proof {
            self.lemma_cells_len();
        }
        self.set_byte(addr, low_order_byte(value));
        self.set_byte(addr.successor(), high_order_byte(value));
    }

    /// Copies `data` into the memory from `addr` on. The data must fit below
    /// the top of the address space.
    fn load(&mut self, addr: Self::Address, data: &[u8])
        requires
            addr.index() + data@.len() <= Self::Address::space(),
        ensures
            final(self).cells() == loaded(old(self).cells(), addr.index(), data@),
    ;

    /// The bytes from `start` to `end`, both included.
    fn view(&self, start: Self::Address, end: Self::Address) -> (bytes: &[u8])
        requires
            start.index() <= end.index(),
        ensures
            bytes@ == self.cells().subrange(start.index(), end.index() + 1),
    ;
}

} // verus!
