//! The 64 KiB memory of the 8080.

use vstd::prelude::*;
use vstd::slice::slice_subrange;
use crate::capability::address::Address;
use crate::capability::memory::{loaded, Memory};

verus! {

/// One byte for each of the 65,536 addresses. Every 16-bit address is valid,
/// so no access can fail.
#[derive(Debug)]
pub struct Memory8080 {
    m: [u8; 65536],
}

impl Memory8080 {
    /// A memory whose every byte is zero.
    pub fn new() -> (memory: Memory8080)
        ensures
            memory.cells() == Seq::new(0x1_0000, |i: int| 0u8),
    {
        Memory8080 { m: [0; 65536] }
    }
}

impl Default for Memory8080 {
    fn default() -> (memory: Memory8080)
        ensures
            memory.cells() == Seq::new(0x1_0000, |i: int| 0u8),
    {
        Memory8080::new()
    }
}

impl Memory for Memory8080 {
    type Address = u16;

    closed spec fn cells(&self) -> Seq<u8> {
        self.m@
    }

    proof fn lemma_cells_len(&self) {
        assert(self.m@.len() == 0x1_0000);
    }

    fn get_byte(&self, addr: u16) -> (value: u8) {
        assert(addr.index() < self.m@.len());
        self.m[addr as usize]
    }

    fn set_byte(&mut self, addr: u16, val: u8) {
        assert(addr.index() < self.m@.len());
        self.m[addr as usize] = val;
    }

    fn load(&mut self, base: u16, data: &[u8]) {
        let start = base as usize;
        let mut copied: usize = 0;
        while copied < data.len()
            invariant
                start == base,
                start + data@.len() <= 0x1_0000,
                copied <= data@.len(),
                self.m@ == loaded(old(self).m@, start as int, data@.subrange(0, copied as int)),
            decreases data@.len() - copied,
        {
            self.m[start + copied] = data[copied];
            copied += 1;
        }
        assert(data@.subrange(0, copied as int) == data@);
    }

    fn view(&self, start: u16, end: u16) -> (bytes: &[u8]) {
        slice_subrange(self.m.as_slice(), start as usize, end as usize + 1)
    }
}

} // verus!
