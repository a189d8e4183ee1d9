//! A stack that grows downwards through a memory.

use vstd::prelude::*;
use crate::bytes::{high_order_byte, low_order_byte};
use crate::capability::address::{index_above, index_below, Address};
use crate::capability::memory::{word_in, Memory};

verus! {

/// A stack pointer over a memory. A push moves the pointer down before it
/// writes; a pop reads before it moves the pointer up.
pub trait Stack {
    type Address: Address;

    type Mem: Memory<Address = Self::Address>;

    /// The address of the byte on top of the stack.
    spec fn pointer(&self) -> Self::Address;

    fn get_sp(&self) -> (sp: Self::Address)
        ensures
            sp == self.pointer(),
    ;

    fn set_sp(&mut self, val: Self::Address)
        ensures
            final(self).pointer() == val,
    ;

    fn pop_byte(&mut self, m: &mut Self::Mem) -> (value: u8)
        ensures
            value == old(m).cells()[old(self).pointer().index()],
            final(self).pointer().index() == index_above(old(self).pointer(), 1),
            final(m).cells() == old(m).cells(),
    ;

    fn push_byte(&mut self, m: &mut Self::Mem, val: u8)
        ensures
            final(self).pointer().index() == index_below(old(self).pointer(), 1),
            final(m).cells() == old(m).cells().update(index_below(old(self).pointer(), 1), val),
    ;

    /// Pops a word: the low byte comes off first, then the high byte.
    fn pop_word(&mut self, m: &mut Self::Mem) -> (word: u16)
        ensures
            word == word_in(old(m).cells(), old(self).pointer().index()),
            final(self).pointer().index() == index_above(old(self).pointer(), 2),
            final(m).cells() == old(m).cells(),
    ;

    /// Pushes a word: the high byte goes first, so that the low byte ends up
    /// at the lower address.
    fn push_word(&mut self, m: &mut Self::Mem, val: u16)
        ensures
            final(self).pointer().index() == index_below(old(self).pointer(), 2),
            final(m).cells() == old(m).cells().update(
                index_below(old(self).pointer(), 1),
                high_order_byte(val),
            ).update(index_below(old(self).pointer(), 2), low_order_byte(val)),
    ;
}

} // verus!
