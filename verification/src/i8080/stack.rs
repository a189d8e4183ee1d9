//! The stack of the 8080.

use vstd::prelude::*;
use crate::bytes::{assemble_word, high_order_byte, low_order_byte};
use crate::capability::address::{index_above, index_below};
use crate::capability::memory::{word_in, Memory};
use crate::capability::stack::Stack;
use crate::i8080::memory::Memory8080;

verus! {

/// A 16-bit stack pointer. The stack grows towards lower addresses and
/// wraps around at both ends of the memory.
#[derive(Debug)]
pub struct Stack8080 {
    sp: u16,
}

impl Stack8080 {
    /// A stack whose pointer is zero.
    pub fn new() -> (stack: Stack8080)
        ensures
            stack.pointer() == 0,
    {
        Stack8080 { sp: 0 }
    }
}

impl Default for Stack8080 {
    fn default() -> (stack: Stack8080)
        ensures
            stack.pointer() == 0,
    {
        Stack8080::new()
    }
}

impl Stack for Stack8080 {
    type Address = u16;

    type Mem = Memory8080;

    closed spec fn pointer(&self) -> u16 {
        self.sp
    }

    fn get_sp(&self) -> (sp: u16) {
        self.sp
    }

    fn set_sp(&mut self, val: u16) {
        self.sp = val;
    }

    fn pop_byte(&mut self, m: &mut Memory8080) -> (value: u8) {
        let value = m.get_byte(self.sp);
        self.sp = self.sp.wrapping_add(1);
        value
    }

    fn push_byte(&mut self, m: &mut Memory8080, val: u8) {
        self.sp = self.sp.wrapping_sub(1);
        m.set_byte(self.sp, val);
    }

    fn pop_word(&mut self, m: &mut Memory8080) -> (word: u16) {
        proof {
            m.lemma_cells_len();
        }
        let low_order = self.pop_byte(m);
        let high_order = self.pop_byte(m);

        assemble_word(high_order, low_order)
    }

    fn push_word(&mut self, m: &mut Memory8080, val: u16) {
        self.push_byte(m, high_order_byte(val));
        self.push_byte(m, low_order_byte(val));
    }
}

/// A word that has been pushed is the word that a pop then delivers, and
/// the pop puts the stack pointer back where it was before the push. This
/// holds wherever the stack pointer is, also where the word wraps around
/// an end of the memory.
///
/// `cells` is the memory before the push and `pointer` the stack pointer
/// before it; the law speaks of the memory and the pointer that `push_word`
/// leaves, and of what `pop_word` makes of them.
pub proof fn lemma_push_then_pop_word(cells: Seq<u8>, pointer: u16, val: u16)
    requires
        cells.len() == 0x1_0000,
    ensures
        ({
            let pushed = cells.update(index_below(pointer, 1), high_order_byte(val)).update(
                index_below(pointer, 2),
                low_order_byte(val),
            );
            let top = index_below(pointer, 2);
            &&& 0 <= top < 0x1_0000
            &&& word_in(pushed, top) == val
            &&& index_above(top as u16, 2) == pointer
        }),
{
    let top = index_below(pointer, 2);
    let pushed = cells.update(index_below(pointer, 1), high_order_byte(val)).update(
        top,
        low_order_byte(val),
    );
    assert(pushed[top] == low_order_byte(val));
    assert(pushed[(top + 1) % 0x1_0000] == high_order_byte(val));
}

} // verus!
