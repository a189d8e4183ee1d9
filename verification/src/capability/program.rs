//! The program counter and the control transfers that move it.

use vstd::prelude::*;
use crate::bytes::{high_order_byte, low_order_byte};
use crate::capability::address::{index_above, index_below, Address};
use crate::capability::memory::{word_in, Memory};
use crate::capability::stack::Stack;

verus! {

/// A program counter together with the length of the instruction that is
/// being decoded.
///
/// Fetching sets the length; advancing consumes it. A jump, call or return
/// clears it, so that advancing afterwards leaves the counter on its target.
pub trait Program {
    type Address: Address;

    type Mem: Memory<Address = Self::Address>;

    type Stk: Stack<Address = Self::Address, Mem = Self::Mem>;

    /// The address of the instruction that is executed next.
    spec fn counter(&self) -> Self::Address;

    /// The length in bytes of the instruction being decoded; zero when
    /// none is.
    spec fn pending(&self) -> nat;

    /// The length in bytes of an instruction, which its opcode fixes.
    spec fn length_of(opcode: u8) -> nat;

    /// The word that a call pushes: the address of the instruction after
    /// the one being decoded.
    spec fn return_word(&self) -> u16;

    /// The address that a word on the stack stands for.
    spec fn target_of(word: u16) -> Self::Address;

    fn get_pc(&self) -> (pc: Self::Address)
        ensures
            pc == self.counter(),
    ;

    /// Fetches the instruction at the program counter: its opcode and the
    /// operand bytes that follow it.
    fn get_instruction(&mut self, m: &Self::Mem) -> (instruction: Vec<u8>)
        ensures
            final(self).counter() == old(self).counter(),
            final(self).pending() == Self::length_of(m.cells()[old(self).counter().index()]),
            instruction@.len() == final(self).pending(),
            forall|i: int|
                0 <= i < instruction@.len() ==> instruction@[i] == m.cells()[index_above(
                    old(self).counter(),
                    i,
                )],
    ;

    /// Moves the counter past the instruction that was fetched.
    fn advance(&mut self)
        ensures
            final(self).counter().index() == index_above(
                old(self).counter(),
                old(self).pending() as int,
            ),
            final(self).pending() == 0,
    ;

    fn jump(&mut self, addr: Self::Address)
        ensures
            final(self).counter() == addr,
            final(self).pending() == 0,
    ;

    /// Pushes the address of the instruction after the one being decoded,
    /// then jumps to `addr`.
    fn call(&mut self, m: &mut Self::Mem, s: &mut Self::Stk, addr: Self::Address)
        ensures
            final(self).counter() == addr,
            final(self).pending() == 0,
            final(s).pointer().index() == index_below(old(s).pointer(), 2),
            final(m).cells() == old(m).cells().update(
                index_below(old(s).pointer(), 1),
                high_order_byte(old(self).return_word()),
            ).update(index_below(old(s).pointer(), 2), low_order_byte(old(self).return_word())),
    ;

    /// Pops an address from the stack and jumps to it.
    fn ret(&mut self, m: &mut Self::Mem, s: &mut Self::Stk)
        ensures
            final(self).counter() == Self::target_of(
                word_in(old(m).cells(), old(s).pointer().index()),
            ),
            final(self).pending() == 0,
            final(s).pointer().index() == index_above(old(s).pointer(), 2),
            final(m).cells() == old(m).cells(),
    ;
}

} // verus!
