//! The processor state of the 8080 and the primitives that instructions
//! are made of.

use vstd::prelude::*;
use crate::capability::memory::Memory;
use crate::capability::program::Program;
use crate::capability::registers::{Registers16, Registers8};
use crate::capability::stack::Stack;
use crate::i8080::flags::Flags8080;
use crate::i8080::instructions::{predicate_for, word_arg_from};
use crate::i8080::memory::Memory8080;
use crate::i8080::model::Snapshot;
use crate::i8080::program::Program8080;
use crate::i8080::registers::{Name16, Name8, Registers8080};
use crate::i8080::stack::Stack8080;

verus! {

/// Everything that an instruction can read or change: memory, stack,
/// program counter, registers and the interrupt enable.
#[derive(Debug)]
pub struct State8080 {
    pub m: Memory8080,
    pub s: Stack8080,
    pub p: Program8080,
    pub r: Registers8080,
    pub int_enable: bool,
}

impl View for State8080 {
    type V = Snapshot;

    open spec fn view(&self) -> Snapshot {
        Snapshot {
            mem: self.m.cells(),
            sp: self.s.pointer(),
            pc: self.p.counter(),
            pending: self.p.pending(),
            r: self.r,
            int_enable: self.int_enable,
        }
    }
}

/// The state of a processor that has just been switched on: memory and
/// registers zero, flags clear, interrupts disabled.
pub open spec fn initial() -> Snapshot {
    Snapshot {
        mem: Seq::new(0x1_0000, |i: int| 0u8),
        sp: 0,
        pc: 0,
        pending: 0,
        r: Registers8080 {
            a: 0,
            b: 0,
            c: 0,
            d: 0,
            e: 0,
            h: 0,
            l: 0,
            cc: Flags8080 { z: false, s: false, p: false, cy: false, ac: false },
        },
        int_enable: false,
    }
}

impl Default for State8080 {
    fn default() -> (state: State8080)
        ensures
            state@ == initial(),
    {
        State8080::new()
    }
}

impl State8080 {
    /// The model of a state always has a full memory.
    pub proof fn lemma_view_wf(&self)
        ensures
            self@.wf(),
    {
        self.m.lemma_cells_len();
    }

    /// A processor that has just been switched on.
    pub fn new() -> (state: State8080)
        ensures
            state@ == initial(),
    {
        State8080 {
            m: Memory8080::new(),
            s: Stack8080::new(),
            p: Program8080::new(),
            r: Registers8080::new(),
            int_enable: false,
        }
    }

    // MOV operations

    /// Register from register.
    pub fn mov_rr8(&mut self, dest: Name8, src: Name8)
        ensures
            final(self)@ == old(self)@.spec_mov_rr8(dest, src),
    {
        let val = self.r.get8(src);
        self.r.set8(dest, val);
    }

    /// Register from immediate.
    pub fn mov_ri8(&mut self, dest: Name8, val: u8)
        ensures
            final(self)@ == old(self)@.spec_mov_ri8(dest, val),
    {
        self.r.set8(dest, val);
    }

    /// Register from the byte that a pair points to.
    pub fn mov_rp8(&mut self, dest: Name8, src: Name16)
        ensures
            final(self)@ == old(self)@.spec_mov_rp8(dest, src),
    {
        let val = self.m.get_byte(self.r.get16(src));
        self.r.set8(dest, val);
    }

    /// Register from the byte at an address.
    pub fn mov_ra8(&mut self, dest: Name8, src: u16)
        ensures
            final(self)@ == old(self)@.spec_mov_ra8(dest, src),
    {
        let val = self.m.get_byte(src);
        self.r.set8(dest, val);
    }

    /// The byte that a pair points to, from a register.
    pub fn mov_pr8(&mut self, dest: Name16, src: Name8)
        ensures
            final(self)@ == old(self)@.spec_mov_pr8(dest, src),
    {
        let addr = self.r.get16(dest);
        let val = self.r.get8(src);
        self.m.set_byte(addr, val);
    }

    /// The byte that a pair points to, from an immediate.
    pub fn mov_pi8(&mut self, dest: Name16, src: u8)
        ensures
            final(self)@ == old(self)@.spec_mov_pi8(dest, src),
    {
        let addr = self.r.get16(dest);
        self.m.set_byte(addr, src);
    }

    /// The byte at an address, from a register.
    pub fn mov_ar8(&mut self, dest: u16, src: Name8)
        ensures
            final(self)@ == old(self)@.spec_mov_ar8(dest, src),
    {
        let val = self.r.get8(src);
        self.m.set_byte(dest, val);
    }

    /// Pair from pair.
    pub fn mov_rr16(&mut self, dest: Name16, src: Name16)
        ensures
            final(self)@ == old(self)@.spec_mov_rr16(dest, src),
    {
        let val = self.r.get16(src);
        self.r.set16(dest, val);
    }

    /// Pair from immediate.
    pub fn mov_ri16(&mut self, dest: Name16, val: u16)
        ensures
            final(self)@ == old(self)@.spec_mov_ri16(dest, val),
    {
        self.r.set16(dest, val);
    }

    /// Pair from the word that a pair points to.
    pub fn mov_rp16(&mut self, dest: Name16, src: Name16)
        ensures
            final(self)@ == old(self)@.spec_mov_rp16(dest, src),
    {
        let val = self.m.get_word(self.r.get16(src));
        self.r.set16(dest, val);
    }

    /// Pair from the word at an address.
    pub fn mov_ra16(&mut self, dest: Name16, src: u16)
        ensures
            final(self)@ == old(self)@.spec_mov_ra16(dest, src),
    {
        let val = self.m.get_word(src);
        self.r.set16(dest, val);
    }

    /// The word that a pair points to, from a pair.
    pub fn mov_pr16(&mut self, dest: Name16, src: Name16)
        ensures
            final(self)@ == old(self)@.spec_mov_pr16(dest, src),
    {
        let addr = self.r.get16(dest);
        let val = self.r.get16(src);
        self.m.set_word(addr, val);
    }

    /// The word at an address, from a pair.
    pub fn mov_ar16(&mut self, dest: u16, src: Name16)
        ensures
            final(self)@ == old(self)@.spec_mov_ar16(dest, src),
    {
        let val = self.r.get16(src);
        self.m.set_word(dest, val);
    }

    // INDIRECT MEMORY ACCESS

    /// The byte that the pair `ptr` points to.
    pub fn get_indirect8(&self, ptr: Name16) -> (value: u8)
        ensures
            value == self@.spec_get_indirect8(ptr),
    {
        self.m.get_byte(self.r.get16(ptr))
    }

    // CONTROL FLOW

    /// What `predicate` makes of the flags.
    pub fn test_flags(&self, predicate: impl Fn(&Flags8080) -> bool) -> (holds: bool)
        requires
            call_requires(predicate, (&self.r.cc,)),
        ensures
            call_ensures(predicate, (&self.r.cc,), holds),
    {
        predicate(&self.r.cc)
    }

    /// Continues execution at `addr`.
    pub fn jump_a(&mut self, addr: u16)
        ensures
            final(self)@ == old(self)@.spec_jump_a(addr),
    {
        self.p.jump(addr);
    }

    /// Pushes the address of the next instruction and continues at `addr`.
    pub fn call_a(&mut self, addr: u16)
        ensures
            final(self)@ == old(self)@.spec_call_a(addr),
    {
        self.p.call(&mut self.m, &mut self.s, addr);
    }

    /// Pops an address and continues there.
    pub fn ret(&mut self)
        ensures
            final(self)@ == old(self)@.spec_ret(),
    {
        self.p.ret(&mut self.m, &mut self.s);
    }

    /// Jumps to the 16-bit operand of `instruction` if the condition that
    /// its opcode selects holds.
    pub fn jump_if(&mut self, instruction: &[u8])
        requires
            instruction@.len() >= 3,
        ensures
            final(self)@ == old(self)@.spec_jump_if(instruction@),
    {
        if self.test_flags(predicate_for(instruction[0])) {
            self.jump_a(word_arg_from(instruction));
        }
    }

    /// Calls the 16-bit operand of `instruction` if the condition that its
    /// opcode selects holds.
    pub fn call_if(&mut self, instruction: &[u8])
        requires
            instruction@.len() >= 3,
        ensures
            final(self)@ == old(self)@.spec_call_if(instruction@),
    {
        if self.test_flags(predicate_for(instruction[0])) {
            self.call_a(word_arg_from(instruction));
        }
    }

    /// Returns if the condition that the opcode of `instruction` selects
    /// holds.
    pub fn ret_if(&mut self, instruction: &[u8])
        requires
            instruction@.len() >= 1,
        ensures
            final(self)@ == old(self)@.spec_ret_if(instruction@),
    {
        if self.test_flags(predicate_for(instruction[0])) {
            self.ret();
        }
    }

    // BINARY OPERATIONS

    /// Adds `operand` to the accumulator. The carry is set if and only if
    /// the sum does not fit in eight bits.
    pub fn add_ri8(&mut self, operand: u8)
        ensures
            final(self)@ == old(self)@.spec_add_ri8(operand),
    {
        let accumulator = self.r.get8(Name8::A);
        let result = accumulator.wrapping_add(operand);
        let carry = operand > 0xff - accumulator;
        self.r.cc.set_flags_no_carry(result);
        self.r.cc.cy = carry;
        self.r.set8(Name8::A, result);
    }

    /// Adds the register `src` to the accumulator.
    pub fn add_rr8(&mut self, src: Name8)
        ensures
            final(self)@ == old(self)@.spec_add_rr8(src),
    {
        let operand = self.r.get8(src);
        self.add_ri8(operand);
    }

    /// Adds `operand` to the pair `HL`. Of the flags, only the carry is
    /// affected.
    pub fn add_ri16(&mut self, operand: u16)
        ensures
            final(self)@ == old(self)@.spec_add_ri16(operand),
    {
        let augend = self.r.get16(Name16::HL);
        let result = augend.wrapping_add(operand);
        let carry = operand > 0xffff - augend;
        self.r.cc.cy = carry;
        self.r.set16(Name16::HL, result);
    }

    /// Adds the pair `src` to the pair `HL`.
    pub fn add_rr16(&mut self, src: Name16)
        ensures
            final(self)@ == old(self)@.spec_add_rr16(src),
    {
        let operand = self.r.get16(src);
        self.add_ri16(operand);
    }

    /// Adds `operand` and the carry flag to the accumulator.
    pub fn adc_ri8(&mut self, operand: u8)
        ensures
            final(self)@ == old(self)@.spec_adc_ri8(operand),
    {
        let carry_in: u16 = if self.r.cc.cy {
            1
        } else {
            0
        };
        let sum: u16 = self.r.get8(Name8::A) as u16 + operand as u16 + carry_in;
        let result = crate::bytes::low_order_byte(sum);
        self.r.cc.set_flags_no_carry(result);
        self.r.cc.cy = sum > 0xff;
        self.r.set8(Name8::A, result);
    }

    /// Subtracts `operand` from the accumulator. The carry is set if and
    /// only if a borrow was needed.
    pub fn sub_ri8(&mut self, operand: u8)
        ensures
            final(self)@ == old(self)@.spec_sub_ri8(operand),
    {
        let accumulator = self.r.get8(Name8::A);
        let result = accumulator.wrapping_sub(operand);
        let carry = accumulator < operand;
        self.r.cc.set_flags_no_carry(result);
        self.r.cc.cy = carry;
        self.r.set8(Name8::A, result);
    }

    /// Subtracts `operand` and the carry flag from the accumulator. The
    /// carry is set if and only if a borrow was needed.
    pub fn sbb_ri8(&mut self, operand: u8)
        ensures
            final(self)@ == old(self)@.spec_sbb_ri8(operand),
    {
        let borrow_in: u8 = if self.r.cc.cy {
            1
        } else {
            0
        };
        let accumulator = self.r.get8(Name8::A);
        let result = accumulator.wrapping_sub(operand).wrapping_sub(borrow_in);
        let borrow = (accumulator as u16) < operand as u16 + borrow_in as u16;

        self.r.cc.set_flags_no_carry(result);
        self.r.cc.cy = borrow;
        self.r.set8(Name8::A, result);
    }

    /// Compares the accumulator with `operand`: sets the flags as a
    /// subtraction does and leaves the accumulator alone.
    pub fn cmp_ri8(&mut self, operand: u8)
        ensures
            final(self)@ == old(self)@.spec_cmp_ri8(operand),
    {
        let result = self.r.a.wrapping_sub(operand);
        let carry = self.r.a < operand;
        self.r.cc.set_flags_no_carry(result);
        self.r.cc.cy = carry;
    }

    /// Applies `operation` to the accumulator and `operand` and leaves the
    /// result in the accumulator. The carry is cleared.
    pub fn logical_operation_ri(&mut self, operand: u8, operation: impl Fn(u8, u8) -> u8)
        requires
            call_requires(operation, (old(self).r.a, operand)),
        ensures
            exists|result: u8|
                call_ensures(operation, (old(self).r.a, operand), result) && final(self)@ == old(
                    self,
                )@.spec_logical(result),
            !final(self).r.cc.cy,
    {
        let accumulator = self.r.get8(Name8::A);

        let result = operation(accumulator, operand);
        self.r.cc.set_flags_no_carry(result);
        self.r.cc.cy = false;
        self.r.set8(Name8::A, result);
        assert(self@ == old(self)@.spec_logical(result));
    }

    /// Applies `operation` to the accumulator and the register `src`.
    pub fn logical_operation_rr(&mut self, src: Name8, operation: impl Fn(u8, u8) -> u8)
        requires
            call_requires(operation, (old(self).r.a, old(self).r.spec_get8(src))),
        ensures
            exists|result: u8|
                call_ensures(operation, (old(self).r.a, old(self).r.spec_get8(src)), result)
                    && final(self)@ == old(self)@.spec_logical(result),
            !final(self).r.cc.cy,
    {
        let operand = self.r.get8(src);
        self.logical_operation_ri(operand, operation);
    }

    // UNARY OPERATIONS

    /// Replaces the value of `src` by what `operation` makes of it, and
    /// derives zero, sign and parity from the new value. The carry stays as
    /// it was.
    pub fn unary_math_r8(&mut self, src: Name8, operation: impl Fn(u8) -> u8)
        requires
            call_requires(operation, (old(self).r.spec_get8(src),)),
        ensures
            exists|value: u8|
                call_ensures(operation, (old(self).r.spec_get8(src),), value) && final(self)@
                    == old(self)@.spec_unary_math_r8(src, value),
            final(self).r.cc.cy == old(self).r.cc.cy,
    {
        self.r.update8(src, operation);
        self.r.set_flags_from_r8(src);
        assert(self@ == old(self)@.spec_unary_math_r8(src, self.r.spec_get8(src)));
    }

    // ROTATIONS AND DECIMAL ADJUSTMENT

    /// Rotates the accumulator left by one bit; bit 7 goes to the carry too.
    pub fn rotate_left(&mut self)
        ensures
            final(self)@ == old(self)@.spec_rotate_left(),
    {
        let x = self.r.get8(Name8::A);
        assert((x << 1) | (x >> 7) == (2 * x + x / 0x80) % 0x100) by (bit_vector);
        assert((x & 0x80 != 0) == (x >= 0x80)) by (bit_vector);
        self.r.set8(Name8::A, (x << 1) | (x >> 7));
        self.r.cc.cy = (x & 0x80) != 0;
    }

    /// Rotates the accumulator right by one bit; bit 0 goes to the carry too.
    pub fn rotate_right(&mut self)
        ensures
            final(self)@ == old(self)@.spec_rotate_right(),
    {
        let x = self.r.get8(Name8::A);
        assert((x >> 1) | (x << 7) == (x / 2 + 0x80 * (x % 2)) % 0x100) by (bit_vector);
        assert((x & 0x01 == 1) == (x % 2 == 1)) by (bit_vector);
        self.r.set8(Name8::A, (x >> 1) | (x << 7));
        self.r.cc.cy = (x & 0x01) == 1;
    }

    /// Rotates the accumulator left through the carry.
    pub fn rotate_left_through_carry(&mut self)
        ensures
            final(self)@ == old(self)@.spec_rotate_left_through_carry(),
    {
        let x = self.r.get8(Name8::A);
        let carry_in: u8 = if self.r.cc.cy {
            1
        } else {
            0
        };
        assert(carry_in <= 1 ==> carry_in | (x << 1) == (2 * x + carry_in) % 0x100)
            by (bit_vector);
        assert((x & 0x80 != 0) == (x >= 0x80)) by (bit_vector);
        self.r.a = carry_in | (x << 1);
        self.r.cc.cy = (x & 0x80) != 0;
    }

    /// Rotates the accumulator right through the carry.
    pub fn rotate_right_through_carry(&mut self)
        ensures
            final(self)@ == old(self)@.spec_rotate_right_through_carry(),
    {
        let x = self.r.get8(Name8::A);
        let carry_in: u8 = if self.r.cc.cy {
            1
        } else {
            0
        };
        assert(carry_in <= 1 ==> (carry_in << 7) | (x >> 1) == (x / 2 + 0x80 * carry_in) % 0x100)
            by (bit_vector);
        assert((x & 0x01 == 1) == (x % 2 == 1)) by (bit_vector);
        self.r.a = (carry_in << 7) | (x >> 1);
        self.r.cc.cy = (x & 0x01) == 1;
    }

    /// Adjusts the accumulator after an addition of decimal digits: adds 6
    /// if the low digit is above nine, then adds 0x60 if the high digit is.
    pub fn decimal_adjust(&mut self)
        ensures
            final(self)@ == old(self)@.spec_decimal_adjust(),
    {
        let x = self.r.get8(Name8::A);
        assert(x & 0x0f == x % 0x10) by (bit_vector);
        if (x & 0x0f) > 9 {
            self.r.a = x.wrapping_add(6);
        }
        let y = self.r.get8(Name8::A);
        assert((y & 0xf0 > 0x90) == (y / 0x10 > 9)) by (bit_vector);
        if (y & 0xf0) > 0x90 {
            self.add_ri8(0x60);
        }
    }

    // STACK OPERATION

    /// Pushes the pair `src`.
    pub fn push_r16(&mut self, src: Name16)
        ensures
            final(self)@ == old(self)@.spec_push_r16(src),
    {
        let val = self.r.get16(src);
        self.s.push_word(&mut self.m, val);
    }

    /// Pops a word into the pair `dest`.
    pub fn pop_r16(&mut self, dest: Name16)
        ensures
            final(self)@ == old(self)@.spec_pop_r16(dest),
    {
        let val = self.s.pop_word(&mut self.m);
        self.r.set16(dest, val);
    }

    /// Pops a word.
    pub fn pop_word(&mut self) -> (word: u16)
        ensures
            word == old(self)@.spec_top_word(),
            final(self)@ == old(self)@.spec_drop_word(),
    {
        self.s.pop_word(&mut self.m)
    }

    /// Pushes a word.
    pub fn push_word(&mut self, val: u16)
        ensures
            final(self)@ == old(self)@.spec_push_word(val),
    {
        self.s.push_word(&mut self.m, val);
    }

    // PROGRAM OPERATIONS

    /// Fetches the instruction at the program counter and notes its length.
    pub fn get_instruction(&mut self) -> (instruction: Vec<u8>)
        ensures
            instruction@ == old(self)@.spec_instruction(),
            final(self)@ == old(self)@.spec_fetched(instruction@.len()),
    {
        self.p.get_instruction(&self.m)
    }

    // INTERRUPTS

    /// Enables or disables interrupts.
    pub fn set_interrupt_flag(&mut self, target: bool)
        ensures
            final(self)@ == old(self)@.spec_set_interrupt_flag(target),
    {
        self.int_enable = target;
    }

    /// Whether interrupts are enabled.
    pub fn get_interrupt_flag(&mut self) -> (enabled: bool)
        ensures
            enabled == old(self).int_enable,
            *final(self) == *old(self),
    {
        self.int_enable
    }

    /// Delivers interrupt number `n`: calls the vector at `8 * n` and
    /// disables interrupts.
    pub fn trigger_interrupt(&mut self, n: u16)
        requires
            8 * n <= 0xffff,
        ensures
            final(self)@ == old(self)@.spec_trigger_interrupt(n),
    {
        self.call_a(0x08 * n);
        self.int_enable = false;
    }
}

} // verus!
