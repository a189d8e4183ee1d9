//! The mathematical model of the processor state, and the meaning of every
//! primitive as a function from one state to the next.

use vstd::prelude::*;
use crate::bytes::{high_order_byte, low_order_byte};
use crate::capability::memory::{with_word, word_in};
use crate::capability::registers::{Registers16, Registers8};
use crate::i8080::flags::{bit_of, Flags8080};
use crate::i8080::instructions::{condition_holds, spec_word_arg_from};
use crate::i8080::program::instruction_length;
use crate::i8080::registers::{Name16, Name8, Registers8080};

verus! {

/// The low eight bits of `n`.
pub open spec fn low8(n: int) -> u8 {
    (n % 0x100) as u8
}

/// The low sixteen bits of `n`.
pub open spec fn low16(n: int) -> u16 {
    (n % 0x1_0000) as u16
}

/// The processor state as a value: the content of the memory, the stack
/// pointer, the program counter with the length of the instruction being
/// decoded, the registers with their flags, and the interrupt enable.
#[verifier::ext_equal]
pub struct Snapshot {
    pub mem: Seq<u8>,
    pub sp: u16,
    pub pc: u16,
    pub pending: nat,
    pub r: Registers8080,
    pub int_enable: bool,
}

impl Snapshot {
    /// The memory has one byte for each 16-bit address.
    pub open spec fn wf(self) -> bool {
        self.mem.len() == 0x1_0000
    }

    /// The byte at `addr`.
    pub open spec fn byte_at(self, addr: u16) -> u8 {
        self.mem[addr as int]
    }

    /// The little-endian word at `addr`.
    pub open spec fn word_at(self, addr: u16) -> u16 {
        word_in(self.mem, addr as int)
    }

    /// The state with `val` stored at `addr`.
    pub open spec fn store_byte(self, addr: u16, val: u8) -> Snapshot {
        Snapshot { mem: self.mem.update(addr as int, val), ..self }
    }

    /// The state with the little-endian word `val` stored at `addr`.
    pub open spec fn store_word(self, addr: u16, val: u16) -> Snapshot {
        Snapshot { mem: with_word(self.mem, addr as int, val), ..self }
    }

    /// The state with its registers replaced by `r`.
    pub open spec fn with_registers(self, r: Registers8080) -> Snapshot {
        Snapshot { r, ..self }
    }

    /// The state with its flags replaced by `cc`.
    pub open spec fn with_flags(self, cc: Flags8080) -> Snapshot {
        Snapshot { r: Registers8080 { cc, ..self.r }, ..self }
    }

    /// The state with its stack pointer replaced by `sp`.
    pub open spec fn with_sp(self, sp: u16) -> Snapshot {
        Snapshot { sp, ..self }
    }

    // Transfers between registers, immediates and memory. The name tells
    // the operands, destination first: `r` a register, `i` an immediate,
    // `p` the memory cell that a pair points to, `a` the memory cell at an
    // address.

    pub open spec fn spec_mov_rr8(self, dest: Name8, src: Name8) -> Snapshot {
        self.with_registers(self.r.spec_set8(dest, self.r.spec_get8(src)))
    }

    pub open spec fn spec_mov_ri8(self, dest: Name8, val: u8) -> Snapshot {
        self.with_registers(self.r.spec_set8(dest, val))
    }

    pub open spec fn spec_mov_rp8(self, dest: Name8, src: Name16) -> Snapshot {
        self.with_registers(self.r.spec_set8(dest, self.byte_at(self.r.spec_get16(src))))
    }

    pub open spec fn spec_mov_ra8(self, dest: Name8, src: u16) -> Snapshot {
        self.with_registers(self.r.spec_set8(dest, self.byte_at(src)))
    }

    pub open spec fn spec_mov_pr8(self, dest: Name16, src: Name8) -> Snapshot {
        self.store_byte(self.r.spec_get16(dest), self.r.spec_get8(src))
    }

    pub open spec fn spec_mov_pi8(self, dest: Name16, src: u8) -> Snapshot {
        self.store_byte(self.r.spec_get16(dest), src)
    }

    pub open spec fn spec_mov_ar8(self, dest: u16, src: Name8) -> Snapshot {
        self.store_byte(dest, self.r.spec_get8(src))
    }

    pub open spec fn spec_mov_rr16(self, dest: Name16, src: Name16) -> Snapshot {
        self.with_registers(self.r.spec_set16(dest, self.r.spec_get16(src)))
    }

    pub open spec fn spec_mov_ri16(self, dest: Name16, val: u16) -> Snapshot {
        self.with_registers(self.r.spec_set16(dest, val))
    }

    pub open spec fn spec_mov_rp16(self, dest: Name16, src: Name16) -> Snapshot {
        self.with_registers(self.r.spec_set16(dest, self.word_at(self.r.spec_get16(src))))
    }

    pub open spec fn spec_mov_ra16(self, dest: Name16, src: u16) -> Snapshot {
        self.with_registers(self.r.spec_set16(dest, self.word_at(src)))
    }

    pub open spec fn spec_mov_pr16(self, dest: Name16, src: Name16) -> Snapshot {
        self.store_word(self.r.spec_get16(dest), self.r.spec_get16(src))
    }

    pub open spec fn spec_mov_ar16(self, dest: u16, src: Name16) -> Snapshot {
        self.store_word(dest, self.r.spec_get16(src))
    }

    /// The byte that the pair `ptr` points to.
    pub open spec fn spec_get_indirect8(self, ptr: Name16) -> u8 {
        self.byte_at(self.r.spec_get16(ptr))
    }

    // The stack.

    /// The state after `val` has been pushed: the pointer moves down by
    /// one, then the byte is written where it points.
    pub open spec fn spec_push_byte(self, val: u8) -> Snapshot {
        let sp = low16(self.sp - 1);
        Snapshot { mem: self.mem.update(sp as int, val), sp, ..self }
    }

    /// The state after `val` has been pushed: the high byte first, so that
    /// the low byte lies at the lower address.
    pub open spec fn spec_push_word(self, val: u16) -> Snapshot {
        self.spec_push_byte(high_order_byte(val)).spec_push_byte(low_order_byte(val))
    }

    /// The word on top of the stack: low byte where the pointer points, high
    /// byte above it.
    pub open spec fn spec_top_word(self) -> u16 {
        self.word_at(self.sp)
    }

    /// The state after a word has been popped: the pointer has moved up by
    /// two.
    pub open spec fn spec_drop_word(self) -> Snapshot {
        self.with_sp(low16(self.sp + 2))
    }

    pub open spec fn spec_push_r16(self, src: Name16) -> Snapshot {
        self.spec_push_word(self.r.spec_get16(src))
    }

    pub open spec fn spec_pop_r16(self, dest: Name16) -> Snapshot {
        self.spec_drop_word().with_registers(self.r.spec_set16(dest, self.spec_top_word()))
    }

    // Control flow.

    /// The address of the instruction after the one being decoded.
    pub open spec fn spec_return_address(self) -> u16 {
        low16(self.pc + self.pending)
    }

    /// The state once the instruction being decoded is known to be
    /// `length` bytes long.
    pub open spec fn spec_fetched(self, length: nat) -> Snapshot {
        Snapshot { pending: length, ..self }
    }

    /// The state after the counter has moved past the instruction being
    /// decoded.
    pub open spec fn spec_advance(self) -> Snapshot {
        Snapshot { pc: self.spec_return_address(), pending: 0, ..self }
    }

    pub open spec fn spec_jump_a(self, addr: u16) -> Snapshot {
        Snapshot { pc: addr, pending: 0, ..self }
    }

    /// A call pushes the return address, then jumps.
    pub open spec fn spec_call_a(self, addr: u16) -> Snapshot {
        self.spec_push_word(self.spec_return_address()).spec_jump_a(addr)
    }

    /// A return pops an address and jumps to it.
    pub open spec fn spec_ret(self) -> Snapshot {
        self.spec_drop_word().spec_jump_a(self.spec_top_word())
    }

    /// A conditional jump is a jump to the 16-bit operand if the condition
    /// that the opcode selects holds, and nothing otherwise.
    pub open spec fn spec_jump_if(self, instruction: Seq<u8>) -> Snapshot {
        if condition_holds(instruction[0], self.r.cc) {
            self.spec_jump_a(spec_word_arg_from(instruction))
        } else {
            self
        }
    }

    /// A conditional call is a call of the 16-bit operand if the condition
    /// that the opcode selects holds, and nothing otherwise.
    pub open spec fn spec_call_if(self, instruction: Seq<u8>) -> Snapshot {
        if condition_holds(instruction[0], self.r.cc) {
            self.spec_call_a(spec_word_arg_from(instruction))
        } else {
            self
        }
    }

    /// A conditional return is a return if the condition that the opcode
    /// selects holds, and nothing otherwise.
    pub open spec fn spec_ret_if(self, instruction: Seq<u8>) -> Snapshot {
        if condition_holds(instruction[0], self.r.cc) {
            self.spec_ret()
        } else {
            self
        }
    }

    // Arithmetic and logic on the accumulator.

    /// The state after an operation has left `result` in the accumulator
    /// and `carry` in the carry flag: zero, sign and parity follow from the
    /// result.
    pub open spec fn spec_accumulate(self, result: u8, carry: bool) -> Snapshot {
        self.with_registers(
            Registers8080 {
                a: result,
                cc: self.r.cc.spec_set_flags_no_carry(result).spec_with_carry(carry),
                ..self.r
            },
        )
    }

    /// Addition: the carry is set if and only if the sum does not fit in
    /// eight bits.
    pub open spec fn spec_add_ri8(self, operand: u8) -> Snapshot {
        let sum = self.r.a + operand;
        self.spec_accumulate(low8(sum), sum > 0xff)
    }

    pub open spec fn spec_add_rr8(self, src: Name8) -> Snapshot {
        self.spec_add_ri8(self.r.spec_get8(src))
    }

    /// Addition with carry: the carry flag is added in as well.
    pub open spec fn spec_adc_ri8(self, operand: u8) -> Snapshot {
        let sum = self.r.a + operand + bit_of(self.r.cc.cy);
        self.spec_accumulate(low8(sum), sum > 0xff)
    }

    /// Subtraction: the carry is set if and only if a borrow was needed.
    pub open spec fn spec_sub_ri8(self, operand: u8) -> Snapshot {
        self.spec_accumulate(low8(self.r.a - operand), self.r.a < operand)
    }

    /// Subtraction with borrow: the carry flag is subtracted as well. The
    /// carry is set if and only if a borrow was needed, that is, if the
    /// accumulator was below the operand and the carry together.
    pub open spec fn spec_sbb_ri8(self, operand: u8) -> Snapshot {
        let subtrahend = operand + bit_of(self.r.cc.cy);
        self.spec_accumulate(low8(self.r.a - subtrahend), self.r.a < subtrahend)
    }

    /// Comparison: the flags of a subtraction, with the accumulator left
    /// as it was.
    pub open spec fn spec_cmp_ri8(self, operand: u8) -> Snapshot {
        self.with_flags(
            self.r.cc.spec_set_flags_no_carry(low8(self.r.a - operand)).spec_with_carry(
                self.r.a < operand,
            ),
        )
    }

    /// A logical operation leaves its result in the accumulator and clears
    /// the carry.
    pub open spec fn spec_logical(self, result: u8) -> Snapshot {
        self.spec_accumulate(result, false)
    }

    /// 16-bit addition into `HL`: only the carry is affected.
    pub open spec fn spec_add_ri16(self, operand: u16) -> Snapshot {
        let sum = self.r.spec_get16(Name16::HL) + operand;
        self.with_registers(
            self.r.spec_with_carry(sum > 0xffff).spec_set16(Name16::HL, low16(sum)),
        )
    }

    pub open spec fn spec_add_rr16(self, src: Name16) -> Snapshot {
        self.spec_add_ri16(self.r.spec_get16(src))
    }

    /// A unary operation leaves `value` in `src` and derives zero, sign and
    /// parity from it. The carry is not affected.
    pub open spec fn spec_unary_math_r8(self, src: Name8, value: u8) -> Snapshot {
        self.with_registers(self.r.spec_set8(src, value).spec_set_flags_from_r8(src))
    }

    /// The same for the memory cell that `HL` points to: `value` is stored
    /// there, and zero, sign and parity are derived from it.
    pub open spec fn spec_unary_math_indirect(self, value: u8) -> Snapshot {
        self.with_flags(self.r.cc.spec_set_flags_no_carry(value)).spec_mov_pi8(Name16::HL, value)
    }

    /// The state with the carry replaced by `carry`.
    pub open spec fn spec_with_carry(self, carry: bool) -> Snapshot {
        self.with_registers(self.r.spec_with_carry(carry))
    }

    /// The accumulator rotated left by one bit: bit 7 goes to bit 0 and to
    /// the carry.
    pub open spec fn spec_rotate_left(self) -> Snapshot {
        let a = self.r.a;
        self.with_registers(
            self.r.spec_set8(Name8::A, low8(2 * a + a / 0x80)).spec_with_carry(a >= 0x80),
        )
    }

    /// The accumulator rotated right by one bit: bit 0 goes to bit 7 and to
    /// the carry.
    pub open spec fn spec_rotate_right(self) -> Snapshot {
        let a = self.r.a;
        self.with_registers(
            self.r.spec_set8(Name8::A, low8(a / 2 + 0x80 * (a % 2))).spec_with_carry(a % 2 == 1),
        )
    }

    /// The accumulator rotated left through the carry: the carry goes to
    /// bit 0, bit 7 goes to the carry.
    pub open spec fn spec_rotate_left_through_carry(self) -> Snapshot {
        let a = self.r.a;
        self.with_registers(
            self.r.spec_set8(Name8::A, low8(2 * a + bit_of(self.r.cc.cy))).spec_with_carry(
                a >= 0x80,
            ),
        )
    }

    /// The accumulator rotated right through the carry: the carry goes to
    /// bit 7, bit 0 goes to the carry.
    pub open spec fn spec_rotate_right_through_carry(self) -> Snapshot {
        let a = self.r.a;
        self.with_registers(
            self.r.spec_set8(Name8::A, low8(a / 2 + 0x80 * bit_of(self.r.cc.cy))).spec_with_carry(
                a % 2 == 1,
            ),
        )
    }

    /// Decimal adjustment, in two steps. First, six is added to the
    /// accumulator if its low digit is above nine; no flag changes. Then,
    /// if the high digit is above nine, 0x60 is added as by an addition,
    /// flags included.
    pub open spec fn spec_decimal_adjust(self) -> Snapshot {
        let low_adjusted = if self.r.a % 0x10 > 9 {
            self.with_registers(self.r.spec_set8(Name8::A, low8(self.r.a + 6)))
        } else {
            self
        };
        if low_adjusted.r.a / 0x10 > 9 {
            low_adjusted.spec_add_ri8(0x60)
        } else {
            low_adjusted
        }
    }

    // Interrupts.

    pub open spec fn spec_set_interrupt_flag(self, target: bool) -> Snapshot {
        Snapshot { int_enable: target, ..self }
    }

    /// An interrupt calls the vector at eight times its number and disables
    /// further interrupts.
    pub open spec fn spec_trigger_interrupt(self, n: u16) -> Snapshot {
        self.spec_call_a(low16(8 * n)).spec_set_interrupt_flag(false)
    }

    // Fetching.

    /// The opcode at the program counter.
    pub open spec fn spec_opcode(self) -> u8 {
        self.byte_at(self.pc)
    }

    /// The instruction at the program counter: as many bytes as its opcode
    /// calls for, running on at the bottom of the memory where it reaches
    /// the top.
    pub open spec fn spec_instruction(self) -> Seq<u8> {
        Seq::new(
            instruction_length(self.spec_opcode()),
            |i: int| self.mem[(self.pc + i) % 0x1_0000],
        )
    }
}

} // verus!
