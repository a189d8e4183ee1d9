//! Laws of the processor model: what holds of every state, proved from
//! the meaning of the primitives and of the dispatcher.

use vstd::prelude::*;
use crate::bytes::{assemble_word, high_order_byte, low_order_byte};
use crate::capability::registers::{Registers16, Registers8};
use crate::i8080::flags::{even_parity, sign_bit};
use crate::i8080::instructions::{
    column_of,
    condition_holds,
    register_named,
    row_of,
    spec_word_arg_from,
};
use crate::i8080::model::{low16, Snapshot};
use crate::i8080::program::instruction_length;
use crate::i8080::registers::Name16;

verus! {

/// A byte that has been pushed is the byte on top of the stack, and
/// dropping it restores the stack pointer; the rest of the memory is as
/// it was.
pub proof fn lemma_push_then_pop_byte(state: Snapshot, val: u8)
    requires
        state.wf(),
    ensures
        state.spec_push_byte(val).byte_at(state.spec_push_byte(val).sp) == val,
        low16(state.spec_push_byte(val).sp + 1) == state.sp,
        forall|addr: u16|
            addr != state.spec_push_byte(val).sp ==> state.spec_push_byte(val).byte_at(addr)
                == state.byte_at(addr),
{
}

/// A word that has been pushed is the word that a pop delivers, whatever
/// the stack pointer was, and the pop restores the stack pointer.
pub proof fn lemma_push_then_pop_word(state: Snapshot, val: u16)
    requires
        state.wf(),
    ensures
        state.spec_push_word(val).spec_top_word() == val,
        state.spec_push_word(val).spec_drop_word().sp == state.sp,
        state.spec_push_word(val).wf(),
{
    let pushed = state.spec_push_word(val);
    assert(pushed.mem[pushed.sp as int] == low_order_byte(val));
    assert(pushed.mem[(pushed.sp + 1) % 0x1_0000] == high_order_byte(val));
}

/// Pushing a register pair and popping it again leaves the registers, the
/// flags and the stack pointer as they were.
pub proof fn lemma_push_then_pop_pair(state: Snapshot, pair: Name16)
    requires
        state.wf(),
    ensures
        state.spec_push_r16(pair).spec_pop_r16(pair).r == state.r,
        state.spec_push_r16(pair).spec_pop_r16(pair).sp == state.sp,
{
    lemma_push_then_pop_word(state, state.r.spec_get16(pair));
    crate::i8080::registers::lemma_restore_af(state.r);
}

/// A return after a call arrives at the instruction after the call, with
/// the stack pointer where it was before the call.
pub proof fn lemma_call_then_return(state: Snapshot, addr: u16)
    requires
        state.wf(),
    ensures
        state.spec_call_a(addr).pc == addr,
        state.spec_call_a(addr).spec_ret().pc == state.spec_return_address(),
        state.spec_call_a(addr).spec_ret().sp == state.sp,
{
    lemma_push_then_pop_word(state, state.spec_return_address());
}

/// After every operation on the accumulator, zero, sign and parity
/// describe the result in the accumulator; after a comparison, they
/// describe the difference.
pub proof fn lemma_derived_flags(state: Snapshot, result: u8, carry: bool)
    ensures
        state.spec_accumulate(result, carry).r.a == result,
        state.spec_accumulate(result, carry).r.cc.z == (result == 0),
        state.spec_accumulate(result, carry).r.cc.s == sign_bit(result),
        state.spec_accumulate(result, carry).r.cc.p == even_parity(result),
        state.spec_accumulate(result, carry).r.cc.cy == carry,
        state.spec_accumulate(result, carry).r.cc.ac == state.r.cc.ac,
{
}

/// The sign flag is bit 7 of the result.
pub proof fn lemma_sign_is_bit_seven(result: u8)
    ensures
        sign_bit(result) == (result & 0x80 != 0),
{
    assert((result >= 0x80) == (result & 0x80 != 0)) by (bit_vector);
}

/// A logical operation of the dispatcher (rows 4 to 6 of the accumulator
/// operations: and, exclusive or, or) clears the carry, whatever the carry
/// was before.
pub proof fn lemma_logical_clears_carry(state: Snapshot, opcode: u8, operand: u8)
    requires
        4 <= row_of(opcode) <= 6,
    ensures
        !state.spec_operate8(opcode, operand).r.cc.cy,
{
}

/// An increment or decrement of a register or of the memory cell (columns
/// 4 and 5 of the first group) leaves the carry as it was, whether the
/// value wraps around or not.
pub proof fn lemma_unary_math_keeps_carry(state: Snapshot, instruction: Seq<u8>)
    requires
        column_of(instruction[0]) == 4 || column_of(instruction[0]) == 5,
    ensures
        state.spec_group0(instruction).r.cc.cy == state.r.cc.cy,
{
}

/// A conditional call whose condition does not hold changes nothing: the
/// stack pointer stays and execution falls through. One whose condition
/// holds pushes the address of the next instruction and jumps to its
/// operand.
pub proof fn lemma_conditional_call(state: Snapshot, instruction: Seq<u8>)
    requires
        state.wf(),
    ensures
        !condition_holds(instruction[0], state.r.cc) ==> state.spec_call_if(instruction) == state,
        condition_holds(instruction[0], state.r.cc) ==> {
            let called = state.spec_call_if(instruction);
            &&& called.pc == spec_word_arg_from(instruction)
            &&& called.pending == 0
            &&& called.sp == low16(state.sp - 2)
            &&& called.spec_top_word() == state.spec_return_address()
        },
{
    lemma_push_then_pop_word(state, state.spec_return_address());
}

/// A conditional return whose condition does not hold changes nothing; one
/// whose condition holds jumps to the word on top of the stack and drops
/// it.
pub proof fn lemma_conditional_return(state: Snapshot, instruction: Seq<u8>)
    ensures
        !condition_holds(instruction[0], state.r.cc) ==> state.spec_ret_if(instruction) == state,
        condition_holds(instruction[0], state.r.cc) ==> {
            let returned = state.spec_ret_if(instruction);
            &&& returned.pc == state.spec_top_word()
            &&& returned.sp == low16(state.sp + 2)
        },
{
}

/// The instruction that is fetched starts with the opcode at the program
/// counter and is as long as the length table says.
pub proof fn lemma_fetch(state: Snapshot)
    requires
        state.wf(),
    ensures
        state.spec_instruction().len() == instruction_length(state.spec_opcode()),
        1 <= state.spec_instruction().len() <= 3,
        state.spec_instruction()[0] == state.spec_opcode(),
{
    crate::i8080::program::lemma_instruction_length_table(state.spec_opcode());
}

/// An instruction that does not transfer control (any of the first three
/// groups) moves the program counter by exactly its length and leaves no
/// instruction pending.
pub proof fn lemma_step_advances(state: Snapshot, input: u8)
    requires
        state.wf(),
        state.spec_opcode() < 0xc0,
    ensures
        state.spec_step(input).pc == low16(state.pc + instruction_length(state.spec_opcode())),
        state.spec_step(input).pending == 0,
{
    lemma_fetch(state);
}

/// A no-operation (column 0 of the first group) changes nothing but the
/// program counter, which moves by one.
pub proof fn lemma_step_no_operation(state: Snapshot, input: u8)
    requires
        state.wf(),
        state.spec_opcode() < 0x40,
        column_of(state.spec_opcode()) == 0,
    ensures
        state.spec_step(input) == (Snapshot { pc: low16(state.pc + 1), pending: 0, ..state }),
{
    lemma_fetch(state);
}

/// A load of a register pair with a 16-bit immediate (column 1, rows 0,
/// 2 and 4 of the first group) moves the program counter by three and
/// leaves in the pair the two bytes after the opcode, the first one as the
/// low half.
pub proof fn lemma_step_load_pair(state: Snapshot, input: u8, pair: Name16)
    requires
        state.wf(),
        state.spec_opcode() < 0x40,
        column_of(state.spec_opcode()) == 1,
        row_of(state.spec_opcode()) == 0 && pair == Name16::BC || row_of(state.spec_opcode()) == 2
            && pair == Name16::DE || row_of(state.spec_opcode()) == 4 && pair == Name16::HL,
    ensures
        state.spec_step(input).pc == low16(state.pc + 3),
        state.spec_step(input).r.spec_get16(pair) == assemble_word(
            state.byte_at(low16(state.pc + 2)),
            state.byte_at(low16(state.pc + 1)),
        ),
        state.spec_step(input).r == state.r.spec_set16(
            pair,
            state.spec_step(input).r.spec_get16(pair),
        ),
        state.spec_step(input).mem == state.mem,
        state.spec_step(input).sp == state.sp,
{
    lemma_fetch(state);
    crate::bytes::lemma_assemble_then_split(
        state.byte_at(low16(state.pc + 2)),
        state.byte_at(low16(state.pc + 1)),
    );
}

/// A load of a register with an 8-bit immediate (column 6 of the first
/// group, any row but 6) moves the program counter by two, leaves the byte
/// after the opcode in the register, and changes neither another register
/// nor a flag nor the memory.
pub proof fn lemma_step_load_register(state: Snapshot, input: u8)
    requires
        state.wf(),
        state.spec_opcode() < 0x40,
        column_of(state.spec_opcode()) == 6,
        row_of(state.spec_opcode()) != 6,
    ensures
        state.spec_step(input) == (Snapshot {
            pc: low16(state.pc + 2),
            pending: 0,
            r: state.r.spec_set8(
                register_named(row_of(state.spec_opcode())),
                state.byte_at(low16(state.pc + 1)),
            ),
            ..state
        }),
{
    lemma_fetch(state);
}

/// The byte that a port delivers matters to a port input only: every
/// other instruction does the same whatever it is.
pub proof fn lemma_input_matters_to_port_input_only(state: Snapshot, input: u8, other: u8)
    requires
        state.spec_opcode() != 0xdb,
    ensures
        state.spec_step(input) == state.spec_step(other),
{
}

} // verus!
