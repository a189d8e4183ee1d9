//! Decoding helpers: the fields of an opcode, the operands that follow it,
//! and the small arithmetic functions that instructions apply.

use vstd::prelude::*;
use crate::bytes::assemble_word;
use crate::i8080::flags::Flags8080;
use crate::i8080::registers::Name8;

verus! {

/// The column of an opcode: its low three bits.
pub open spec fn column_of(opcode: u8) -> u8 {
    opcode % 8
}

/// The row of an opcode: its bits 3 to 5.
pub open spec fn row_of(opcode: u8) -> u8 {
    (opcode / 8) % 8
}

/// Whether a row has an even number.
pub open spec fn is_even_row(row: u8) -> bool {
    row == 0 || row == 2 || row == 4 || row == 6
}

/// The register that the low three bits of `code` name.
pub open spec fn spec_register_for_code(code: u8) -> Name8 {
    register_named(code % 8)
}

/// The register that a 3-bit register field names. The value 6 names no
/// register: it stands for the memory cell that `HL` points to.
pub open spec fn register_named(field: u8) -> Name8 {
    if field == 0 {
        Name8::B
    } else if field == 1 {
        Name8::C
    } else if field == 2 {
        Name8::D
    } else if field == 3 {
        Name8::E
    } else if field == 4 {
        Name8::H
    } else if field == 5 {
        Name8::L
    } else {
        Name8::A
    }
}

/// Whether the condition that bits 3 to 5 of `opcode` select holds of
/// `flags`: not zero, zero, no carry, carry, parity odd, parity even, plus,
/// minus, in this order.
pub open spec fn condition_holds(opcode: u8, flags: Flags8080) -> bool {
    let condition = row_of(opcode);
    if condition == 0 {
        !flags.z
    } else if condition == 1 {
        flags.z
    } else if condition == 2 {
        !flags.cy
    } else if condition == 3 {
        flags.cy
    } else if condition == 4 {
        !flags.p
    } else if condition == 5 {
        flags.p
    } else if condition == 6 {
        !flags.s
    } else {
        flags.s
    }
}

/// The 16-bit operand of an instruction: its second byte is the low half,
/// its third byte the high half.
pub open spec fn spec_word_arg_from(instruction: Seq<u8>) -> u16 {
    assemble_word(instruction[2], instruction[1])
}

/// The 8-bit operand of an instruction: its second byte.
pub open spec fn spec_byte_arg_from(instruction: Seq<u8>) -> u8 {
    instruction[1]
}

/// `offset` read as a signed number in two's complement.
pub open spec fn signed_offset(offset: u8) -> int {
    if offset < 0x80 {
        offset as int
    } else {
        offset - 0x100
    }
}

/// `base` moved by the signed `offset`, wrapping around the address space.
pub open spec fn spec_apply_offset(base: u16, offset: u8) -> u16 {
    ((base + signed_offset(offset)) % 0x1_0000) as u16
}

/// One more than `n`, wrapping around at eight bits.
pub open spec fn spec_inc8(n: u8) -> u8 {
    ((n + 1) % 0x100) as u8
}

/// One less than `n`, wrapping around at eight bits.
pub open spec fn spec_dec8(n: u8) -> u8 {
    ((n - 1) % 0x100) as u8
}

/// One more than `n`, wrapping around at sixteen bits.
pub open spec fn spec_inc16(n: u16) -> u16 {
    ((n + 1) % 0x1_0000) as u16
}

/// One less than `n`, wrapping around at sixteen bits.
pub open spec fn spec_dec16(n: u16) -> u16 {
    ((n - 1) % 0x1_0000) as u16
}

/// The fields of an opcode, as bit operations extract them: the column is
/// the low three bits, the row the three bits above them, and the low six
/// bits hold eight times the row plus the column.
pub proof fn lemma_fields(opcode: u8)
    ensures
        opcode & 0x07 == column_of(opcode),
        (opcode >> 3) & 0x07 == row_of(opcode),
        opcode & 0x38 == 8 * row_of(opcode),
        opcode & 0x3f == 8 * row_of(opcode) + column_of(opcode),
        opcode & 0x3f == opcode % 0x40,
        column_of(opcode) < 8,
        row_of(opcode) < 8,
        row_of(opcode) == 0 <==> opcode & 0x3f < 0x08,
        row_of(opcode) == 1 <==> 0x08 <= opcode & 0x3f < 0x10,
        row_of(opcode) == 2 <==> 0x10 <= opcode & 0x3f < 0x18,
        row_of(opcode) == 3 <==> 0x18 <= opcode & 0x3f < 0x20,
        row_of(opcode) == 4 <==> 0x20 <= opcode & 0x3f < 0x28,
        row_of(opcode) == 5 <==> 0x28 <= opcode & 0x3f < 0x30,
        row_of(opcode) == 6 <==> 0x30 <= opcode & 0x3f < 0x38,
        row_of(opcode) == 7 <==> 0x38 <= opcode & 0x3f,
{
    assert(opcode & 0x07 == opcode % 8) by (bit_vector);
    assert((opcode >> 3) & 0x07 == (opcode / 8) % 8) by (bit_vector);
    assert(opcode & 0x38 == 8 * ((opcode / 8) % 8)) by (bit_vector);
    assert(opcode & 0x3f == 8 * ((opcode / 8) % 8) + opcode % 8) by (bit_vector);
    assert(opcode & 0x3f == opcode % 0x40) by (bit_vector);
}

/// The register that the low three bits of `code` name.
pub fn register_for_code(code: u8) -> (reg: Name8)
    requires
        code % 8 != 6,
    ensures
        reg == spec_register_for_code(code),
        code < 8 ==> reg == register_named(code),
{
    proof {
        lemma_fields(code);
    }
    match code & 0x07 {
        0x0 => Name8::B,
        0x1 => Name8::C,
        0x2 => Name8::D,
        0x3 => Name8::E,
        0x4 => Name8::H,
        0x5 => Name8::L,
        _ => Name8::A,
    }
}

/// The test that the condition field of `opcode` selects, as a function of
/// the flags.
pub fn predicate_for(opcode: u8) -> (predicate: impl Fn(&Flags8080) -> bool)
    ensures
        forall|flags: &Flags8080| call_requires(predicate, (flags,)),
        forall|flags: &Flags8080, holds: bool|
            call_ensures(predicate, (flags,), holds) ==> holds == condition_holds(opcode, *flags),
{
    proof {
        lemma_fields(opcode);
    }
    let condition = (opcode >> 3) & 0x07;
    move |flags: &Flags8080| -> (holds: bool)
        ensures
            holds == condition_holds(opcode, *flags),
        {
            match condition {
                0x0 => flags.is_nz(),
                0x1 => flags.is_z(),
                0x2 => flags.is_nc(),
                0x3 => flags.is_c(),
                0x4 => flags.is_parity_odd(),
                0x5 => flags.is_parity_even(),
                0x6 => flags.is_plus(),
                _ => flags.is_minus(),
            }
        }
}

/// The 16-bit operand of a three-byte instruction.
pub fn word_arg_from(instruction: &[u8]) -> (word: u16)
    requires
        instruction@.len() >= 3,
    ensures
        word == spec_word_arg_from(instruction@),
{
    assemble_word(instruction[2], instruction[1])
}

/// The 8-bit operand of an instruction of two bytes or more.
pub fn byte_arg_from(instruction: &[u8]) -> (byte: u8)
    requires
        instruction@.len() >= 2,
    ensures
        byte == spec_byte_arg_from(instruction@),
{
    instruction[1]
}

/// Moves `base` by `offset`, read as a signed number; the result wraps
/// around the address space.
pub fn apply_offset(base: u16, offset: u8) -> (target: u16)
    ensures
        target == spec_apply_offset(base, offset),
{
    if offset < 0x80 {
        base.wrapping_add(offset as u16)
    } else {
        base.wrapping_sub(0x100 - offset as u16)
    }
}

/// The bitwise complement of `a`.
pub fn not8(a: u8) -> (result: u8)
    ensures
        result == !a,
{
    !a
}

/// The bitwise and of `a` and `b`.
pub fn and8(a: u8, b: u8) -> (result: u8)
    ensures
        result == a & b,
{
    a & b
}

/// The bitwise exclusive or of `a` and `b`.
pub fn xor8(a: u8, b: u8) -> (result: u8)
    ensures
        result == a ^ b,
{
    a ^ b
}

/// The bitwise or of `a` and `b`.
pub fn or8(a: u8, b: u8) -> (result: u8)
    ensures
        result == a | b,
{
    a | b
}

/// One more than `n`; zero after 0xff.
#[verifier::when_used_as_spec(spec_inc8)]
pub fn inc8(n: u8) -> (result: u8)
    ensures
        result == spec_inc8(n),
{
    n.wrapping_add(1)
}

/// One more than `n`; zero after 0xffff.
#[verifier::when_used_as_spec(spec_inc16)]
pub fn inc16(n: u16) -> (result: u16)
    ensures
        result == spec_inc16(n),
{
    n.wrapping_add(1)
}

/// One less than `n`; 0xff before zero.
#[verifier::when_used_as_spec(spec_dec8)]
pub fn dec8(n: u8) -> (result: u8)
    ensures
        result == spec_dec8(n),
{
    n.wrapping_sub(1)
}

/// One less than `n`; 0xffff before zero.
#[verifier::when_used_as_spec(spec_dec16)]
pub fn dec16(n: u16) -> (result: u16)
    ensures
        result == spec_dec16(n),
{
    n.wrapping_sub(1)
}

} // verus!
