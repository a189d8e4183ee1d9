use virtual_cpu::i8080::instructions::{
    and8, apply_offset, byte_arg_from, dec16, dec8, inc16, inc8, not8, or8, predicate_for,
    register_for_code, word_arg_from, xor8,
};
use virtual_cpu::i8080::{Flags8080, Name8};

#[test]
fn register_codes_name_the_registers() {
    assert_eq!(register_for_code(0), Name8::B);
    assert_eq!(register_for_code(1), Name8::C);
    assert_eq!(register_for_code(2), Name8::D);
    assert_eq!(register_for_code(3), Name8::E);
    assert_eq!(register_for_code(4), Name8::H);
    assert_eq!(register_for_code(5), Name8::L);
    assert_eq!(register_for_code(7), Name8::A);
}

#[test]
fn register_codes_use_the_low_three_bits_only() {
    assert_eq!(register_for_code(0x78), Name8::B);
    assert_eq!(register_for_code(0x87), Name8::A);
    assert_eq!(register_for_code(0xfd), Name8::L);
}

#[test]
fn predicates_follow_the_condition_field() {
    let set = Flags8080 { z: true, s: true, p: true, cy: true, ac: false };
    let clear = Flags8080 { z: false, s: false, p: false, cy: false, ac: false };
    // opcodes 0xc0, 0xc8, ..., 0xf8 carry the conditions 0 to 7
    let expected_when_set = [false, true, false, true, false, true, false, true];
    for (condition, expected) in expected_when_set.iter().enumerate() {
        let opcode = 0xc0 + 8 * u8::try_from(condition).unwrap();
        assert_eq!(predicate_for(opcode)(&set), *expected);
        assert_eq!(predicate_for(opcode)(&clear), !*expected);
    }
}

#[test]
fn predicates_test_one_flag_each() {
    let only_carry = Flags8080 { z: false, s: false, p: false, cy: true, ac: false };
    assert!(predicate_for(0xc2)(&only_carry)); // not zero
    assert!(!predicate_for(0xca)(&only_carry)); // zero
    assert!(!predicate_for(0xd2)(&only_carry)); // no carry
    assert!(predicate_for(0xda)(&only_carry)); // carry
    assert!(predicate_for(0xe2)(&only_carry)); // parity odd
    assert!(!predicate_for(0xea)(&only_carry)); // parity even
    assert!(predicate_for(0xf2)(&only_carry)); // plus
    assert!(!predicate_for(0xfa)(&only_carry)); // minus
}

#[test]
fn operands_follow_the_opcode() {
    let instruction = [0x01, 0x34, 0x12];
    assert_eq!(word_arg_from(&instruction), 0x1234);
    assert_eq!(byte_arg_from(&instruction), 0x34);
    assert_eq!(byte_arg_from(&[0x06, 0x42]), 0x42);
}

#[test]
fn offsets_are_signed_and_wrap() {
    assert_eq!(apply_offset(0x1000, 0x00), 0x1000);
    assert_eq!(apply_offset(0x1000, 0x7f), 0x107f);
    assert_eq!(apply_offset(0x1000, 0x80), 0x0f80);
    assert_eq!(apply_offset(0x1000, 0xfe), 0x0ffe);
    assert_eq!(apply_offset(0x0000, 0xff), 0xffff);
    assert_eq!(apply_offset(0xffff, 0x01), 0x0000);
    assert_eq!(apply_offset(0xffff, 0x7f), 0x007e);
}

#[test]
fn logic_on_bytes() {
    assert_eq!(and8(0b1100, 0b1010), 0b1000);
    assert_eq!(xor8(0b1100, 0b1010), 0b0110);
    assert_eq!(or8(0b1100, 0b1010), 0b1110);
    assert_eq!(not8(0x0f), 0xf0);
}

#[test]
fn increments_and_decrements_wrap() {
    assert_eq!(inc8(0x41), 0x42);
    assert_eq!(inc8(0xff), 0x00);
    assert_eq!(dec8(0x42), 0x41);
    assert_eq!(dec8(0x00), 0xff);
    assert_eq!(inc16(0x00ff), 0x0100);
    assert_eq!(inc16(0xffff), 0x0000);
    assert_eq!(dec16(0x0100), 0x00ff);
    assert_eq!(dec16(0x0000), 0xffff);
}
