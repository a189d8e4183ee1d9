use virtual_cpu::capability::{Memory, Program, Registers16, Registers8, Stack};
use virtual_cpu::i8080::instructions::{and8, dec8, inc8, or8, predicate_for, xor8};
use virtual_cpu::i8080::{Flags8080, Name16, Name8, State8080};

fn flags(z: bool, s: bool, p: bool, cy: bool) -> Flags8080 {
    Flags8080 { z, s, p, cy, ac: false }
}

#[test]
fn a_new_state_is_blank() {
    let mut state = State8080::new();
    assert_eq!(state.p.get_pc(), 0);
    assert_eq!(state.s.get_sp(), 0);
    assert_eq!(state.r.get16(Name16::AF), 0);
    assert_eq!(state.r.get16(Name16::BC), 0);
    assert_eq!(state.r.get16(Name16::DE), 0);
    assert_eq!(state.r.get16(Name16::HL), 0);
    assert!(!state.get_interrupt_flag());
    assert!(state.m.view(0, 0xffff).iter().all(|byte| *byte == 0));
    assert!(!State8080::default().int_enable);
}

#[test]
fn moves_between_registers_and_immediates() {
    let mut state = State8080::new();
    state.mov_ri8(Name8::B, 0x42);
    assert_eq!(state.r.b, 0x42);
    state.mov_rr8(Name8::E, Name8::B);
    assert_eq!(state.r.e, 0x42);
    assert_eq!(state.r.b, 0x42);
    state.mov_ri16(Name16::HL, 0x1234);
    assert_eq!((state.r.h, state.r.l), (0x12, 0x34));
    state.mov_rr16(Name16::BC, Name16::HL);
    assert_eq!((state.r.b, state.r.c), (0x12, 0x34));
    assert_eq!(state.r.cc, Flags8080::new());
}

#[test]
fn moves_between_registers_and_memory() {
    let mut state = State8080::new();
    state.m.set_byte(0x2000, 0x99);
    state.mov_ri16(Name16::HL, 0x2000);
    state.mov_rp8(Name8::A, Name16::HL);
    assert_eq!(state.r.a, 0x99);
    assert_eq!(state.get_indirect8(Name16::HL), 0x99);

    state.mov_ra8(Name8::C, 0x2000);
    assert_eq!(state.r.c, 0x99);

    state.mov_ri16(Name16::DE, 0x3000);
    state.mov_pr8(Name16::DE, Name8::A);
    assert_eq!(state.m.get_byte(0x3000), 0x99);

    state.mov_pi8(Name16::DE, 0x11);
    assert_eq!(state.m.get_byte(0x3000), 0x11);

    state.mov_ar8(0x3001, Name8::C);
    assert_eq!(state.m.get_byte(0x3001), 0x99);
}

#[test]
fn word_moves_are_little_endian() {
    let mut state = State8080::new();
    state.mov_ri16(Name16::HL, 0xabcd);
    state.mov_ar16(0x4000, Name16::HL);
    assert_eq!(state.m.get_byte(0x4000), 0xcd);
    assert_eq!(state.m.get_byte(0x4001), 0xab);

    state.mov_ra16(Name16::DE, 0x4000);
    assert_eq!(state.r.get16(Name16::DE), 0xabcd);

    state.mov_ri16(Name16::BC, 0x4000);
    state.mov_rp16(Name16::HL, Name16::BC);
    assert_eq!(state.r.get16(Name16::HL), 0xabcd);

    state.mov_ri16(Name16::BC, 0x5000);
    state.mov_pr16(Name16::BC, Name16::DE);
    assert_eq!(state.m.get_word(0x5000), 0xabcd);
}

#[test]
fn addition_sets_carry_and_zero_on_overflow() {
    let mut state = State8080::new();
    state.r.a = 0xff;
    state.add_ri8(0x01);
    assert_eq!(state.r.a, 0x00);
    assert!(state.r.cc.z);
    assert!(state.r.cc.cy);
    assert!(!state.r.cc.s);
    assert!(state.r.cc.p);
}

#[test]
fn addition_without_overflow_clears_carry() {
    let mut state = State8080::new();
    state.r.a = 0x70;
    state.r.cc.cy = true;
    state.add_ri8(0x11);
    assert_eq!(state.r.a, 0x81);
    assert_eq!(state.r.cc, flags(false, true, true, false));

    state.mov_ri8(Name8::D, 0x7f);
    state.add_rr8(Name8::D);
    assert_eq!(state.r.a, 0x00);
    assert_eq!(state.r.cc, flags(true, false, true, true));
}

#[test]
fn subtraction_borrows_below_zero() {
    let mut state = State8080::new();
    state.r.a = 0x00;
    state.sub_ri8(0x01);
    assert_eq!(state.r.a, 0xff);
    assert!(state.r.cc.cy);
    assert!(!state.r.cc.z);
    assert!(state.r.cc.s);
    assert!(state.r.cc.p);
}

#[test]
fn subtraction_without_borrow_clears_carry() {
    let mut state = State8080::new();
    state.r.a = 0x42;
    state.r.cc.cy = true;
    state.sub_ri8(0x42);
    assert_eq!(state.r.a, 0x00);
    assert_eq!(state.r.cc, flags(true, false, true, false));
}

#[test]
fn add_with_carry_adds_the_carry_flag() {
    let mut state = State8080::new();
    state.r.a = 0x10;
    state.r.cc.cy = true;
    state.adc_ri8(0x20);
    assert_eq!(state.r.a, 0x31);
    assert_eq!(state.r.cc, flags(false, false, false, false));

    // the zero flag is no part of the sum
    state.r.a = 0x10;
    state.r.cc = flags(true, false, false, false);
    state.adc_ri8(0x20);
    assert_eq!(state.r.a, 0x30);

    state.r.a = 0xff;
    state.r.cc.cy = true;
    state.adc_ri8(0x00);
    assert_eq!(state.r.a, 0x00);
    assert_eq!(state.r.cc, flags(true, false, true, true));

    state.r.a = 0xff;
    state.r.cc.cy = true;
    state.adc_ri8(0xff);
    assert_eq!(state.r.a, 0xff);
    assert_eq!(state.r.cc, flags(false, true, true, true));
}

#[test]
fn subtract_with_borrow_subtracts_the_carry_flag() {
    let mut state = State8080::new();
    state.r.a = 0x10;
    state.r.cc.cy = true;
    state.sbb_ri8(0x01);
    assert_eq!(state.r.a, 0x0e);
    assert_eq!(state.r.cc, flags(false, false, false, false));

    state.r.a = 0x10;
    state.sbb_ri8(0x01);
    assert_eq!(state.r.a, 0x0f);

    state.r.a = 0x00;
    state.r.cc.cy = false;
    state.sbb_ri8(0x01);
    assert_eq!(state.r.a, 0xff);
    assert_eq!(state.r.cc, flags(false, true, true, true));

    // the borrow-in alone can make the difference fall below zero
    state.r.a = 0x05;
    state.r.cc.cy = true;
    state.sbb_ri8(0x05);
    assert_eq!(state.r.a, 0xff);
    assert_eq!(state.r.cc, flags(false, true, true, true));

    state.r.a = 0x00;
    state.r.cc.cy = true;
    state.sbb_ri8(0xff);
    assert_eq!(state.r.a, 0x00);
    assert_eq!(state.r.cc, flags(true, false, true, true));

    state.r.a = 0x06;
    state.r.cc.cy = true;
    state.sbb_ri8(0x05);
    assert_eq!(state.r.a, 0x00);
    assert_eq!(state.r.cc, flags(true, false, true, false));
}

#[test]
fn compare_sets_flags_and_keeps_the_accumulator() {
    let mut state = State8080::new();
    state.r.a = 0x05;
    state.cmp_ri8(0x06);
    assert_eq!(state.r.a, 0x05);
    assert_eq!(state.r.cc, flags(false, true, true, true));
    state.cmp_ri8(0x05);
    assert_eq!(state.r.a, 0x05);
    assert_eq!(state.r.cc, flags(true, false, true, false));
    state.cmp_ri8(0x01);
    assert_eq!(state.r.a, 0x05);
    assert_eq!(state.r.cc, flags(false, false, false, false));
}

#[test]
fn logical_operations_clear_the_carry() {
    let mut state = State8080::new();
    state.r.a = 0xff;
    state.add_ri8(0x02);
    assert!(state.r.cc.cy);
    state.logical_operation_ri(0x0f, and8);
    assert_eq!(state.r.a, 0x01);
    assert!(!state.r.cc.cy);

    state.r.a = 0xff;
    state.add_ri8(0x02);
    assert!(state.r.cc.cy);
    state.logical_operation_ri(0xf0, or8);
    assert_eq!(state.r.a, 0xf1);
    assert_eq!(state.r.cc, flags(false, true, false, false));

    state.r.a = 0xff;
    state.add_ri8(0x02);
    assert!(state.r.cc.cy);
    state.logical_operation_ri(0x01, xor8);
    assert_eq!(state.r.a, 0x00);
    assert_eq!(state.r.cc, flags(true, false, true, false));
}

#[test]
fn logical_operation_on_a_register() {
    let mut state = State8080::new();
    state.r.a = 0b1100_1100;
    state.r.l = 0b1010_1010;
    state.r.cc.cy = true;
    state.logical_operation_rr(Name8::L, and8);
    assert_eq!(state.r.a, 0b1000_1000);
    assert_eq!(state.r.l, 0b1010_1010);
    assert_eq!(state.r.cc, flags(false, true, true, false));
}

#[test]
fn increment_and_decrement_leave_the_carry() {
    let mut state = State8080::new();
    state.r.b = 0xff;
    state.r.cc.cy = true;
    state.unary_math_r8(Name8::B, inc8);
    assert_eq!(state.r.b, 0x00);
    assert_eq!(state.r.cc, flags(true, false, true, true));

    state.unary_math_r8(Name8::B, dec8);
    assert_eq!(state.r.b, 0xff);
    assert_eq!(state.r.cc, flags(false, true, true, true));

    state.r.cc.cy = false;
    state.r.c = 0xff;
    state.unary_math_r8(Name8::C, inc8);
    assert_eq!(state.r.c, 0x00);
    assert!(!state.r.cc.cy);
    state.unary_math_r8(Name8::C, dec8);
    assert_eq!(state.r.c, 0xff);
    assert!(!state.r.cc.cy);
}

#[test]
fn wide_addition_touches_the_carry_only() {
    let mut state = State8080::new();
    state.mov_ri16(Name16::HL, 0xffff);
    state.r.cc = flags(true, true, false, false);
    state.add_ri16(0x0001);
    assert_eq!(state.r.get16(Name16::HL), 0x0000);
    assert_eq!(state.r.cc, flags(true, true, false, true));

    state.mov_ri16(Name16::HL, 0x1000);
    state.mov_ri16(Name16::DE, 0x0234);
    state.add_rr16(Name16::DE);
    assert_eq!(state.r.get16(Name16::HL), 0x1234);
    assert_eq!(state.r.cc, flags(true, true, false, false));

    state.mov_ri16(Name16::HL, 0x8000);
    state.add_rr16(Name16::HL);
    assert_eq!(state.r.get16(Name16::HL), 0x0000);
    assert!(state.r.cc.cy);
}

#[test]
fn rotations_move_one_bit() {
    let mut state = State8080::new();
    state.r.a = 0x85;
    state.rotate_left();
    assert_eq!(state.r.a, 0x0b);
    assert!(state.r.cc.cy);

    state.r.a = 0x01;
    state.rotate_right();
    assert_eq!(state.r.a, 0x80);
    assert!(state.r.cc.cy);

    state.r.a = 0x80;
    state.r.cc.cy = false;
    state.rotate_left_through_carry();
    assert_eq!(state.r.a, 0x00);
    assert!(state.r.cc.cy);
    state.rotate_left_through_carry();
    assert_eq!(state.r.a, 0x01);
    assert!(!state.r.cc.cy);

    state.r.a = 0x01;
    state.r.cc.cy = true;
    state.rotate_right_through_carry();
    assert_eq!(state.r.a, 0x80);
    assert!(state.r.cc.cy);
    state.r.a = 0x02;
    state.r.cc.cy = false;
    state.rotate_right_through_carry();
    assert_eq!(state.r.a, 0x01);
    assert!(!state.r.cc.cy);
}

#[test]
fn rotations_leave_zero_sign_and_parity() {
    let mut state = State8080::new();
    state.r.cc = flags(true, true, true, false);
    state.r.a = 0x40;
    state.rotate_left();
    assert_eq!(state.r.a, 0x80);
    assert_eq!(state.r.cc, flags(true, true, true, false));
}

#[test]
fn decimal_adjust_corrects_both_digits() {
    let mut state = State8080::new();
    state.r.a = 0x9b;
    state.decimal_adjust();
    assert_eq!(state.r.a, 0x01);
    assert_eq!(state.r.cc, flags(false, false, false, true));

    let mut state = State8080::new();
    state.r.a = 0x0a;
    state.r.cc = flags(true, true, false, true);
    state.decimal_adjust();
    assert_eq!(state.r.a, 0x10);
    assert_eq!(state.r.cc, flags(true, true, false, true));

    let mut state = State8080::new();
    state.r.a = 0x45;
    state.decimal_adjust();
    assert_eq!(state.r.a, 0x45);
    assert_eq!(state.r.cc, Flags8080::new());

    let mut state = State8080::new();
    state.r.a = 0xa0;
    state.decimal_adjust();
    assert_eq!(state.r.a, 0x00);
    assert_eq!(state.r.cc, flags(true, false, true, true));

    let mut state = State8080::new();
    state.r.a = 0xfa;
    state.decimal_adjust();
    assert_eq!(state.r.a, 0x00);
    assert_eq!(state.r.cc, Flags8080::new());
}

#[test]
fn pushing_and_popping_pairs() {
    let mut state = State8080::new();
    state.s.set_sp(0x2400);
    state.mov_ri16(Name16::BC, 0x1234);
    state.push_r16(Name16::BC);
    assert_eq!(state.s.get_sp(), 0x23fe);
    assert_eq!(state.m.get_byte(0x23fe), 0x34);
    assert_eq!(state.m.get_byte(0x23ff), 0x12);
    state.pop_r16(Name16::DE);
    assert_eq!(state.r.get16(Name16::DE), 0x1234);
    assert_eq!(state.s.get_sp(), 0x2400);

    state.push_word(0xbeef);
    assert_eq!(state.pop_word(), 0xbeef);
    assert_eq!(state.s.get_sp(), 0x2400);
}

#[test]
fn pushing_and_popping_the_flags_pair() {
    let mut state = State8080::new();
    state.s.set_sp(0x2400);
    state.r.a = 0x7e;
    state.r.cc = Flags8080 { z: true, s: false, p: true, cy: false, ac: true };
    state.push_r16(Name16::AF);
    assert_eq!(state.m.get_byte(0x23ff), 0x7e);
    assert_eq!(state.m.get_byte(0x23fe), 0x15);
    state.r.a = 0;
    state.r.cc = Flags8080::new();
    state.pop_r16(Name16::AF);
    assert_eq!(state.r.a, 0x7e);
    assert_eq!(state.r.cc, Flags8080 { z: true, s: false, p: true, cy: false, ac: true });
    assert_eq!(state.s.get_sp(), 0x2400);
}

#[test]
fn jumps_calls_and_returns() {
    let mut state = State8080::new();
    state.s.set_sp(0x2400);
    state.m.load(0x0100, &[0xcd, 0x00, 0x20]);
    state.jump_a(0x0100);
    assert_eq!(state.p.get_pc(), 0x0100);
    assert_eq!(state.get_instruction(), vec![0xcd, 0x00, 0x20]);
    state.call_a(0x2000);
    assert_eq!(state.p.get_pc(), 0x2000);
    assert_eq!(state.s.get_sp(), 0x23fe);
    assert_eq!(state.m.get_word(0x23fe), 0x0103);
    state.ret();
    assert_eq!(state.p.get_pc(), 0x0103);
    assert_eq!(state.s.get_sp(), 0x2400);
}

#[test]
fn test_flags_applies_the_predicate() {
    let mut state = State8080::new();
    assert!(state.test_flags(predicate_for(0xc2)));
    assert!(!state.test_flags(predicate_for(0xca)));
    state.r.cc.z = true;
    assert!(!state.test_flags(predicate_for(0xc2)));
    assert!(state.test_flags(predicate_for(0xca)));
    assert!(state.test_flags(|flags| flags.z && !flags.cy));
}

#[test]
fn conditional_transfers_follow_the_flags() {
    let mut state = State8080::new();
    state.s.set_sp(0x2400);
    state.r.cc.cy = true;

    // JNC does not jump, JC does
    state.jump_if(&[0xd2, 0x00, 0x30]);
    assert_eq!(state.p.get_pc(), 0x0000);
    state.jump_if(&[0xda, 0x00, 0x30]);
    assert_eq!(state.p.get_pc(), 0x3000);

    // CNC does not call, CC does
    state.call_if(&[0xd4, 0x00, 0x40]);
    assert_eq!(state.p.get_pc(), 0x3000);
    assert_eq!(state.s.get_sp(), 0x2400);
    state.call_if(&[0xdc, 0x00, 0x40]);
    assert_eq!(state.p.get_pc(), 0x4000);
    assert_eq!(state.s.get_sp(), 0x23fe);
    assert_eq!(state.m.get_word(0x23fe), 0x3000);

    // RNC does not return, RC does
    state.ret_if(&[0xd0]);
    assert_eq!(state.p.get_pc(), 0x4000);
    assert_eq!(state.s.get_sp(), 0x23fe);
    state.ret_if(&[0xd8]);
    assert_eq!(state.p.get_pc(), 0x3000);
    assert_eq!(state.s.get_sp(), 0x2400);
}

#[test]
fn interrupts_call_their_vector_and_disable_themselves() {
    let mut state = State8080::new();
    state.s.set_sp(0x2400);
    state.jump_a(0x1234);
    state.set_interrupt_flag(true);
    assert!(state.get_interrupt_flag());
    state.trigger_interrupt(2);
    assert_eq!(state.p.get_pc(), 0x0010);
    assert!(!state.get_interrupt_flag());
    assert_eq!(state.s.get_sp(), 0x23fe);
    assert_eq!(state.m.get_word(0x23fe), 0x1234);

    state.trigger_interrupt(0);
    assert_eq!(state.p.get_pc(), 0x0000);
    assert_eq!(state.m.get_word(0x23fc), 0x0010);
    state.trigger_interrupt(7);
    assert_eq!(state.p.get_pc(), 0x0038);
    state.trigger_interrupt(8191);
    assert_eq!(state.p.get_pc(), 0xfff8);
}
