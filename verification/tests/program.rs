use virtual_cpu::capability::{Memory, Program, Stack};
use virtual_cpu::i8080::program::INSTRUCTION_LENGTH;
use virtual_cpu::i8080::{Memory8080, Program8080, Stack8080};

#[test]
fn the_counter_starts_at_zero() {
    assert_eq!(Program8080::new().get_pc(), 0);
    assert_eq!(Program8080::default().get_pc(), 0);
}

#[test]
fn lengths_follow_the_instruction_format() {
    assert_eq!(INSTRUCTION_LENGTH[0x00], 1); // NOP
    assert_eq!(INSTRUCTION_LENGTH[0x01], 3); // LXI B
    assert_eq!(INSTRUCTION_LENGTH[0x06], 2); // MVI B
    assert_eq!(INSTRUCTION_LENGTH[0x22], 3); // SHLD
    assert_eq!(INSTRUCTION_LENGTH[0x3a], 3); // LDA
    assert_eq!(INSTRUCTION_LENGTH[0x76], 1); // HLT
    assert_eq!(INSTRUCTION_LENGTH[0xc3], 3); // JMP
    assert_eq!(INSTRUCTION_LENGTH[0xc9], 1); // RET
    assert_eq!(INSTRUCTION_LENGTH[0xcd], 3); // CALL
    assert_eq!(INSTRUCTION_LENGTH[0xd3], 2); // OUT
    assert_eq!(INSTRUCTION_LENGTH[0xdb], 2); // IN
    assert_eq!(INSTRUCTION_LENGTH[0xfe], 2); // CPI
    assert!(INSTRUCTION_LENGTH.iter().all(|length| (1..=3).contains(length)));
    assert_eq!(INSTRUCTION_LENGTH.iter().filter(|length| **length == 3).count(), 30);
    assert_eq!(INSTRUCTION_LENGTH.iter().filter(|length| **length == 2).count(), 18);
}

#[test]
fn fetch_returns_the_whole_instruction() {
    let mut memory = Memory8080::new();
    memory.load(0x0000, &[0x00, 0x06, 0x42, 0x01, 0x34, 0x12]);
    let mut program = Program8080::new();
    assert_eq!(program.get_instruction(&memory), vec![0x00]);
    program.advance();
    assert_eq!(program.get_pc(), 1);
    assert_eq!(program.get_instruction(&memory), vec![0x06, 0x42]);
    program.advance();
    assert_eq!(program.get_pc(), 3);
    assert_eq!(program.get_instruction(&memory), vec![0x01, 0x34, 0x12]);
    program.advance();
    assert_eq!(program.get_pc(), 6);
}

#[test]
fn fetch_does_not_move_the_counter() {
    let mut memory = Memory8080::new();
    memory.load(0x0100, &[0xc3, 0x00, 0x20]);
    let mut program = Program8080::new();
    program.jump(0x0100);
    assert_eq!(program.get_instruction(&memory), vec![0xc3, 0x00, 0x20]);
    assert_eq!(program.get_pc(), 0x0100);
    assert_eq!(program.get_instruction(&memory), vec![0xc3, 0x00, 0x20]);
    assert_eq!(program.get_pc(), 0x0100);
}

#[test]
fn an_instruction_at_the_top_runs_on_at_the_bottom() {
    let mut memory = Memory8080::new();
    memory.set_byte(0xffff, 0x01);
    memory.set_byte(0x0000, 0x34);
    memory.set_byte(0x0001, 0x12);
    let mut program = Program8080::new();
    program.jump(0xffff);
    assert_eq!(program.get_instruction(&memory), vec![0x01, 0x34, 0x12]);
    program.advance();
    assert_eq!(program.get_pc(), 0x0002);

    memory.set_byte(0xfffe, 0x3e);
    memory.set_byte(0xffff, 0x99);
    program.jump(0xfffe);
    assert_eq!(program.get_instruction(&memory), vec![0x3e, 0x99]);
    program.advance();
    assert_eq!(program.get_pc(), 0x0000);
}

#[test]
fn advance_consumes_the_length_once() {
    let mut memory = Memory8080::new();
    memory.load(0x0000, &[0x01, 0x34, 0x12]);
    let mut program = Program8080::new();
    program.get_instruction(&memory);
    program.advance();
    assert_eq!(program.get_pc(), 3);
    program.advance();
    assert_eq!(program.get_pc(), 3);
}

#[test]
fn a_jump_clears_the_pending_length() {
    let mut memory = Memory8080::new();
    memory.load(0x0000, &[0xc3, 0x00, 0x20]);
    let mut program = Program8080::new();
    program.get_instruction(&memory);
    program.jump(0x2000);
    assert_eq!(program.get_pc(), 0x2000);
    program.advance();
    assert_eq!(program.get_pc(), 0x2000);
}

#[test]
fn call_pushes_the_address_after_the_instruction() {
    let mut memory = Memory8080::new();
    let mut stack = Stack8080::new();
    let mut program = Program8080::new();
    memory.load(0x0100, &[0xcd, 0x00, 0x20]);
    stack.set_sp(0x2400);
    program.jump(0x0100);
    program.get_instruction(&memory);
    program.call(&mut memory, &mut stack, 0x2000);
    assert_eq!(program.get_pc(), 0x2000);
    assert_eq!(stack.get_sp(), 0x23fe);
    assert_eq!(memory.get_word(0x23fe), 0x0103);
    program.advance();
    assert_eq!(program.get_pc(), 0x2000);
}

#[test]
fn ret_pops_the_address_it_jumps_to() {
    let mut memory = Memory8080::new();
    let mut stack = Stack8080::new();
    let mut program = Program8080::new();
    stack.set_sp(0x2400);
    stack.push_word(&mut memory, 0x0103);
    memory.set_byte(0x2000, 0xc9);
    program.jump(0x2000);
    program.get_instruction(&memory);
    program.ret(&mut memory, &mut stack);
    assert_eq!(program.get_pc(), 0x0103);
    assert_eq!(stack.get_sp(), 0x2400);
    program.advance();
    assert_eq!(program.get_pc(), 0x0103);
}

#[test]
fn call_then_ret_comes_back() {
    let mut memory = Memory8080::new();
    let mut stack = Stack8080::new();
    let mut program = Program8080::new();
    memory.load(0xfffe, &[0xcd, 0x00]);
    memory.set_byte(0x0000, 0x30);
    program.jump(0xfffe);
    program.get_instruction(&memory);
    program.call(&mut memory, &mut stack, 0x3000);
    assert_eq!(stack.get_sp(), 0xfffe);
    program.ret(&mut memory, &mut stack);
    assert_eq!(program.get_pc(), 0x0001);
    assert_eq!(stack.get_sp(), 0x0000);
}
