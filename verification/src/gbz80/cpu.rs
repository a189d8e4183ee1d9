//! The instruction dispatcher of the handheld-console processor. It works
//! on the state of the 8080 and shares most of its instructions; it
//! differs where the two instruction sets do, and it executes fewer
//! opcodes.

use vstd::prelude::*;
use crate::capability::memory::Memory;
use crate::capability::program::Program;
use crate::capability::registers::{Registers16, Registers8};
use crate::capability::stack::Stack;
use crate::i8080::cpu::{
    cycles_of,
    get_operand,
    in_group0,
    is_halt,
    is_six_bit,
    lemma_six_bit_values,
    mov_for,
    operate8,
    OPCODE_TIMING,
};
use crate::i8080::instructions::{
    and8,
    byte_arg_from,
    column_of,
    dec16,
    dec8,
    inc16,
    inc8,
    lemma_fields,
    not8,
    or8,
    row_of,
    spec_dec16,
    spec_inc16,
    spec_word_arg_from,
    word_arg_from,
    xor8,
};
use crate::i8080::model::Snapshot;
use crate::i8080::program::{instruction_length, lemma_instruction_length_table};
use crate::i8080::registers::{Name16, Name8};
use crate::i8080::state::State8080;

verus! {

/// Whether the dispatcher executes the instruction of the first group with
/// this row and column. In column 0 it executes rows 0 and 1 only: the
/// stop and the relative jumps of the other rows are left out.
pub open spec fn executes_group0(opcode: u8) -> bool {
    column_of(opcode) != 0 || row_of(opcode) <= 1
}

/// Whether the dispatcher executes the instruction of the last group with
/// this row and column.
pub open spec fn executes_group3(opcode: u8) -> bool {
    let column = column_of(opcode);
    let row = row_of(opcode);
    if column == 0 || column == 4 {
        row <= 3
    } else if column == 1 {
        row != 3 && row != 5
    } else if column == 2 {
        row != 4 && row != 6
    } else if column == 3 {
        row == 0 || row == 6 || row == 7
    } else if column == 5 {
        row != 3 && row != 5 && row != 7
    } else {
        true
    }
}

/// How many bytes an instruction of the first group needs to be executed:
/// its opcode and the operand bytes that are read.
pub open spec fn group0_length(opcode: u8) -> nat {
    if column_of(opcode) == 0 && row_of(opcode) == 1 {
        3
    } else if column_of(opcode) == 2 && row_of(opcode) >= 4 {
        1
    } else {
        instruction_length(in_group0(opcode))
    }
}

/// Whether the step function executes the instruction with this opcode.
/// Besides the opcodes that the groups leave out, it cannot execute the
/// store of the stack pointer (0x08): a fetch delivers one byte for it,
/// where the instruction reads a 16-bit address.
pub open spec fn spec_is_implemented(opcode: u8) -> bool {
    if opcode < 0x40 {
        executes_group0(opcode) && opcode != 0x08
    } else if opcode < 0x80 {
        !is_halt(opcode)
    } else if opcode < 0xc0 {
        true
    } else {
        executes_group3(opcode)
    }
}

/// Whether `opcode` is one of the sixty-four opcodes of the last group,
/// spelled out opcode by opcode.
#[verifier::inline]
pub open spec fn is_last_group(opcode: u8) -> bool {
    opcode == 0xc0 || opcode == 0xc1 || opcode == 0xc2 || opcode == 0xc3
    || opcode == 0xc4 || opcode == 0xc5 || opcode == 0xc6 || opcode == 0xc7
    || opcode == 0xc8 || opcode == 0xc9 || opcode == 0xca || opcode == 0xcb
    || opcode == 0xcc || opcode == 0xcd || opcode == 0xce || opcode == 0xcf
    || opcode == 0xd0 || opcode == 0xd1 || opcode == 0xd2 || opcode == 0xd3
    || opcode == 0xd4 || opcode == 0xd5 || opcode == 0xd6 || opcode == 0xd7
    || opcode == 0xd8 || opcode == 0xd9 || opcode == 0xda || opcode == 0xdb
    || opcode == 0xdc || opcode == 0xdd || opcode == 0xde || opcode == 0xdf
    || opcode == 0xe0 || opcode == 0xe1 || opcode == 0xe2 || opcode == 0xe3
    || opcode == 0xe4 || opcode == 0xe5 || opcode == 0xe6 || opcode == 0xe7
    || opcode == 0xe8 || opcode == 0xe9 || opcode == 0xea || opcode == 0xeb
    || opcode == 0xec || opcode == 0xed || opcode == 0xee || opcode == 0xef
    || opcode == 0xf0 || opcode == 0xf1 || opcode == 0xf2 || opcode == 0xf3
    || opcode == 0xf4 || opcode == 0xf5 || opcode == 0xf6 || opcode == 0xf7
    || opcode == 0xf8 || opcode == 0xf9 || opcode == 0xfa || opcode == 0xfb
    || opcode == 0xfc || opcode == 0xfd || opcode == 0xfe || opcode == 0xff
}

/// Every opcode from 0xc0 on is one of the sixty-four of the last group,
/// and its low six bits are its distance from 0xc0.
pub proof fn lemma_last_group(opcode: u8)
    by (bit_vector)
    requires
        opcode >= 0xc0,
    ensures
        is_last_group(opcode),
        opcode & 0x3f == opcode - 0xc0,
{
}

impl Snapshot {
    /// The state after `HL` has been replaced by `val`.
    pub open spec fn spec_with_hl(self, val: u16) -> Snapshot {
        self.spec_mov_ri16(Name16::HL, val)
    }

    /// Column 2, rows 4 to 7 of the first group: a transfer between the
    /// accumulator and the byte that `HL` points to, after which `HL` moves
    /// up (rows 4 and 5) or down (rows 6 and 7) by one.
    pub open spec fn spec_gb_transfer_and_step(self, row: u8) -> Snapshot {
        let transferred = if row == 4 || row == 6 {
            self.spec_mov_pr8(Name16::HL, Name8::A)
        } else {
            self.spec_mov_rp8(Name8::A, Name16::HL)
        };
        let pointer = transferred.r.spec_get16(Name16::HL);
        if row <= 5 {
            transferred.spec_with_hl(spec_inc16(pointer))
        } else {
            transferred.spec_with_hl(spec_dec16(pointer))
        }
    }

    /// An instruction of the first group. It is what the 8080 makes of
    /// the opcode, with three exceptions: 0x08 stores the stack pointer at
    /// the 16-bit operand, rows 4 to 7 of column 2 transfer through `HL` and
    /// step it, and 0x3f clears the carry.
    pub open spec fn spec_gb_group0(self, instruction: Seq<u8>) -> Snapshot {
        let opcode = instruction[0];
        let column = column_of(opcode);
        let row = row_of(opcode);
        if column == 0 && row == 1 {
            self.store_word(spec_word_arg_from(instruction), self.sp)
        } else if column == 2 && row >= 4 {
            self.spec_gb_transfer_and_step(row)
        } else if column == 7 && row == 7 {
            self.spec_with_carry(false)
        } else {
            self.spec_group0(instruction)
        }
    }

    /// An instruction of the last group. It is what the 8080 makes of the
    /// opcode, with two exceptions: 0xea stores the accumulator at the
    /// 16-bit operand, and 0xfa loads it from there.
    pub open spec fn spec_gb_group3(self, instruction: Seq<u8>) -> Snapshot {
        let opcode = instruction[0];
        let column = column_of(opcode);
        let row = row_of(opcode);
        if column == 2 && row == 5 {
            self.spec_mov_ar8(spec_word_arg_from(instruction), Name8::A)
        } else if column == 2 && row == 7 {
            self.spec_mov_ra8(Name8::A, spec_word_arg_from(instruction))
        } else {
            self.spec_group3(instruction, 0)
        }
    }

    /// What the instruction at hand does to the state, once it has been
    /// fetched and before the counter moves past it.
    pub open spec fn spec_gb_execute(self, instruction: Seq<u8>) -> Snapshot {
        let opcode = instruction[0];
        if opcode < 0x40 {
            self.spec_gb_group0(instruction)
        } else if opcode < 0x80 {
            self.spec_mov_for(opcode)
        } else if opcode < 0xc0 {
            self.spec_operate8(opcode, self.spec_operand(opcode))
        } else {
            self.spec_gb_group3(instruction)
        }
    }

    /// One whole instruction: fetch, execute, and move the counter past
    /// it unless the instruction itself has transferred control.
    pub open spec fn spec_gb_step(self) -> Snapshot {
        let instruction = self.spec_instruction();
        self.spec_fetched(instruction.len()).spec_gb_execute(instruction).spec_advance()
    }
}

/// Whether the step function executes the instruction with this opcode.
#[verifier::when_used_as_spec(spec_is_implemented)]
pub fn is_implemented(opcode: u8) -> (implemented: bool)
    ensures
        implemented == spec_is_implemented(opcode),
{
    match opcode {
        0x08 | 0x10 | 0x18 | 0x20 | 0x28 | 0x30 | 0x38 | 0x76 => false,
        0xcb | 0xd3 | 0xd9 | 0xdb | 0xdd => false,
        0xe0 | 0xe2 | 0xe3 | 0xe4 | 0xe8 | 0xe9 | 0xeb | 0xec | 0xed => false,
        0xf0 | 0xf2 | 0xf4 | 0xf8 | 0xfc | 0xfd => false,
        _ => true,
    }
}

/// Executes an instruction of the first group. Only the low six bits of
/// the opcode are looked at. `instruction` must hold the operand bytes that
/// are read, and the opcode must be one that the dispatcher executes.
pub fn emulate_group0(instruction: &[u8], s: &mut State8080)
    requires
        instruction@.len() >= 1,
        instruction@.len() >= group0_length(instruction@[0]),
        executes_group0(instruction@[0]),
    ensures
        final(s)@ == old(s)@.spec_gb_group0(instruction@),
{
    let opcode = instruction[0];
    proof {
        lemma_six_bit_values(opcode);
    }
    dispatch_group0(opcode & 0x3f, instruction, s)
}

/// Executes the instruction of the first group that `selector` picks:
/// the low six bits of the opcode, which index the group as a dense table.
fn dispatch_group0(selector: u8, instruction: &[u8], s: &mut State8080)
    requires
        instruction@.len() >= 1,
        instruction@.len() >= group0_length(instruction@[0]),
        executes_group0(instruction@[0]),
        selector == instruction@[0] & 0x3f,
        is_six_bit(selector),
    ensures
        final(s)@ == old(s)@.spec_gb_group0(instruction@),
{
    proof {
        lemma_fields(instruction@[0]);
    }

    match selector {
        0x00 => (),  // NOP
        0x01 => s.mov_ri16(Name16::BC, word_arg_from(instruction)),  // LD BC,nn
        0x02 => s.mov_pr8(Name16::BC, Name8::A),  // LD (BC),A
        0x03 => s.r.update16(Name16::BC, inc16),  // INC BC
        0x04 => s.unary_math_r8(Name8::B, inc8),  // INC B
        0x05 => s.unary_math_r8(Name8::B, dec8),  // DEC B
        0x06 => s.mov_ri8(Name8::B, byte_arg_from(instruction)),  // LD B,n
        0x07 => s.rotate_left(),  // RLC A
        0x08 => {
            // LD (nn),SP
            let sp = s.s.get_sp();
            s.m.set_word(word_arg_from(instruction), sp);
        },
        0x09 => s.add_rr16(Name16::BC),  // ADD HL,BC
        0x0a => s.mov_rp8(Name8::A, Name16::BC),  // LD A,(BC)
        0x0b => s.r.update16(Name16::BC, dec16),  // DEC BC
        0x0c => s.unary_math_r8(Name8::C, inc8),  // INC C
        0x0d => s.unary_math_r8(Name8::C, dec8),  // DEC C
        0x0e => s.mov_ri8(Name8::C, byte_arg_from(instruction)),  // LD C,n
        0x0f => s.rotate_right(),  // RRC A
        0x11 => s.mov_ri16(Name16::DE, word_arg_from(instruction)),  // LD DE,nn
        0x12 => s.mov_pr8(Name16::DE, Name8::A),  // LD (DE),A
        0x13 => s.r.update16(Name16::DE, inc16),  // INC DE
        0x14 => s.unary_math_r8(Name8::D, inc8),  // INC D
        0x15 => s.unary_math_r8(Name8::D, dec8),  // DEC D
        0x16 => s.mov_ri8(Name8::D, byte_arg_from(instruction)),  // LD D,n
        0x17 => s.rotate_left_through_carry(),  // RL A
        0x19 => s.add_rr16(Name16::DE),  // ADD HL,DE
        0x1a => s.mov_rp8(Name8::A, Name16::DE),  // LD A,(DE)
        0x1b => s.r.update16(Name16::DE, dec16),  // DEC DE
        0x1c => s.unary_math_r8(Name8::E, inc8),  // INC E
        0x1d => s.unary_math_r8(Name8::E, dec8),  // DEC E
        0x1e => s.mov_ri8(Name8::E, byte_arg_from(instruction)),  // LD E,n
        0x1f => s.rotate_right_through_carry(),  // RR A
        0x21 => s.mov_ri16(Name16::HL, word_arg_from(instruction)),  // LD HL,nn
        0x22 => {
            // LDI (HL),A
            s.mov_pr8(Name16::HL, Name8::A);
            s.r.update16(Name16::HL, inc16);
        },
        0x23 => s.r.update16(Name16::HL, inc16),  // INC HL
        0x24 => s.unary_math_r8(Name8::H, inc8),  // INC H
        0x25 => s.unary_math_r8(Name8::H, dec8),  // DEC H
        0x26 => s.mov_ri8(Name8::H, byte_arg_from(instruction)),  // LD H,n
        0x27 => s.decimal_adjust(),  // DAA
        0x29 => s.add_rr16(Name16::HL),  // ADD HL,HL
        0x2a => {
            // LDI A,(HL)
            s.mov_rp8(Name8::A, Name16::HL);
            s.r.update16(Name16::HL, inc16);
        },
        0x2b => s.r.update16(Name16::HL, dec16),  // DEC HL
        0x2c => s.unary_math_r8(Name8::L, inc8),  // INC L
        0x2d => s.unary_math_r8(Name8::L, dec8),  // DEC L
        0x2e => s.mov_ri8(Name8::L, byte_arg_from(instruction)),  // LD L,n
        0x2f => s.r.update8(Name8::A, not8),  // CPL
        0x31 => s.s.set_sp(word_arg_from(instruction)),  // LD SP,nn
        0x32 => {
            // LDD (HL),A
            s.mov_pr8(Name16::HL, Name8::A);
            s.r.update16(Name16::HL, dec16);
        },
        0x33 => {
            // INC SP
            let sp = s.s.get_sp();
            s.s.set_sp(inc16(sp));
        },
        0x34 => {
            // INC (HL)
            let new_value = inc8(s.get_indirect8(Name16::HL));
            s.r.cc.set_flags_no_carry(new_value);
            s.mov_pi8(Name16::HL, new_value);
        },
        0x35 => {
            // DEC (HL)
            let new_value = dec8(s.get_indirect8(Name16::HL));
            s.r.cc.set_flags_no_carry(new_value);
            s.mov_pi8(Name16::HL, new_value);
        },
        0x36 => s.mov_pi8(Name16::HL, byte_arg_from(instruction)),  // LD (HL),n
        0x37 => s.r.cc.cy = true,  // SCF
        0x39 => {
            // ADD HL,SP
            let sp = s.s.get_sp();
            s.add_ri16(sp);
        },
        0x3a => {
            // LDD A,(HL)
            s.mov_rp8(Name8::A, Name16::HL);
            s.r.update16(Name16::HL, dec16);
        },
        0x3b => {
            // DEC SP
            let sp = s.s.get_sp();
            s.s.set_sp(dec16(sp));
        },
        0x3c => s.unary_math_r8(Name8::A, inc8),  // INC A
        0x3d => s.unary_math_r8(Name8::A, dec8),  // DEC A
        0x3e => s.mov_ri8(Name8::A, byte_arg_from(instruction)),  // LD A,n
        0x3f => s.r.cc.cy = false,  // CCF
        // STOP and the relative jumps are not executed: the precondition
        // leaves them out.
        _ => (),
    }
}

/// Executes an instruction of the last group. The opcode must be one of
/// the group that the dispatcher executes, and `instruction` must hold the
/// operand bytes that it calls for.
pub fn emulate_group3(instruction: &[u8], s: &mut State8080)
    requires
        instruction@.len() >= 1,
        instruction@[0] >= 0xc0,
        instruction@.len() >= instruction_length(instruction@[0]),
        executes_group3(instruction@[0]),
    ensures
        final(s)@ == old(s)@.spec_gb_group3(instruction@),
{
    let opcode = instruction[0];
    proof {
        lemma_last_group(opcode);
    }
    dispatch_group3(opcode, instruction, s)
}

/// Executes the instruction of the last group that `opcode` picks from
/// the dense table of the group.
fn dispatch_group3(opcode: u8, instruction: &[u8], s: &mut State8080)
    requires
        instruction@.len() >= 1,
        opcode == instruction@[0],
        is_last_group(opcode),
        instruction@.len() >= instruction_length(opcode),
        executes_group3(opcode),
    ensures
        final(s)@ == old(s)@.spec_gb_group3(instruction@),
{
    proof {
        lemma_fields(opcode);
        lemma_last_group(opcode);
    }
    match opcode {
        0xc0 => s.ret_if(instruction),  // RET NZ
        0xc1 => s.pop_r16(Name16::BC),  // POP BC
        0xc2 => s.jump_if(instruction),  // JP NZ,nn
        0xc3 => s.jump_a(word_arg_from(instruction)),  // JP nn
        0xc4 => s.call_if(instruction),  // CALL NZ,nn
        0xc5 => s.push_r16(Name16::BC),  // PUSH BC
        0xc6 => s.add_ri8(byte_arg_from(instruction)),  // ADD A,n
        0xc7 => s.call_a(0x0000),  // RST 0
        0xc8 => s.ret_if(instruction),  // RET Z
        0xc9 => s.ret(),  // RET
        0xca => s.jump_if(instruction),  // JP Z,nn
        0xcc => s.call_if(instruction),  // CALL Z,nn
        0xcd => s.call_a(word_arg_from(instruction)),  // CALL nn
        0xce => s.adc_ri8(byte_arg_from(instruction)),  // ADC A,n
        0xcf => s.call_a(0x0008),  // RST 8
        0xd0 => s.ret_if(instruction),  // RET NC
        0xd1 => s.pop_r16(Name16::DE),  // POP DE
        0xd2 => s.jump_if(instruction),  // JP NC,nn
        0xd4 => s.call_if(instruction),  // CALL NC,nn
        0xd5 => s.push_r16(Name16::DE),  // PUSH DE
        0xd6 => s.sub_ri8(byte_arg_from(instruction)),  // SUB A,n
        0xd7 => s.call_a(0x0010),  // RST 10
        0xd8 => s.ret_if(instruction),  // RET C
        0xda => s.jump_if(instruction),  // JP C,nn
        0xdc => s.call_if(instruction),  // CALL C,nn
        0xde => s.sbb_ri8(byte_arg_from(instruction)),  // SBC A,n
        0xdf => s.call_a(0x0018),  // RST 18
        0xe1 => s.pop_r16(Name16::HL),  // POP HL
        0xe5 => s.push_r16(Name16::HL),  // PUSH HL
        0xe6 => s.logical_operation_ri(byte_arg_from(instruction), and8),  // AND n
        0xe7 => s.call_a(0x0020),  // RST 20
        0xea => s.mov_ar8(word_arg_from(instruction), Name8::A),  // LD (nn),A
        0xee => s.logical_operation_ri(byte_arg_from(instruction), xor8),  // XOR n
        0xef => s.call_a(0x0028),  // RST 28
        0xf1 => s.pop_r16(Name16::AF),  // POP AF
        0xf3 => s.set_interrupt_flag(false),  // DI
        0xf5 => s.push_r16(Name16::AF),  // PUSH AF
        0xf6 => s.logical_operation_ri(byte_arg_from(instruction), or8),  // OR n
        0xf7 => s.call_a(0x0030),  // RST 30
        0xf9 => {
            // LD SP,HL
            let pointer = s.r.get16(Name16::HL);
            s.s.set_sp(pointer);
        },
        0xfa => s.mov_ra8(Name8::A, word_arg_from(instruction)),  // LD A,(nn)
        0xfb => s.set_interrupt_flag(true),  // EI
        0xfe => s.cmp_ri8(byte_arg_from(instruction)),  // CP n
        0xff => s.call_a(0x0038),  // RST 38
        // The opcodes without an instruction, the prefix and the
        // instructions that are not executed: the precondition leaves them
        // out.
        _ => (),
    }
}

/// Executes the instruction at the program counter: fetches it, applies
/// it to the state, moves the counter past it, and reports what it costs
/// in clock cycles. The instruction must be one that the dispatcher
/// executes.
pub fn emulate_instruction(s: &mut State8080) -> (cycles: usize)
    requires
        spec_is_implemented(old(s)@.spec_opcode()),
    ensures
        cycles == cycles_of(old(s)@.spec_opcode()),
        final(s)@ == old(s)@.spec_gb_step(),
{
    proof {
        s.lemma_view_wf();
        lemma_instruction_length_table(s@.spec_opcode());
    }
    let instruction = s.get_instruction();
    let opcode = instruction[0];
    proof {
        lemma_fields(opcode);
    }

    match opcode {
        0x00..=0x3f => emulate_group0(instruction.as_slice(), s),
        0x40..=0x7f => mov_for(s, opcode),
        0x80..=0xbf => operate8(s, opcode, get_operand(s, opcode)),
        0xc0..=0xff => emulate_group3(instruction.as_slice(), s),
    }

    s.p.advance();
    OPCODE_TIMING[opcode as usize]
}

} // verus!
