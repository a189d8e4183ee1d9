//! The instruction dispatcher of the 8080: decodes one opcode and applies
//! the primitive of the processor state that it stands for.

use vstd::prelude::*;
use crate::capability::program::Program;
use crate::capability::registers::{Registers16, Registers8};
use crate::capability::stack::Stack;
use crate::i8080::instructions::{
    and8,
    byte_arg_from,
    column_of,
    dec16,
    dec8,
    inc16,
    inc8,
    is_even_row,
    lemma_fields,
    not8,
    or8,
    register_for_code,
    register_named,
    row_of,
    spec_byte_arg_from,
    spec_dec16,
    spec_dec8,
    spec_inc16,
    spec_inc8,
    spec_word_arg_from,
    word_arg_from,
    xor8,
};
use crate::i8080::machine::Machine;
use crate::i8080::model::{low16, Snapshot};
use crate::i8080::program::{instruction_length, lemma_instruction_length_table};
use crate::i8080::registers::{Name16, Name8};
use crate::i8080::state::State8080;

verus! {

/// The cost in clock cycles of every instruction, by opcode.
pub const OPCODE_TIMING: [usize; 256] = [
    4, 10, 7, 5, 5, 5, 7, 4, 4, 10, 7, 5, 5, 5, 7, 4,  // 0x00..0x0f
    4, 10, 7, 5, 5, 5, 7, 4, 4, 10, 7, 5, 5, 5, 7, 4,  // 0x10..0x1f
    4, 10, 16, 5, 5, 5, 7, 4, 4, 10, 16, 5, 5, 5, 7, 4,  // 0x20..0x2f
    4, 10, 13, 5, 10, 10, 10, 4, 4, 10, 13, 5, 5, 5, 7, 4,  // 0x30..0x3f
    5, 5, 5, 5, 5, 5, 7, 5, 5, 5, 5, 5, 5, 5, 7, 5,  // 0x40..0x4f
    5, 5, 5, 5, 5, 5, 7, 5, 5, 5, 5, 5, 5, 5, 7, 5,  // 0x50..0x5f
    5, 5, 5, 5, 5, 5, 7, 5, 5, 5, 5, 5, 5, 5, 7, 5,  // 0x60..0x6f
    7, 7, 7, 7, 7, 7, 7, 7, 5, 5, 5, 5, 5, 5, 7, 5,  // 0x70..0x7f
    4, 4, 4, 4, 4, 4, 7, 4, 4, 4, 4, 4, 4, 4, 7, 4,  // 0x80..0x8f
    4, 4, 4, 4, 4, 4, 7, 4, 4, 4, 4, 4, 4, 4, 7, 4,  // 0x90..0x9f
    4, 4, 4, 4, 4, 4, 7, 4, 4, 4, 4, 4, 4, 4, 7, 4,  // 0xa0..0xaf
    4, 4, 4, 4, 4, 4, 7, 4, 4, 4, 4, 4, 4, 4, 7, 4,  // 0xb0..0xbf
    11, 10, 10, 10, 17, 11, 7, 11, 11, 10, 10, 10, 10, 17, 7, 11,  // 0xc0..0xcf
    11, 10, 10, 10, 17, 11, 7, 11, 11, 10, 10, 10, 10, 17, 7, 11,  // 0xd0..0xdf
    11, 10, 10, 18, 17, 11, 7, 11, 11, 5, 10, 5, 17, 17, 7, 11,  // 0xe0..0xef
    11, 10, 10, 4, 17, 11, 7, 11, 11, 5, 10, 4, 17, 17, 7, 11,  // 0xf0..0xff
];

/// The cost in clock cycles of the instruction with this opcode.
pub open spec fn cycles_of(opcode: u8) -> usize {
    OPCODE_TIMING[opcode as int]
}

/// Whether the opcode is the halt instruction: a move whose source and
/// destination fields both name the memory cell.
pub open spec fn is_halt(opcode: u8) -> bool {
    column_of(opcode) == 6 && row_of(opcode) == 6
}

/// Whether the dispatcher executes the instruction with this opcode.
/// Halt is the one instruction that it does not.
pub open spec fn spec_is_implemented(opcode: u8) -> bool {
    opcode != 0x76
}

/// Whether an instruction of the last group addresses a port: the port
/// output in row 2 of column 3 and the port input in row 3. No other
/// instruction has to do with the port devices.
pub open spec fn addresses_port(opcode: u8) -> bool {
    column_of(opcode) == 3 && (row_of(opcode) == 2 || row_of(opcode) == 3)
}

/// The opcode of the first group that has the same row and column.
pub open spec fn in_group0(opcode: u8) -> u8 {
    (opcode % 0x40) as u8
}

/// The opcode of the last group that has the same row and column.
pub open spec fn in_group3(opcode: u8) -> u8 {
    (0xc0 + opcode % 0x40) as u8
}

impl Snapshot {
    /// The operand that a 3-bit field names: a register, or for the value 6
    /// the byte that `HL` points to.
    pub open spec fn spec_operand_named(self, field: u8) -> u8 {
        if field == 6 {
            self.spec_get_indirect8(Name16::HL)
        } else {
            self.r.spec_get8(register_named(field))
        }
    }

    /// The operand that the column of `opcode` selects.
    pub open spec fn spec_operand(self, opcode: u8) -> u8 {
        self.spec_operand_named(column_of(opcode))
    }

    /// A move: the row of the opcode names the destination and the column
    /// the source; 6 stands for the memory cell that `HL` points to.
    pub open spec fn spec_mov_for(self, opcode: u8) -> Snapshot {
        let source = column_of(opcode);
        let destination = row_of(opcode);
        if source == 6 {
            self.spec_mov_rp8(register_named(destination), Name16::HL)
        } else if destination == 6 {
            self.spec_mov_pr8(Name16::HL, register_named(source))
        } else {
            self.spec_mov_rr8(register_named(destination), register_named(source))
        }
    }

    /// An operation on the accumulator and `operand`. The row of the
    /// opcode selects it: add, add with carry, subtract, subtract with
    /// borrow, and, exclusive or, or, compare.
    pub open spec fn spec_operate8(self, opcode: u8, operand: u8) -> Snapshot {
        let operation = row_of(opcode);
        if operation == 0 {
            self.spec_add_ri8(operand)
        } else if operation == 1 {
            self.spec_adc_ri8(operand)
        } else if operation == 2 {
            self.spec_sub_ri8(operand)
        } else if operation == 3 {
            self.spec_sbb_ri8(operand)
        } else if operation == 4 {
            self.spec_logical(self.r.a & operand)
        } else if operation == 5 {
            self.spec_logical(self.r.a ^ operand)
        } else if operation == 6 {
            self.spec_logical(self.r.a | operand)
        } else {
            self.spec_cmp_ri8(operand)
        }
    }

    /// The value of the 16-bit operand that a row of the first group works
    /// on: `BC` in rows 0 and 1, `DE` in rows 2 and 3, `HL` in rows 4 and 5,
    /// the stack pointer in rows 6 and 7.
    pub open spec fn spec_wide_operand(self, row: u8) -> u16 {
        if row <= 1 {
            self.r.spec_get16(Name16::BC)
        } else if row <= 3 {
            self.r.spec_get16(Name16::DE)
        } else if row <= 5 {
            self.r.spec_get16(Name16::HL)
        } else {
            self.sp
        }
    }

    /// The state with `val` stored into the 16-bit operand of a row.
    pub open spec fn spec_set_wide_operand(self, row: u8, val: u16) -> Snapshot {
        if row <= 1 {
            self.spec_mov_ri16(Name16::BC, val)
        } else if row <= 3 {
            self.spec_mov_ri16(Name16::DE, val)
        } else if row <= 5 {
            self.spec_mov_ri16(Name16::HL, val)
        } else {
            self.with_sp(val)
        }
    }

    /// Column 2 of the first group: stores and loads through a pair or
    /// through a direct address. Rows 0 and 2 store the accumulator where
    /// `BC` and `DE` point; rows 1 and 3 load it through the same pairs.
    /// Rows 4 and 5 store and load `HL`, rows 6 and 7 the accumulator, at
    /// the address.
    pub open spec fn spec_store_or_load(self, row: u8, address: u16) -> Snapshot {
        if row == 0 {
            self.spec_mov_pr8(Name16::BC, Name8::A)
        } else if row == 1 {
            self.spec_mov_rp8(Name8::A, Name16::BC)
        } else if row == 2 {
            self.spec_mov_pr8(Name16::DE, Name8::A)
        } else if row == 3 {
            self.spec_mov_rp8(Name8::A, Name16::DE)
        } else if row == 4 {
            self.spec_mov_ar16(address, Name16::HL)
        } else if row == 5 {
            self.spec_mov_ra16(Name16::HL, address)
        } else if row == 6 {
            self.spec_mov_ar8(address, Name8::A)
        } else {
            self.spec_mov_ra8(Name8::A, address)
        }
    }

    /// Columns 4 and 5 of the first group: the operand that the row names
    /// is replaced by `value`, and zero, sign and parity follow from it.
    /// Row 6 names the memory cell that `HL` points to.
    pub open spec fn spec_unary_math(self, opcode: u8, value: u8) -> Snapshot {
        if row_of(opcode) == 6 {
            self.spec_unary_math_indirect(value)
        } else {
            self.spec_unary_math_r8(register_named(row_of(opcode)), value)
        }
    }

    /// Column 6 of the first group: the operand that the row names is
    /// loaded with `value`.
    pub open spec fn spec_load_immediate(self, opcode: u8, value: u8) -> Snapshot {
        if row_of(opcode) == 6 {
            self.spec_mov_pi8(Name16::HL, value)
        } else {
            self.spec_mov_ri8(register_named(row_of(opcode)), value)
        }
    }

    /// Column 7 of the first group: the four rotations, decimal adjust,
    /// complement of the accumulator, set carry and complement carry.
    pub open spec fn spec_accumulator_op(self, row: u8) -> Snapshot {
        if row == 0 {
            self.spec_rotate_left()
        } else if row == 1 {
            self.spec_rotate_right()
        } else if row == 2 {
            self.spec_rotate_left_through_carry()
        } else if row == 3 {
            self.spec_rotate_right_through_carry()
        } else if row == 4 {
            self.spec_decimal_adjust()
        } else if row == 5 {
            self.spec_mov_ri8(Name8::A, !self.r.a)
        } else if row == 6 {
            self.spec_with_carry(true)
        } else {
            self.spec_with_carry(!self.r.cc.cy)
        }
    }

    /// An instruction of the first group (opcodes 0x00 to 0x3f), by the
    /// column and row of its opcode.
    pub open spec fn spec_group0(self, instruction: Seq<u8>) -> Snapshot {
        let opcode = instruction[0];
        let column = column_of(opcode);
        let row = row_of(opcode);
        let even_row = is_even_row(row);
        if column == 0 {
            self
        } else if column == 1 {
            if even_row {
                self.spec_set_wide_operand(row, spec_word_arg_from(instruction))
            } else {
                self.spec_add_ri16(self.spec_wide_operand(row))
            }
        } else if column == 2 {
            self.spec_store_or_load(row, spec_word_arg_from(instruction))
        } else if column == 3 {
            if even_row {
                self.spec_set_wide_operand(row, spec_inc16(self.spec_wide_operand(row)))
            } else {
                self.spec_set_wide_operand(row, spec_dec16(self.spec_wide_operand(row)))
            }
        } else if column == 4 {
            self.spec_unary_math(opcode, spec_inc8(self.spec_operand_named(row)))
        } else if column == 5 {
            self.spec_unary_math(opcode, spec_dec8(self.spec_operand_named(row)))
        } else if column == 6 {
            self.spec_load_immediate(opcode, spec_byte_arg_from(instruction))
        } else {
            self.spec_accumulator_op(row)
        }
    }

    /// Column 1 of the last group: pops, returns, and the two transfers
    /// from `HL` to the program counter and to the stack pointer.
    pub open spec fn spec_pop_or_return(self, row: u8) -> Snapshot {
        if row == 0 {
            self.spec_pop_r16(Name16::BC)
        } else if row == 1 || row == 3 {
            self.spec_ret()
        } else if row == 2 {
            self.spec_pop_r16(Name16::DE)
        } else if row == 4 {
            self.spec_pop_r16(Name16::HL)
        } else if row == 5 {
            self.spec_jump_a(self.r.spec_get16(Name16::HL))
        } else if row == 6 {
            self.spec_pop_r16(Name16::AF)
        } else {
            self.with_sp(self.r.spec_get16(Name16::HL))
        }
    }

    /// Exchanges `HL` with the word on top of the stack.
    pub open spec fn spec_exchange_top(self) -> Snapshot {
        self.spec_drop_word().spec_push_word(self.r.spec_get16(Name16::HL)).spec_mov_ri16(
            Name16::HL,
            self.spec_top_word(),
        )
    }

    /// Exchanges `DE` with `HL`.
    pub open spec fn spec_exchange_de_hl(self) -> Snapshot {
        self.spec_mov_ri16(Name16::DE, self.r.spec_get16(Name16::HL)).spec_mov_ri16(
            Name16::HL,
            self.r.spec_get16(Name16::DE),
        )
    }

    /// Column 3 of the last group: jump, port output and input, the two
    /// exchanges, and interrupt disable and enable. A port output changes
    /// nothing in the processor; a port input loads the accumulator with
    /// `input`, the byte that the port delivered.
    pub open spec fn spec_jump_or_exchange(
        self,
        row: u8,
        instruction: Seq<u8>,
        input: u8,
    ) -> Snapshot {
        if row == 0 || row == 1 {
            self.spec_jump_a(spec_word_arg_from(instruction))
        } else if row == 2 {
            self
        } else if row == 3 {
            self.spec_mov_ri8(Name8::A, input)
        } else if row == 4 {
            self.spec_exchange_top()
        } else if row == 5 {
            self.spec_exchange_de_hl()
        } else if row == 6 {
            self.spec_set_interrupt_flag(false)
        } else {
            self.spec_set_interrupt_flag(true)
        }
    }

    /// What a port output hands to the port devices: the port number, which
    /// is the operand byte, and the accumulator.
    pub open spec fn spec_output_request(self, instruction: Seq<u8>) -> (u8, u8) {
        (spec_byte_arg_from(instruction), self.r.a)
    }

    /// Column 5 of the last group: pushes in the even rows, call in the
    /// odd ones.
    pub open spec fn spec_push_or_call(self, row: u8, instruction: Seq<u8>) -> Snapshot {
        if row == 0 {
            self.spec_push_r16(Name16::BC)
        } else if row == 2 {
            self.spec_push_r16(Name16::DE)
        } else if row == 4 {
            self.spec_push_r16(Name16::HL)
        } else if row == 6 {
            self.spec_push_r16(Name16::AF)
        } else {
            self.spec_call_a(spec_word_arg_from(instruction))
        }
    }

    /// An instruction of the last group (opcodes 0xc0 to 0xff), by the
    /// column and row of its opcode. `input` is the byte that a port
    /// delivers if the instruction reads one.
    pub open spec fn spec_group3(self, instruction: Seq<u8>, input: u8) -> Snapshot {
        let opcode = instruction[0];
        let column = column_of(opcode);
        let row = row_of(opcode);
        if column == 0 {
            self.spec_ret_if(instruction)
        } else if column == 1 {
            self.spec_pop_or_return(row)
        } else if column == 2 {
            self.spec_jump_if(instruction)
        } else if column == 3 {
            self.spec_jump_or_exchange(row, instruction, input)
        } else if column == 4 {
            self.spec_call_if(instruction)
        } else if column == 5 {
            self.spec_push_or_call(row, instruction)
        } else if column == 6 {
            self.spec_operate8(opcode, spec_byte_arg_from(instruction))
        } else {
            self.spec_call_a(low16(8 * row))
        }
    }

    /// What the instruction at hand does to the state, once it has been
    /// fetched and before the counter moves past it.
    pub open spec fn spec_execute(self, instruction: Seq<u8>, input: u8) -> Snapshot {
        let opcode = instruction[0];
        if opcode < 0x40 {
            self.spec_group0(instruction)
        } else if opcode < 0x80 {
            self.spec_mov_for(opcode)
        } else if opcode < 0xc0 {
            self.spec_operate8(opcode, self.spec_operand(opcode))
        } else {
            self.spec_group3(instruction, input)
        }
    }

    /// One whole instruction: fetch it at the program counter, execute
    /// it, and move the counter past it unless the instruction itself has
    /// transferred control.
    pub open spec fn spec_step(self, input: u8) -> Snapshot {
        let instruction = self.spec_instruction();
        self.spec_fetched(instruction.len()).spec_execute(instruction, input).spec_advance()
    }
}

/// Whether `field` is one of the sixty-four values of a six-bit field,
/// spelled out value by value: a dispatcher that selects by such a field
/// is proved one value at a time.
#[verifier::inline]
pub open spec fn is_six_bit(field: u8) -> bool {
    field == 0x00 || field == 0x01 || field == 0x02 || field == 0x03
    || field == 0x04 || field == 0x05 || field == 0x06 || field == 0x07
    || field == 0x08 || field == 0x09 || field == 0x0a || field == 0x0b
    || field == 0x0c || field == 0x0d || field == 0x0e || field == 0x0f
    || field == 0x10 || field == 0x11 || field == 0x12 || field == 0x13
    || field == 0x14 || field == 0x15 || field == 0x16 || field == 0x17
    || field == 0x18 || field == 0x19 || field == 0x1a || field == 0x1b
    || field == 0x1c || field == 0x1d || field == 0x1e || field == 0x1f
    || field == 0x20 || field == 0x21 || field == 0x22 || field == 0x23
    || field == 0x24 || field == 0x25 || field == 0x26 || field == 0x27
    || field == 0x28 || field == 0x29 || field == 0x2a || field == 0x2b
    || field == 0x2c || field == 0x2d || field == 0x2e || field == 0x2f
    || field == 0x30 || field == 0x31 || field == 0x32 || field == 0x33
    || field == 0x34 || field == 0x35 || field == 0x36 || field == 0x37
    || field == 0x38 || field == 0x39 || field == 0x3a || field == 0x3b
    || field == 0x3c || field == 0x3d || field == 0x3e || field == 0x3f
}

/// The low six bits of a byte hold one of sixty-four values.
pub proof fn lemma_six_bit_values(opcode: u8)
    by (bit_vector)
    ensures
        is_six_bit(opcode & 0x3f),
{
}

/// Whether the dispatcher executes the instruction with this opcode.
#[verifier::when_used_as_spec(spec_is_implemented)]
pub fn is_implemented(opcode: u8) -> (implemented: bool)
    ensures
        implemented == spec_is_implemented(opcode),
{
    opcode != 0x76
}

/// The operand that the low three bits of `opcode` select.
pub fn get_operand(state: &State8080, opcode: u8) -> (operand: u8)
    ensures
        operand == state@.spec_operand(opcode),
{
    proof {
        lemma_fields(opcode);
    }
    let operand_code = opcode & 0x07;
    if operand_code == 0x06 {
        state.get_indirect8(Name16::HL)
    } else {
        state.r.get8(register_for_code(operand_code))
    }
}

/// Executes a move between registers, or between a register and the
/// memory cell that `HL` points to. The opcode must not be halt.
pub fn mov_for(state: &mut State8080, opcode: u8)
    requires
        !is_halt(opcode),
    ensures
        final(state)@ == old(state)@.spec_mov_for(opcode),
{
    proof {
        lemma_fields(opcode);
    }
    let input_code = opcode & 0x07;
    let output_code = (opcode >> 3) & 0x07;

    match (input_code, output_code) {
        (0x06, reg) => state.mov_rp8(register_for_code(reg), Name16::HL),
        (reg, 0x06) => state.mov_pr8(Name16::HL, register_for_code(reg)),
        (input, output) => state.mov_rr8(register_for_code(output), register_for_code(input)),
    }
}

/// Executes the accumulator operation that bits 3 to 5 of `opcode` select,
/// on `operand`.
pub fn operate8(state: &mut State8080, opcode: u8, operand: u8)
    ensures
        final(state)@ == old(state)@.spec_operate8(opcode, operand),
{
    proof {
        lemma_fields(opcode);
    }
    match (opcode >> 3) & 0x07 {
        0x0 => state.add_ri8(operand),
        0x1 => state.adc_ri8(operand),
        0x2 => state.sub_ri8(operand),
        0x3 => state.sbb_ri8(operand),
        0x4 => state.logical_operation_ri(operand, and8),
        0x5 => state.logical_operation_ri(operand, xor8),
        0x6 => state.logical_operation_ri(operand, or8),
        _ => state.cmp_ri8(operand),
    }
}

/// Executes an instruction of the first group. Only the low six bits
/// of the opcode are looked at. `instruction` must hold the operand bytes
/// that the opcode calls for.
pub fn emulate_group0(instruction: &[u8], s: &mut State8080)
    requires
        instruction@.len() >= 1,
        instruction@.len() >= instruction_length(in_group0(instruction@[0])),
    ensures
        final(s)@ == old(s)@.spec_group0(instruction@),
{
    let opcode = instruction[0];
    proof {
        lemma_six_bit_values(opcode);
    }
    dispatch_group0(opcode & 0x3f, instruction, s)
}

/// Executes the instruction of the first group that `selector` picks:
/// the low six bits of the opcode, which index the group as a dense table.
fn dispatch_group0(selector: u8, instruction: &[u8], s: &mut State8080)
    requires
        instruction@.len() >= 1,
        instruction@.len() >= instruction_length(in_group0(instruction@[0])),
        selector == instruction@[0] & 0x3f,
        is_six_bit(selector),
    ensures
        final(s)@ == old(s)@.spec_group0(instruction@),
{
    proof {
        lemma_fields(instruction@[0]);
    }

    match selector {
        0x00 => (),  // NOP
        0x01 => s.mov_ri16(Name16::BC, word_arg_from(instruction)),  // LXI B,word
        0x02 => s.mov_pr8(Name16::BC, Name8::A),  // STAX B
        0x03 => s.r.update16(Name16::BC, inc16),  // INX B
        0x04 => s.unary_math_r8(Name8::B, inc8),  // INR B
        0x05 => s.unary_math_r8(Name8::B, dec8),  // DCR B
        0x06 => s.mov_ri8(Name8::B, byte_arg_from(instruction)),  // MVI B,byte
        0x07 => s.rotate_left(),  // RLC
        0x08 => (),  // NOP
        0x09 => s.add_rr16(Name16::BC),  // DAD B
        0x0a => s.mov_rp8(Name8::A, Name16::BC),  // LDAX B
        0x0b => s.r.update16(Name16::BC, dec16),  // DCX B
        0x0c => s.unary_math_r8(Name8::C, inc8),  // INR C
        0x0d => s.unary_math_r8(Name8::C, dec8),  // DCR C
        0x0e => s.mov_ri8(Name8::C, byte_arg_from(instruction)),  // MVI C,byte
        0x0f => s.rotate_right(),  // RRC
        0x10 => (),  // NOP
        0x11 => s.mov_ri16(Name16::DE, word_arg_from(instruction)),  // LXI D,word
        0x12 => s.mov_pr8(Name16::DE, Name8::A),  // STAX D
        0x13 => s.r.update16(Name16::DE, inc16),  // INX D
        0x14 => s.unary_math_r8(Name8::D, inc8),  // INR D
        0x15 => s.unary_math_r8(Name8::D, dec8),  // DCR D
        0x16 => s.mov_ri8(Name8::D, byte_arg_from(instruction)),  // MVI D,byte
        0x17 => s.rotate_left_through_carry(),  // RAL
        0x18 => (),  // NOP
        0x19 => s.add_rr16(Name16::DE),  // DAD D
        0x1a => s.mov_rp8(Name8::A, Name16::DE),  // LDAX D
        0x1b => s.r.update16(Name16::DE, dec16),  // DCX D
        0x1c => s.unary_math_r8(Name8::E, inc8),  // INR E
        0x1d => s.unary_math_r8(Name8::E, dec8),  // DCR E
        0x1e => s.mov_ri8(Name8::E, byte_arg_from(instruction)),  // MVI E,byte
        0x1f => s.rotate_right_through_carry(),  // RAR
        0x20 => (),  // NOP
        0x21 => s.mov_ri16(Name16::HL, word_arg_from(instruction)),  // LXI H,word
        0x22 => s.mov_ar16(word_arg_from(instruction), Name16::HL),  // SHLD a16
        0x23 => s.r.update16(Name16::HL, inc16),  // INX H
        0x24 => s.unary_math_r8(Name8::H, inc8),  // INR H
        0x25 => s.unary_math_r8(Name8::H, dec8),  // DCR H
        0x26 => s.mov_ri8(Name8::H, byte_arg_from(instruction)),  // MVI H,byte
        0x27 => s.decimal_adjust(),  // DAA
        0x28 => (),  // NOP
        0x29 => s.add_rr16(Name16::HL),  // DAD H
        0x2a => s.mov_ra16(Name16::HL, word_arg_from(instruction)),  // LHLD a16
        0x2b => s.r.update16(Name16::HL, dec16),  // DCX H
        0x2c => s.unary_math_r8(Name8::L, inc8),  // INR L
        0x2d => s.unary_math_r8(Name8::L, dec8),  // DCR L
        0x2e => s.mov_ri8(Name8::L, byte_arg_from(instruction)),  // MVI L,byte
        0x2f => s.r.update8(Name8::A, not8),  // CMA
        0x30 => (),  // NOP
        0x31 => s.s.set_sp(word_arg_from(instruction)),  // LXI SP,word
        0x32 => s.mov_ar8(word_arg_from(instruction), Name8::A),  // STA a16
        0x33 => {
            // INX SP
            let sp = s.s.get_sp();
            s.s.set_sp(inc16(sp));
        },
        0x34 => {
            // INR M
            let new_value = inc8(s.get_indirect8(Name16::HL));
            s.r.cc.set_flags_no_carry(new_value);
            s.mov_pi8(Name16::HL, new_value);
        },
        0x35 => {
            // DCR M
            let new_value = dec8(s.get_indirect8(Name16::HL));
            s.r.cc.set_flags_no_carry(new_value);
            s.mov_pi8(Name16::HL, new_value);
        },
        0x36 => s.mov_pi8(Name16::HL, byte_arg_from(instruction)),  // MVI M,byte
        0x37 => s.r.cc.cy = true,  // STC
        0x38 => (),  // NOP
        0x39 => {
            // DAD SP
            let sp = s.s.get_sp();
            s.add_ri16(sp);
        },
        0x3a => s.mov_ra8(Name8::A, word_arg_from(instruction)),  // LDA a16
        0x3b => {
            // DCX SP
            let sp = s.s.get_sp();
            s.s.set_sp(dec16(sp));
        },
        0x3c => s.unary_math_r8(Name8::A, inc8),  // INR A
        0x3d => s.unary_math_r8(Name8::A, dec8),  // DCR A
        0x3e => s.mov_ri8(Name8::A, byte_arg_from(instruction)),  // MVI A,byte
        _ => s.r.cc.cy = !s.r.cc.cy,  // CMC
    }
}

/// The opcode of the last group with the same row and column has them too.
pub proof fn lemma_in_group3(opcode: u8)
    ensures
        in_group3(opcode) >= 0xc0,
        column_of(in_group3(opcode)) == column_of(opcode),
        row_of(in_group3(opcode)) == row_of(opcode),
        opcode >= 0xc0 ==> in_group3(opcode) == opcode,
{
}

/// The port number and the byte that the port output `instruction` hands
/// to the port devices.
pub fn output_request(instruction: &[u8], s: &State8080) -> (request: (u8, u8))
    requires
        instruction@.len() >= 2,
    ensures
        request == s@.spec_output_request(instruction@),
{
    (byte_arg_from(instruction), s.r.get8(Name8::A))
}

/// Executes an instruction of the last group. Only the low six bits of
/// the opcode are looked at. `instruction` must hold the operand bytes that
/// the opcode calls for.
///
/// The port devices `m` come into play for a port output, which hands them
/// what `output_request` says, and for a port input, which asks them for
/// the byte of the port that the operand names. Every other instruction
/// leaves them as they were.
pub fn emulate_group3(instruction: &[u8], s: &mut State8080, m: &mut impl Machine)
    requires
        instruction@.len() >= 1,
        instruction@.len() >= instruction_length(in_group3(instruction@[0])),
    ensures
        exists|input: u8| final(s)@ == old(s)@.spec_group3(instruction@, input),
        !addresses_port(instruction@[0]) ==> *final(m) == *old(m),
{
    let opcode = instruction[0];
    let ghost mut input: u8 = 0;
    proof {
        lemma_fields(opcode);
        lemma_in_group3(opcode);
    }
    match opcode & 0x7 {
        0x0 => s.ret_if(instruction),
        0x1 => match (opcode >> 3) & 0x7 {
            0x0 => s.pop_r16(Name16::BC),  // POP B
            0x1 | 0x3 => s.ret(),  // RET
            0x2 => s.pop_r16(Name16::DE),  // POP D
            0x4 => s.pop_r16(Name16::HL),  // POP H
            0x5 => {
                // PCHL
                let target = s.r.get16(Name16::HL);
                s.jump_a(target);
            },
            0x6 => s.pop_r16(Name16::AF),  // POP PSW
            _ => {
                // SPHL
                let pointer = s.r.get16(Name16::HL);
                s.s.set_sp(pointer);
            },
        },
        0x2 => s.jump_if(instruction),
        0x3 => match (opcode >> 3) & 0x7 {
            0x0 | 0x1 => s.jump_a(word_arg_from(instruction)),  // JMP a16
            0x2 => {
                // OUT byte
                let (port, value) = output_request(instruction, s);
                m.output(port, value);
            },
            0x3 => {
                // IN byte
                let value = m.input(byte_arg_from(instruction));
                proof {
                    input = value;
                }
                s.mov_ri8(Name8::A, value);
            },
            0x4 => {
                // XTHL
                let new_hl = s.pop_word();
                let old_hl = s.r.get16(Name16::HL);
                s.push_word(old_hl);
                s.r.set16(Name16::HL, new_hl);
            },
            0x5 => {
                // XCHG
                core::mem::swap(&mut s.r.d, &mut s.r.h);
                core::mem::swap(&mut s.r.e, &mut s.r.l);
            },
            0x6 => s.set_interrupt_flag(false),  // DI
            _ => s.set_interrupt_flag(true),  // EI
        },
        0x4 => s.call_if(instruction),
        0x5 => match (opcode >> 3) & 0x7 {
            0x0 => s.push_r16(Name16::BC),  // PUSH B
            0x2 => s.push_r16(Name16::DE),  // PUSH D
            0x4 => s.push_r16(Name16::HL),  // PUSH H
            0x6 => s.push_r16(Name16::AF),  // PUSH PSW
            _ => s.call_a(word_arg_from(instruction)),  // CALL a16
        },
        0x6 => operate8(s, opcode, byte_arg_from(instruction)),
        _ => s.call_a((opcode & 0x38) as u16),  // RST
    }
    assert(s@ == old(s)@.spec_group3(instruction@, input));
}

/// Executes the instruction at the program counter: fetches it, applies
/// it to the state, moves the counter past it, and reports what it costs
/// in clock cycles. The instruction must be one that the dispatcher
/// executes.
///
/// The port devices `m` come into play for the port output (0xd3) and the
/// port input (0xdb) alone; every other instruction leaves them as they
/// were.
pub fn emulate_instruction(s: &mut State8080, m: &mut impl Machine) -> (cycles: usize)
    requires
        spec_is_implemented(old(s)@.spec_opcode()),
    ensures
        cycles == cycles_of(old(s)@.spec_opcode()),
        exists|input: u8| final(s)@ == old(s)@.spec_step(input),
        old(s)@.spec_opcode() != 0xd3 && old(s)@.spec_opcode() != 0xdb ==> *final(m) == *old(m),
{
    proof {
        s.lemma_view_wf();
        lemma_instruction_length_table(s@.spec_opcode());
    }
    let instruction = s.get_instruction();
    let opcode = instruction[0];
    let ghost fetched = s@;
    let ghost mut input: u8 = 0;
    proof {
        lemma_fields(opcode);
        lemma_in_group3(opcode);
    }

    match opcode {
        0x00..=0x3f => emulate_group0(instruction.as_slice(), s),
        0x40..=0x7f => mov_for(s, opcode),
        0x80..=0xbf => operate8(s, opcode, get_operand(s, opcode)),
        0xc0..=0xff => {
            emulate_group3(instruction.as_slice(), s, m);
            proof {
                input = choose|input: u8| s@ == fetched.spec_group3(instruction@, input);
            }
        },
    }
    assert(s@ == fetched.spec_execute(instruction@, input));

    s.p.advance();
    assert(s@ == old(s)@.spec_step(input));
    OPCODE_TIMING[opcode as usize]
}

} // verus!
