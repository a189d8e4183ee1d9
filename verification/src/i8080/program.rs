//! The program counter of the 8080 and the lengths of its instructions.

use vstd::prelude::*;
use vstd::slice::slice_to_vec;
use crate::capability::address::{index_above, Address};
use crate::capability::memory::Memory;
use crate::capability::program::Program;
use crate::capability::stack::Stack;
use crate::i8080::instructions::{column_of, is_even_row, row_of};
use crate::i8080::memory::Memory8080;
use crate::i8080::stack::Stack8080;

verus! {

/// The length in bytes of every instruction, by opcode.
pub const INSTRUCTION_LENGTH: [u16; 256] = [
    1, 3, 1, 1, 1, 1, 2, 1, 1, 1, 1, 1, 1, 1, 2, 1,  // 0x00..0x0f
    1, 3, 1, 1, 1, 1, 2, 1, 1, 1, 1, 1, 1, 1, 2, 1,  // 0x10..0x1f
    1, 3, 3, 1, 1, 1, 2, 1, 1, 1, 3, 1, 1, 1, 2, 1,  // 0x20..0x2f
    1, 3, 3, 1, 1, 1, 2, 1, 1, 1, 3, 1, 1, 1, 2, 1,  // 0x30..0x3f
    1, 1, 1, 1, 1, 1, 1, 1, 1, 1, 1, 1, 1, 1, 1, 1,  // 0x40..0x4f
    1, 1, 1, 1, 1, 1, 1, 1, 1, 1, 1, 1, 1, 1, 1, 1,  // 0x50..0x5f
    1, 1, 1, 1, 1, 1, 1, 1, 1, 1, 1, 1, 1, 1, 1, 1,  // 0x60..0x6f
    1, 1, 1, 1, 1, 1, 1, 1, 1, 1, 1, 1, 1, 1, 1, 1,  // 0x70..0x7f
    1, 1, 1, 1, 1, 1, 1, 1, 1, 1, 1, 1, 1, 1, 1, 1,  // 0x80..0x8f
    1, 1, 1, 1, 1, 1, 1, 1, 1, 1, 1, 1, 1, 1, 1, 1,  // 0x90..0x9f
    1, 1, 1, 1, 1, 1, 1, 1, 1, 1, 1, 1, 1, 1, 1, 1,  // 0xa0..0xaf
    1, 1, 1, 1, 1, 1, 1, 1, 1, 1, 1, 1, 1, 1, 1, 1,  // 0xb0..0xbf
    1, 1, 3, 3, 3, 1, 2, 1, 1, 1, 3, 3, 3, 3, 2, 1,  // 0xc0..0xcf
    1, 1, 3, 2, 3, 1, 2, 1, 1, 1, 3, 2, 3, 3, 2, 1,  // 0xd0..0xdf
    1, 1, 3, 1, 3, 1, 2, 1, 1, 1, 3, 1, 3, 3, 2, 1,  // 0xe0..0xef
    1, 1, 3, 1, 3, 1, 2, 1, 1, 1, 3, 1, 3, 3, 2, 1,  // 0xf0..0xff
];

/// The length of an instruction, read off the layout of its opcode: three
/// bytes where a 16-bit immediate or address follows, two where an 8-bit
/// immediate or a port number follows, one otherwise.
///
/// The opcode is taken as `gg rrr ccc`: its group `gg`, and within the
/// group a row `rrr` and a column `ccc`.
pub open spec fn instruction_length(opcode: u8) -> nat {
    let column = column_of(opcode);
    let row = row_of(opcode);
    if opcode < 0x40 {
        if column == 1 && is_even_row(row) {
            3  // load a register pair with a 16-bit immediate
        } else if column == 2 && row >= 4 {
            3  // store or load through a direct address
        } else if column == 6 {
            2  // load a register with an 8-bit immediate
        } else {
            1
        }
    } else if opcode < 0xc0 {
        1  // moves and accumulator operations on registers
    } else {
        if column == 2 || column == 4 {
            3  // conditional jump, conditional call
        } else if column == 3 && row <= 1 {
            3  // jump
        } else if column == 3 && row <= 3 {
            2  // port output, port input
        } else if column == 5 && !is_even_row(row) {
            3  // call
        } else if column == 6 {
            2  // accumulator operation on an 8-bit immediate
        } else {
            1
        }
    }
}

/// The table holds, for every opcode, the length that the layout of the
/// opcode calls for.
pub proof fn lemma_instruction_length_table(opcode: u8)
    ensures
        INSTRUCTION_LENGTH[opcode as int] == instruction_length(opcode),
        1 <= instruction_length(opcode) <= 3,
{
}

/// The program counter and the length of the instruction being decoded.
#[derive(Debug)]
pub struct Program8080 {
    pc: u16,
    instruction_length: u16,
}

impl Program8080 {
    /// A program counter at address zero, with no instruction being decoded.
    pub fn new() -> (program: Program8080)
        ensures
            program.counter() == 0,
            program.pending() == 0,
    {
        Program8080 { pc: 0, instruction_length: 0 }
    }
}

impl Default for Program8080 {
    fn default() -> (program: Program8080)
        ensures
            program.counter() == 0,
            program.pending() == 0,
    {
        Program8080::new()
    }
}

impl Program for Program8080 {
    type Address = u16;

    type Mem = Memory8080;

    type Stk = Stack8080;

    closed spec fn counter(&self) -> u16 {
        self.pc
    }

    closed spec fn pending(&self) -> nat {
        self.instruction_length as nat
    }

    open spec fn length_of(opcode: u8) -> nat {
        instruction_length(opcode)
    }

    open spec fn return_word(&self) -> u16 {
        index_above(self.counter(), self.pending() as int) as u16
    }

    open spec fn target_of(word: u16) -> u16 {
        word
    }

    fn get_pc(&self) -> (pc: u16) {
        self.pc
    }

    fn get_instruction(&mut self, m: &Memory8080) -> (instruction: Vec<u8>) {
        let opcode = m.get_byte(self.pc);
        proof {
            lemma_instruction_length_table(opcode);
            m.lemma_cells_len();
        }
        self.instruction_length = INSTRUCTION_LENGTH[opcode as usize];
        let last = self.pc.wrapping_add(self.instruction_length - 1);
        if self.pc <= last {
            slice_to_vec(m.view(self.pc, last))
        } else {
            // The instruction runs over the top of the memory and goes on at
            // its bottom.
            let mut instruction: Vec<u8> = Vec::new();
            let mut addr = self.pc;
            let mut fetched: u16 = 0;
            while fetched < self.instruction_length
                invariant
                    fetched <= self.instruction_length <= 3,
                    instruction@.len() == fetched,
                    addr as int == index_above(self.pc, fetched as int),
                    forall|i: int|
                        0 <= i < fetched ==> instruction@[i] == m.cells()[index_above(
                            self.pc,
                            i,
                        )],
                decreases self.instruction_length - fetched,
            {
                instruction.push(m.get_byte(addr));
                addr = addr.wrapping_add(1);
                fetched += 1;
            }
            instruction
        }
    }

    fn advance(&mut self) {
        self.pc = self.pc.wrapping_add(self.instruction_length);
        self.instruction_length = 0;
    }

    fn jump(&mut self, addr: u16) {
        self.pc = addr;
        self.instruction_length = 0;
    }

    fn call(&mut self, m: &mut Memory8080, s: &mut Stack8080, addr: u16) {
        s.push_word(m, self.pc.wrapping_add(self.instruction_length));
        self.jump(addr);
    }

    fn ret(&mut self, m: &mut Memory8080, s: &mut Stack8080) {
        let addr = s.pop_word(m);
        self.jump(addr);
    }
}

} // verus!
