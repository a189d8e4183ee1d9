//! The register file of the 8080.

use vstd::prelude::*;
use crate::bytes::{assemble_word, high_order_byte, low_order_byte};
use crate::capability::flags::Flags;
use crate::capability::registers::{Registers16, Registers8};
use crate::i8080::flags::Flags8080;

verus! {

/// The seven 8-bit registers.
#[derive(Clone, Copy, PartialEq, Eq, Structural, Debug)]
pub enum Name8 {
    A,
    B,
    C,
    D,
    E,
    H,
    L,
}

/// The 16-bit register pairs. `AF` pairs the accumulator with the packed
/// flags; it exists to save and restore both on the stack.
#[derive(Clone, Copy, PartialEq, Eq, Structural, Debug)]
pub enum Name16 {
    BC,
    DE,
    HL,
    AF,
}

/// Seven independent 8-bit cells and the flags. The pairs are views of the
/// cells: a pair has no storage of its own.
#[derive(Debug)]
pub struct Registers8080 {
    pub a: u8,
    pub b: u8,
    pub c: u8,
    pub d: u8,
    pub e: u8,
    pub h: u8,
    pub l: u8,
    pub cc: Flags8080,
}

impl Registers8080 {
    /// The registers with zero, sign and parity derived from the value of
    /// `reg`; everything else as it was.
    pub open spec fn spec_set_flags_from_r8(self, reg: Name8) -> Registers8080 {
        Registers8080 { cc: self.cc.spec_set_flags_no_carry(self.spec_get8(reg)), ..self }
    }

    /// The registers with the carry replaced by `carry`.
    pub open spec fn spec_with_carry(self, carry: bool) -> Registers8080 {
        Registers8080 { cc: self.cc.spec_with_carry(carry), ..self }
    }

    /// All registers zero and all flags clear.
    pub fn new() -> (registers: Registers8080)
        ensures
            registers == (Registers8080 {
                a: 0,
                b: 0,
                c: 0,
                d: 0,
                e: 0,
                h: 0,
                l: 0,
                cc: Flags8080 { z: false, s: false, p: false, cy: false, ac: false },
            }),
    {
        Registers8080 { a: 0, b: 0, c: 0, d: 0, e: 0, h: 0, l: 0, cc: Flags8080::new() }
    }

    /// Derives zero, sign and parity from the value that `reg` holds.
    pub fn set_flags_from_r8(&mut self, reg: Name8)
        ensures
            *final(self) == old(self).spec_set_flags_from_r8(reg),
    {
        let value = self.get8(reg);
        self.cc.set_flags_no_carry(value);
    }
}

impl Default for Registers8080 {
    fn default() -> (registers: Registers8080)
        ensures
            registers == (Registers8080 {
                a: 0,
                b: 0,
                c: 0,
                d: 0,
                e: 0,
                h: 0,
                l: 0,
                cc: Flags8080 { z: false, s: false, p: false, cy: false, ac: false },
            }),
    {
        Registers8080::new()
    }
}

impl Registers8 for Registers8080 {
    type Name = Name8;

    open spec fn spec_get8(&self, reg: Name8) -> u8 {
        match reg {
            Name8::A => self.a,
            Name8::B => self.b,
            Name8::C => self.c,
            Name8::D => self.d,
            Name8::E => self.e,
            Name8::H => self.h,
            Name8::L => self.l,
        }
    }

    open spec fn spec_set8(self, reg: Name8, val: u8) -> Registers8080 {
        match reg {
            Name8::A => Registers8080 { a: val, ..self },
            Name8::B => Registers8080 { b: val, ..self },
            Name8::C => Registers8080 { c: val, ..self },
            Name8::D => Registers8080 { d: val, ..self },
            Name8::E => Registers8080 { e: val, ..self },
            Name8::H => Registers8080 { h: val, ..self },
            Name8::L => Registers8080 { l: val, ..self },
        }
    }

    fn get8(&self, reg: Name8) -> (val: u8) {
        match reg {
            Name8::A => self.a,
            Name8::B => self.b,
            Name8::C => self.c,
            Name8::D => self.d,
            Name8::E => self.e,
            Name8::H => self.h,
            Name8::L => self.l,
        }
    }

    fn set8(&mut self, reg: Name8, val: u8) {
        match reg {
            Name8::A => self.a = val,
            Name8::B => self.b = val,
            Name8::C => self.c = val,
            Name8::D => self.d = val,
            Name8::E => self.e = val,
            Name8::H => self.h = val,
            Name8::L => self.l = val,
        }
    }
}

impl Registers16 for Registers8080 {
    type Name = Name16;

    /// A pair is its high cell times 256 plus its low cell. The low half of
    /// `AF` is the packed flags.
    open spec fn spec_get16(&self, reg: Name16) -> u16 {
        match reg {
            Name16::BC => assemble_word(self.b, self.c),
            Name16::DE => assemble_word(self.d, self.e),
            Name16::HL => assemble_word(self.h, self.l),
            Name16::AF => assemble_word(self.a, self.cc.spec_serialize()),
        }
    }

    /// Storing into a pair stores the high half into its high cell and the
    /// low half into its low cell. Storing into `AF` unpacks the low half
    /// into the flags.
    open spec fn spec_set16(self, reg: Name16, val: u16) -> Registers8080 {
        match reg {
            Name16::BC => Registers8080 {
                b: high_order_byte(val),
                c: low_order_byte(val),
                ..self
            },
            Name16::DE => Registers8080 {
                d: high_order_byte(val),
                e: low_order_byte(val),
                ..self
            },
            Name16::HL => Registers8080 {
                h: high_order_byte(val),
                l: low_order_byte(val),
                ..self
            },
            Name16::AF => Registers8080 {
                a: high_order_byte(val),
                cc: Flags8080::spec_deserialize(low_order_byte(val)),
                ..self
            },
        }
    }

    fn get16(&self, reg: Name16) -> (val: u16) {
        match reg {
            Name16::BC => assemble_word(self.b, self.c),
            Name16::DE => assemble_word(self.d, self.e),
            Name16::HL => assemble_word(self.h, self.l),
            Name16::AF => assemble_word(self.a, self.cc.serialize()),
        }
    }

    fn set16(&mut self, reg: Name16, val: u16) {
        match reg {
            Name16::BC => {
                self.b = high_order_byte(val);
                self.c = low_order_byte(val);
            },
            Name16::DE => {
                self.d = high_order_byte(val);
                self.e = low_order_byte(val);
            },
            Name16::HL => {
                self.h = high_order_byte(val);
                self.l = low_order_byte(val);
            },
            Name16::AF => {
                self.a = high_order_byte(val);
                self.cc.deserialize(low_order_byte(val));
            },
        }
    }
}

/// A register holds what was last stored into it, and storing into one
/// register leaves the others alone.
pub proof fn lemma_get8_after_set8(registers: Registers8080, reg: Name8, val: u8, other: Name8)
    ensures
        registers.spec_set8(reg, val).spec_get8(other) == if other == reg {
            val
        } else {
            registers.spec_get8(other)
        },
        registers.spec_set8(reg, val).cc == registers.cc,
{
}

/// A pair of general registers holds what was last stored into it. (For
/// `AF` this holds of the accumulator half and of the five flag bits only.)
pub proof fn lemma_get16_after_set16(registers: Registers8080, reg: Name16, val: u16)
    requires
        reg != Name16::AF,
    ensures
        registers.spec_set16(reg, val).spec_get16(reg) == val,
{
}

/// Saving the pair `AF` and restoring it gives back the accumulator and
/// every flag.
pub proof fn lemma_restore_af(registers: Registers8080)
    ensures
        registers.spec_set16(Name16::AF, registers.spec_get16(Name16::AF)) == registers,
{
    registers.cc.lemma_round_trip();
}

} // verus!
