//! The condition codes of the 8080.

use vstd::prelude::*;
use crate::capability::flags::Flags;

verus! {

/// How many bits of `n` are set.
pub open spec fn population_count(n: nat) -> nat
    decreases n,
{
    if n == 0 {
        0
    } else {
        n % 2 + population_count(n / 2)
    }
}

/// Whether an even number of bits of `n` is set.
pub open spec fn even_parity(n: u8) -> bool {
    population_count(n as nat) % 2 == 0
}

/// Whether bit 7 of `n` is set.
pub open spec fn sign_bit(n: u8) -> bool {
    n >= 0x80
}

/// One if `flag` is set, zero if it is not.
pub open spec fn bit_of(flag: bool) -> int {
    if flag {
        1
    } else {
        0
    }
}

/// The five condition codes: zero, sign, parity, carry and auxiliary carry.
///
/// Zero, sign and parity are always derived together from an 8-bit result;
/// carry and auxiliary carry belong to the operation that produces them.
#[derive(PartialEq, Eq, Structural, Debug)]
pub struct Flags8080 {
    pub z: bool,
    pub s: bool,
    pub p: bool,
    pub cy: bool,
    pub ac: bool,
}

impl Flags8080 {
    /// The flags with zero, sign and parity derived from `result`; carry
    /// and auxiliary carry as they were.
    pub open spec fn spec_set_flags_no_carry(self, result: u8) -> Flags8080 {
        Flags8080 {
            z: result == 0,
            s: sign_bit(result),
            p: even_parity(result),
            cy: self.cy,
            ac: self.ac,
        }
    }

    /// The flags with the carry replaced by `carry`.
    pub open spec fn spec_with_carry(self, carry: bool) -> Flags8080 {
        Flags8080 { z: self.z, s: self.s, p: self.p, cy: carry, ac: self.ac }
    }

    /// All flags clear.
    pub fn new() -> (flags: Flags8080)
        ensures
            flags == (Flags8080 { z: false, s: false, p: false, cy: false, ac: false }),
    {
        Flags8080 { z: false, s: false, p: false, cy: false, ac: false }
    }

    /// Sets the zero flag if and only if `n` is zero.
    pub fn set_z(&mut self, n: u8)
        ensures
            *final(self) == (Flags8080 { z: n == 0, ..*old(self) }),
    {
        self.z = n == 0;
    }

    /// Sets the sign flag if and only if bit 7 of `n` is set.
    pub fn set_s(&mut self, n: u8)
        ensures
            *final(self) == (Flags8080 { s: sign_bit(n), ..*old(self) }),
    {
        assert((n & 0x80 != 0) == (n >= 0x80)) by (bit_vector);
        self.s = (n & 0x80) != 0;
    }

    /// Sets the parity flag if and only if an even number of bits of `n` is set.
    pub fn set_p(&mut self, n: u8)
        ensures
            *final(self) == (Flags8080 { p: even_parity(n), ..*old(self) }),
    {
        let folded = n ^ (n >> 4);
        let folded = folded ^ (folded >> 2);
        let folded = folded ^ (folded >> 1);
        proof {
            lemma_folded_parity(n);
        }
        self.p = (folded & 0x01) == 0;
    }

    /// Derives zero, sign and parity from `result`. Carry and auxiliary
    /// carry are left alone.
    pub fn set_flags_no_carry(&mut self, result: u8)
        ensures
            *final(self) == old(self).spec_set_flags_no_carry(result),
            final(self).z == (result == 0),
            final(self).s == sign_bit(result),
            final(self).p == even_parity(result),
            final(self).cy == old(self).cy,
            final(self).ac == old(self).ac,
    {
        self.set_z(result);
        self.set_s(result);
        self.set_p(result);
    }

    /// Holds when the last result was not zero.
    pub fn is_nz(&self) -> (holds: bool)
        ensures
            holds == !self.z,
    {
        !self.z
    }

    /// Holds when the last result was zero.
    pub fn is_z(&self) -> (holds: bool)
        ensures
            holds == self.z,
    {
        self.z
    }

    /// Holds when the carry is clear.
    pub fn is_nc(&self) -> (holds: bool)
        ensures
            holds == !self.cy,
    {
        !self.cy
    }

    /// Holds when the carry is set.
    pub fn is_c(&self) -> (holds: bool)
        ensures
            holds == self.cy,
    {
        self.cy
    }

    /// Holds when the last result had an odd number of bits set.
    pub fn is_parity_odd(&self) -> (holds: bool)
        ensures
            holds == !self.p,
    {
        !self.p
    }

    /// Holds when the last result had an even number of bits set.
    pub fn is_parity_even(&self) -> (holds: bool)
        ensures
            holds == self.p,
    {
        self.p
    }

    /// Holds when the sign is clear.
    pub fn is_plus(&self) -> (holds: bool)
        ensures
            holds == !self.s,
    {
        !self.s
    }

    /// Holds when the sign is set.
    pub fn is_minus(&self) -> (holds: bool)
        ensures
            holds == self.s,
    {
        self.s
    }
}

impl Default for Flags8080 {
    fn default() -> (flags: Flags8080)
        ensures
            flags == (Flags8080 { z: false, s: false, p: false, cy: false, ac: false }),
    {
        Flags8080::new()
    }
}

impl Flags for Flags8080 {
    type Representation = u8;

    /// Zero in bit 0, sign in bit 1, parity in bit 2, carry in bit 3,
    /// auxiliary carry in bit 4; the upper three bits are clear.
    open spec fn spec_serialize(&self) -> u8 {
        (bit_of(self.z) + 2 * bit_of(self.s) + 4 * bit_of(self.p) + 8 * bit_of(self.cy) + 16
            * bit_of(self.ac)) as u8
    }

    /// Reads the five flags from bits 0 to 4; the upper three bits are
    /// ignored.
    open spec fn spec_deserialize(flags: u8) -> Flags8080 {
        Flags8080 {
            z: flags % 2 == 1,
            s: (flags / 2) % 2 == 1,
            p: (flags / 4) % 2 == 1,
            cy: (flags / 8) % 2 == 1,
            ac: (flags / 16) % 2 == 1,
        }
    }

    proof fn lemma_round_trip(&self) {
    }

    fn serialize(&self) -> (flags: u8) {
        let mut flags: u8 = 0;
        if self.z {
            flags = flags + 0x01;
        }
        if self.s {
            flags = flags + 0x02;
        }
        if self.p {
            flags = flags + 0x04;
        }
        if self.cy {
            flags = flags + 0x08;
        }
        if self.ac {
            flags = flags + 0x10;
        }
        flags
    }

    fn deserialize(&mut self, flags: u8) {
        assert((flags & 0x01 != 0) == (flags % 2 == 1)) by (bit_vector);
        assert((flags & 0x02 != 0) == ((flags / 2) % 2 == 1)) by (bit_vector);
        assert((flags & 0x04 != 0) == ((flags / 4) % 2 == 1)) by (bit_vector);
        assert((flags & 0x08 != 0) == ((flags / 8) % 2 == 1)) by (bit_vector);
        assert((flags & 0x10 != 0) == ((flags / 16) % 2 == 1)) by (bit_vector);
        self.z = (flags & 0x01) != 0;
        self.s = (flags & 0x02) != 0;
        self.p = (flags & 0x04) != 0;
        self.cy = (flags & 0x08) != 0;
        self.ac = (flags & 0x10) != 0;
    }
}

/// Folding a byte onto its lowest bit with exclusive-or leaves the parity of
/// its population count there.
proof fn lemma_folded_parity(n: u8)
    ensures
        ({
            let a = n ^ (n >> 4);
            let b = a ^ (a >> 2);
            let c = b ^ (b >> 1);
            (c & 0x01 == 0) == even_parity(n)
        }),
{
    let a = n ^ (n >> 4);
    let b = a ^ (a >> 2);
    let c = b ^ (b >> 1);
    let sum = n % 2 + (n / 2) % 2 + (n / 4) % 2 + (n / 8) % 2 + (n / 16) % 2 + (n / 32) % 2 + (n
        / 64) % 2 + (n / 128) % 2;
    assert(({
        let a = n ^ (n >> 4);
        let b = a ^ (a >> 2);
        let c = b ^ (b >> 1);
        (c & 0x01 == 0) == ((n % 2 + (n / 2) % 2 + (n / 4) % 2 + (n / 8) % 2 + (n / 16) % 2 + (n
            / 32) % 2 + (n / 64) % 2 + (n / 128) % 2) % 2 == 0)
    })) by (bit_vector);
    assert(population_count(n as nat) == sum) by {
        reveal_with_fuel(population_count, 9);
    }
}

} // verus!
