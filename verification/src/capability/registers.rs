//! Named 8-bit registers and the 16-bit pairs formed from them.

use vstd::prelude::*;

verus! {

/// A file of 8-bit registers, each addressed by a name.
pub trait Registers8: Sized {
    type Name: Copy;

    /// The value held by `reg`.
    spec fn spec_get8(&self, reg: Self::Name) -> u8;

    /// The register file after `val` has been stored into `reg`.
    spec fn spec_set8(self, reg: Self::Name, val: u8) -> Self;

    fn get8(&self, reg: Self::Name) -> (val: u8)
        ensures
            val == self.spec_get8(reg),
    ;

    fn set8(&mut self, reg: Self::Name, val: u8)
        ensures
            *final(self) == old(self).spec_set8(reg, val),
    ;

    /// Replaces the value of `reg` by what `updater` makes of it.
    fn update8(&mut self, reg: Self::Name, updater: impl Fn(u8) -> u8)
        requires
            call_requires(updater, (old(self).spec_get8(reg),)),
        ensures
            exists|val: u8|
                call_ensures(updater, (old(self).spec_get8(reg),), val) && *final(self) == old(
                    self,
                ).spec_set8(reg, val),
    {
        let val = updater(self.get8(reg));
        self.set8(reg, val);
    }
}

/// A file of 16-bit register pairs, each addressed by a name.
pub trait Registers16: Sized {
    type Name: Copy;

    /// The value held by the pair `reg`.
    spec fn spec_get16(&self, reg: Self::Name) -> u16;

    /// The register file after `val` has been stored into the pair `reg`.
    spec fn spec_set16(self, reg: Self::Name, val: u16) -> Self;

    fn get16(&self, reg: Self::Name) -> (val: u16)
        ensures
            val == self.spec_get16(reg),
    ;

    fn set16(&mut self, reg: Self::Name, val: u16)
        ensures
            *final(self) == old(self).spec_set16(reg, val),
    ;

    /// Replaces the value of the pair `reg` by what `updater` makes of it.
    fn update16(&mut self, reg: Self::Name, updater: impl Fn(u16) -> u16)
        requires
            call_requires(updater, (old(self).spec_get16(reg),)),
        ensures
            exists|val: u16|
                call_ensures(updater, (old(self).spec_get16(reg),), val) && *final(self) == old(
                    self,
                ).spec_set16(reg, val),
    {
        let val = updater(self.get16(reg));
        self.set16(reg, val);
    }
}

} // verus!
