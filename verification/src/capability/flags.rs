//! Condition codes that can be saved to and restored from a packed form.

use vstd::prelude::*;

verus! {

/// A record of condition codes with a packed representation, used to save
/// the flags on the stack and to restore them.
pub trait Flags: Sized {
    type Representation;

    /// The packed form of the record.
    spec fn spec_serialize(&self) -> Self::Representation;

    /// The record that a packed form stands for.
    spec fn spec_deserialize(flags: Self::Representation) -> Self;

    /// Unpacking the packed form of a record gives the record back.
    proof fn lemma_round_trip(&self)
        ensures
            Self::spec_deserialize(self.spec_serialize()) == *self,
    ;

    fn serialize(&self) -> (flags: Self::Representation)
        ensures
            flags == self.spec_serialize(),
    ;

    fn deserialize(&mut self, flags: Self::Representation)
        ensures
            *final(self) == Self::spec_deserialize(flags),
    ;
}

} // verus!
