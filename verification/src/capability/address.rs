//! Addresses of a fixed-size address space that wraps around at its top.

use vstd::prelude::*;

verus! {

/// A location in an address space of `space()` cells, numbered from zero.
///
/// Address arithmetic never fails: stepping past the last cell arrives at the
/// first one.
pub trait Address: Copy {
    /// How many cells the address space has.
    spec fn space() -> nat;

    /// The number of the cell that this address names.
    spec fn index(self) -> int;

    /// Every address names a cell of the space.
    proof fn lemma_index_in_space(self)
        ensures
            0 <= self.index() < Self::space(),
    ;

    /// Different addresses name different cells.
    proof fn lemma_index_injective(self, other: Self)
        ensures
            self.index() == other.index() ==> self == other,
    ;

    /// The address one cell further up, or the bottom of the space after the
    /// top cell.
    fn successor(self) -> (next: Self)
        ensures
            next.index() == (self.index() + 1) % (Self::space() as int),
    ;
}

/// The number of the cell `offset` cells above `addr`, wrapping at the top of
/// the space.
pub open spec fn index_above<A: Address>(addr: A, offset: int) -> int {
    (addr.index() + offset) % (A::space() as int)
}

/// The number of the cell `offset` cells below `addr`, wrapping at the bottom
/// of the space.
pub open spec fn index_below<A: Address>(addr: A, offset: int) -> int {
    (addr.index() - offset) % (A::space() as int)
}

impl Address for u16 {
    open spec fn space() -> nat {
        0x1_0000
    }

    open spec fn index(self) -> int {
        self as int
    }

    proof fn lemma_index_in_space(self) {
    }

    proof fn lemma_index_injective(self, other: Self) {
    }

    fn successor(self) -> (next: Self) {
        self.wrapping_add(1)
    }
}

} // verus!
