//! The portable set of change kinds that an event carries.

use vstd::prelude::*;

verus! {

/// Bit for a change of attributes or permissions.
pub const CHMOD: u32 = 0b00001;

/// Bit for the creation of an item.
pub const CREATE: u32 = 0b00010;

/// Bit for the removal of an item.
pub const REMOVE: u32 = 0b00100;

/// Bit for the renaming of an item.
pub const RENAME: u32 = 0b01000;

/// Bit for a change of an item's content.
pub const WRITE: u32 = 0b10000;

/// Every bit that an [`Op`] may hold.
pub const ALL: u32 = 0b11111;

/// A set of change kinds, one bit for each kind. It never holds a bit outside [`ALL`].
#[derive(Clone, Copy, Debug, PartialEq, Eq, Structural)]
pub struct Op {
    bits: u32,
}

impl View for Op {
    type V = u32;

    /// The bits of the set.
    closed spec fn view(&self) -> u32 {
        self.bits
    }
}

impl Op {
    #[verifier::type_invariant]
    spec fn within_all(self) -> bool {
        self.bits & !ALL == 0
    }

    /// The set that holds no kind.
    pub fn empty() -> (r: Op)
        ensures
            r@ == 0,
    {
        assert(0u32 & !ALL == 0) by (bit_vector);
        Op { bits: 0 }
    }

    /// The set that holds the change of attributes alone.
    pub fn chmod() -> (r: Op)
        ensures
            r@ == CHMOD,
    {
        assert(CHMOD & !ALL == 0) by (bit_vector);
        Op { bits: CHMOD }
    }

    /// The set that holds the creation alone.
    pub fn create() -> (r: Op)
        ensures
            r@ == CREATE,
    {
        assert(CREATE & !ALL == 0) by (bit_vector);
        Op { bits: CREATE }
    }

    /// The set that holds the removal alone.
    pub fn remove() -> (r: Op)
        ensures
            r@ == REMOVE,
    {
        assert(REMOVE & !ALL == 0) by (bit_vector);
        Op { bits: REMOVE }
    }

    /// The set that holds the renaming alone.
    pub fn rename() -> (r: Op)
        ensures
            r@ == RENAME,
    {
        assert(RENAME & !ALL == 0) by (bit_vector);
        Op { bits: RENAME }
    }

    /// The set that holds the change of content alone.
    pub fn write() -> (r: Op)
        ensures
            r@ == WRITE,
    {
        assert(WRITE & !ALL == 0) by (bit_vector);
        Op { bits: WRITE }
    }

    /// The raw bits of the set.
    pub fn bits(&self) -> (b: u32)
        ensures
            b == self@,
            b & !ALL == 0,
    {
        proof {
            use_type_invariant(self);
        }
        self.bits
    }

    /// Whether the set holds no kind.
    pub fn is_empty(&self) -> (r: bool)
        ensures
            r == (self@ == 0),
    {
        self.bits == 0
    }

    /// Whether every kind of `other` is in the set.
    pub fn contains(&self, other: Op) -> (r: bool)
        ensures
            r == (self@ & other@ == other@),
    {
        self.bits & other.bits == other.bits
    }

    /// Adds every kind of `other` to the set.
    pub fn insert(&mut self, other: Op)
        ensures
            final(self)@ == old(self)@ | other@,
    {
        proof {
            use_type_invariant(&*self);
            use_type_invariant(&other);
        }
        let a: u32 = self.bits;
        let b: u32 = other.bits;
        assert((a | b) & !ALL == 0) by (bit_vector)
            requires
                a & !ALL == 0,
                b & !ALL == 0,
        ;
        self.bits = a | b;
    }
}

} // verus!
