use vstd::prelude::*;

verus! {

/// Visual state for an entity: a small bitmask over the three independent
/// facets VISIBLE, SELECTED and HIGHLIGHTED. The default state is all-unset,
/// so a freshly submitted entity is not visible until explicitly made so.
#[derive(Clone, Copy, Debug, PartialEq, Eq, Structural)]
pub struct VisualFlags {
    pub bits: u32,
}

impl VisualFlags {
    pub const VISIBLE: u32 = 0b0001;

    pub const SELECTED: u32 = 0b0010;

    pub const HIGHLIGHTED: u32 = 0b0100;

    pub open spec fn is_visible(self) -> bool {
        self.bits & 0b0001 != 0
    }

    pub open spec fn is_selected(self) -> bool {
        self.bits & 0b0010 != 0
    }

    pub open spec fn is_highlighted(self) -> bool {
        self.bits & 0b0100 != 0
    }

    /// The all-unset state: invisible, unselected, unhighlighted.
    pub fn empty() -> (r: Self)
        ensures
            r.bits == 0,
    {
        VisualFlags { bits: 0 }
    }

    /// True when every bit of `mask` is set.
    pub fn contains(self, mask: u32) -> (r: bool)
        ensures
            r == (self.bits & mask == mask),
    {
        self.bits & mask == mask
    }

    /// Returns the flags with the VISIBLE facet set to `on`; the other two
    /// facets are untouched.
    pub fn visible(self, on: bool) -> (r: Self)
        ensures
            r.is_visible() == on,
            r.is_selected() == self.is_selected(),
            r.is_highlighted() == self.is_highlighted(),
            r.bits == (if on { self.bits | 0b0001u32 } else { self.bits & !0b0001u32 }),
    {
        if on {
            let b = self.bits;
            let bits = b | 0b0001u32;
            proof {
                assert(bits & 0b0001u32 != 0 && bits & 0b0010u32 == b & 0b0010u32
                    && bits & 0b0100u32 == b & 0b0100u32) by (bit_vector)
                    requires
                        bits == b | 0b0001u32,
                ;
            }
            VisualFlags { bits }
        } else {
            let b = self.bits;
            let bits = b & ! 0b0001u32;
            proof {
                assert(bits & 0b0001u32 == 0 && bits & 0b0010u32 == b & 0b0010u32
                    && bits & 0b0100u32 == b & 0b0100u32) by (bit_vector)
                    requires
                        bits == b & ! 0b0001u32,
                ;
            }
            VisualFlags { bits }
        }
    }

    /// Returns the flags with the SELECTED facet set to `on`; the other two
    /// facets are untouched.
    pub fn selected(self, on: bool) -> (r: Self)
        ensures
            r.is_selected() == on,
            r.is_visible() == self.is_visible(),
            r.is_highlighted() == self.is_highlighted(),
            r.bits == (if on { self.bits | 0b0010u32 } else { self.bits & !0b0010u32 }),
    {
        if on {
            let b = self.bits;
            let bits = b | 0b0010u32;
            proof {
                assert(bits & 0b0010u32 != 0 && bits & 0b0001u32 == b & 0b0001u32
                    && bits & 0b0100u32 == b & 0b0100u32) by (bit_vector)
                    requires
                        bits == b | 0b0010u32,
                ;
            }
            VisualFlags { bits }
        } else {
            let b = self.bits;
            let bits = b & ! 0b0010u32;
            proof {
                assert(bits & 0b0010u32 == 0 && bits & 0b0001u32 == b & 0b0001u32
                    && bits & 0b0100u32 == b & 0b0100u32) by (bit_vector)
                    requires
                        bits == b & ! 0b0010u32,
                ;
            }
            VisualFlags { bits }
        }
    }

    /// Returns the flags with the HIGHLIGHTED facet set to `on`; the other two
    /// facets are untouched.
    pub fn highlighted(self, on: bool) -> (r: Self)
        ensures
            r.is_highlighted() == on,
            r.is_visible() == self.is_visible(),
            r.is_selected() == self.is_selected(),
            r.bits == (if on { self.bits | 0b0100u32 } else { self.bits & !0b0100u32 }),
    {
        if on {
            let b = self.bits;
            let bits = b | 0b0100u32;
            proof {
                assert(bits & 0b0100u32 != 0 && bits & 0b0001u32 == b & 0b0001u32
                    && bits & 0b0010u32 == b & 0b0010u32) by (bit_vector)
                    requires
                        bits == b | 0b0100u32,
                ;
            }
            VisualFlags { bits }
        } else {
            let b = self.bits;
            let bits = b & ! 0b0100u32;
            proof {
                assert(bits & 0b0100u32 == 0 && bits & 0b0001u32 == b & 0b0001u32
                    && bits & 0b0010u32 == b & 0b0010u32) by (bit_vector)
                    requires
                        bits == b & ! 0b0100u32,
                ;
            }
            VisualFlags { bits }
        }
    }
}

/// Process-wide dirty markers for incremental synchronization: a bitmask over
/// the three state categories GEOMETRY, TRANSFORM and VISUAL. Any mutation in
/// a category marks the whole category dirty; a successful synchronization
/// clears the set.
#[derive(Clone, Copy, Debug, PartialEq, Eq, Structural)]
pub struct DirtyFlags {
    pub bits: u32,
}

impl DirtyFlags {
    pub const GEOMETRY: u32 = 0b0001;

    pub const TRANSFORM: u32 = 0b0010;

    pub const VISUAL: u32 = 0b0100;

    pub open spec fn spec_is_empty(self) -> bool {
        self.bits == 0
    }

    pub open spec fn spec_contains(self, mask: u32) -> bool {
        self.bits & mask == mask
    }

    /// The clean state: no category needs resynchronization.
    pub fn empty() -> (r: Self)
        ensures
            r.bits == 0,
            r.spec_is_empty(),
    {
        DirtyFlags { bits: 0 }
    }

    pub fn is_empty(&self) -> (r: bool)
        ensures
            r == self.spec_is_empty(),
    {
        self.bits == 0
    }

    /// True when every bit of `mask` is set.
    pub fn contains(self, mask: u32) -> (r: bool)
        ensures
            r == self.spec_contains(mask),
    {
        self.bits & mask == mask
    }

    /// Marks every category of `mask` dirty; already-dirty categories stay
    /// dirty.
    pub fn insert(&mut self, mask: u32)
        ensures
            final(self).bits == old(self).bits | mask,
    {
        self.bits = self.bits | mask;
    }
}

/// The values of the three dirty category masks and of their union; bitwise
/// operators are opaque outside bit-vector proofs, so the union is pinned
/// here once.
pub proof fn lemma_dirty_masks()
    ensures
        DirtyFlags::GEOMETRY | DirtyFlags::TRANSFORM | DirtyFlags::VISUAL == 0b0111u32,
        DirtyFlags::GEOMETRY != 0,
        DirtyFlags::TRANSFORM != 0,
        DirtyFlags::VISUAL != 0,
{
    assert(0b0001u32 | 0b0010u32 | 0b0100u32 == 0b0111u32) by (bit_vector);
}

/// A bitmask union contains every bit of the mask it was united with.
pub proof fn lemma_union_contains_mask(b: u32, mask: u32)
    ensures
        (b | mask) & mask == mask,
{
    assert((b | mask) & mask == mask) by (bit_vector);
}

/// Uniting a non-zero mask into a bitmask leaves it non-zero.
pub proof fn lemma_union_nonzero(b: u32, mask: u32)
    requires
        mask != 0,
    ensures
        b | mask != 0,
{
    assert(mask != 0 ==> (b | mask) != 0) by (bit_vector);
}

} // verus!
