use vstd::prelude::*;

verus! {

/// Stable identifier for entities. Never recycled to avoid accidental reuse.
#[derive(Copy, Clone, Debug, PartialEq, Eq, Hash, PartialOrd, Ord, Structural)]
pub struct EntityId(pub u64);

} // verus!
