use vstd::prelude::*;

use std::collections::HashMap;

use crate::scene::id::EntityId;
use crate::scene::linalg::normal_matrix_of;
use crate::scene::mesh::MeshData;
use crate::scene::transform::Transform;
use crate::scene::visual::VisualFlags;

verus! {

broadcast use vstd::std_specs::hash::group_hash_axioms;

/// The authoritative per-entity state: visual flags, transform, optional
/// mesh, and the two matrices derived from the transform.
#[derive(Debug, Clone)]
pub struct EntityRecord {
    pub visual: VisualFlags,
    pub transform: Transform,
    pub mesh: Option<MeshData>,
    pub model_matrix: glam::Mat4,
    pub normal_matrix: glam::Mat3,
}

impl EntityRecord {
    /// The record's internal invariant: the model matrix equals the transform
    /// matrix, the normal matrix is the inverse transpose of the transform's
    /// upper-left 3x3 block as of the last transform change, and the mesh is
    /// present and non-empty.
    pub open spec fn wf(self) -> bool {
        &&& self.model_matrix == self.transform.matrix
        &&& self.normal_matrix == normal_matrix_of(self.transform.matrix)
        &&& match self.mesh {
            Some(m) => !m.spec_is_empty(),
            None => false,
        }
    }
}

/// Owns the mapping from identifier to entity record and the next-identifier
/// counter; the sole owner of all entity lifetimes.
#[derive(Debug)]
pub struct SceneWorld {
    pub entities: HashMap<u64, EntityRecord>,
    pub next_id: u64,
}

impl SceneWorld {
    pub fn new() -> (r: Self)
        ensures
            r.entities@ == Map::<u64, EntityRecord>::empty(),
            r.next_id == 1,
    {
        SceneWorld { entities: HashMap::new(), next_id: 1 }
    }

    /// Issues the next unused identifier and advances the counter; no two
    /// calls within the store's lifetime return the same value, even across
    /// removals, because the counter never decreases.
    pub fn allocate_id(&mut self) -> (r: EntityId)
        requires
            old(self).next_id < u64::MAX,
        ensures
            r.0 == old(self).next_id,
            final(self).next_id == old(self).next_id + 1,
            final(self).entities@ == old(self).entities@,
    {
        let id = EntityId(self.next_id);
        self.next_id = self.next_id + 1;
        id
    }
}

/// Every record of the map satisfies its internal invariant.
pub open spec fn all_wf(m: Map<u64, EntityRecord>) -> bool {
    forall|k: u64| #[trigger] m.dom().contains(k) ==> m[k].wf()
}

/// Every key of the map is below `next`.
pub open spec fn keys_below(m: Map<u64, EntityRecord>, next: u64) -> bool {
    forall|k: u64| #[trigger] m.dom().contains(k) ==> k < next
}

pub proof fn lemma_all_wf_insert(m: Map<u64, EntityRecord>, k: u64, rec: EntityRecord)
    requires
        all_wf(m),
        rec.wf(),
    ensures
        all_wf(m.insert(k, rec)),
{
    assert forall|j: u64| #[trigger] m.insert(k, rec).dom().contains(j) implies m.insert(
        k,
        rec,
    )[j].wf() by {
        if j != k {
            assert(m.dom().contains(j));
        }
    }
}

pub proof fn lemma_all_wf_remove(m: Map<u64, EntityRecord>, k: u64)
    requires
        all_wf(m),
    ensures
        all_wf(m.remove(k)),
{
    assert forall|j: u64| #[trigger] m.remove(k).dom().contains(j) implies m.remove(
        k,
    )[j].wf() by {
        assert(m.dom().contains(j));
    }
}

pub proof fn lemma_keys_below_insert(m: Map<u64, EntityRecord>, k: u64, rec: EntityRecord, next: u64)
    requires
        keys_below(m, next),
        k < next,
    ensures
        keys_below(m.insert(k, rec), next),
{
    assert forall|j: u64| #[trigger] m.insert(k, rec).dom().contains(j) implies j < next by {
        if j != k {
            assert(m.dom().contains(j));
        }
    }
}

pub proof fn lemma_keys_below_remove(m: Map<u64, EntityRecord>, k: u64, next: u64)
    requires
        keys_below(m, next),
    ensures
        keys_below(m.remove(k), next),
{
    assert forall|j: u64| #[trigger] m.remove(k).dom().contains(j) implies j < next by {
        assert(m.dom().contains(j));
    }
}

pub proof fn lemma_keys_below_weaken(m: Map<u64, EntityRecord>, lo: u64, hi: u64)
    requires
        keys_below(m, lo),
        lo <= hi,
    ensures
        keys_below(m, hi),
{
    assert forall|j: u64| #[trigger] m.dom().contains(j) implies j < hi by {
        assert(m.dom().contains(j));
    }
}

/// Identifier freshness: live identifiers are unique at any point in time
/// because they form the domain of a map, and this lemma adds that when every
/// live identifier is below the allocator counter, the counter's current
/// value is not live, inserting under it preserves the bound for the advanced
/// counter, and removing any identifier preserves the bound. Identifiers
/// issued by the allocator are therefore never reused, even after removal.
pub proof fn lemma_allocator_freshness(
    m: Map<u64, EntityRecord>,
    next: u64,
    rec: EntityRecord,
    removed: u64,
)
    requires
        next < u64::MAX,
        keys_below(m, next),
    ensures
        !m.dom().contains(next),
        keys_below(m.insert(next, rec), (next + 1) as u64),
        keys_below(m.remove(removed), next),
{
    lemma_keys_below_weaken(m, next, (next + 1) as u64);
    lemma_keys_below_insert(m, next, rec, (next + 1) as u64);
    lemma_keys_below_remove(m, removed, next);
}

} // verus!
