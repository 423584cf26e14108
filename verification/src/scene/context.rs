use vstd::prelude::*;

use crate::scene::camera::CameraParams;
use crate::scene::error::{SceneError, SceneResult};
use crate::scene::id::EntityId;
use crate::scene::linalg::{identity_matrices, mat4_is_identity, normal_matrix, normal_matrix_of};
use crate::scene::mesh::MeshData;
use crate::scene::shape::KernelShape;
use crate::scene::tessellation::TessParams;
use crate::scene::transform::Transform;
use crate::scene::visual::{lemma_dirty_masks, lemma_union_contains_mask, lemma_union_nonzero};
use crate::scene::visual::{DirtyFlags, VisualFlags};
use crate::scene::world::{
    all_wf, keys_below, lemma_all_wf_insert, lemma_all_wf_remove, lemma_keys_below_insert,
    lemma_keys_below_remove, lemma_keys_below_weaken, EntityRecord, SceneWorld,
};

verus! {

broadcast use vstd::std_specs::hash::group_hash_axioms;

/// Orchestrates the entity store and the dirty set: every mutation goes
/// through here, accumulates dirty categories, and a synchronization or a
/// render clears them.
#[derive(Debug)]
pub struct SceneContext {
    pub world: SceneWorld,
    pub dirty: DirtyFlags,
}

/// A read-only snapshot of one entity's externally visible state.
#[derive(Debug, Clone)]
pub struct EntityState {
    pub visual: VisualFlags,
    pub transform: Transform,
    pub has_mesh: bool,
}

impl SceneContext {
    /// The live entities, as a map from raw identifier to record.
    pub open spec fn entities(self) -> Map<u64, EntityRecord> {
        self.world.entities@
    }

    /// Every live record satisfies its internal invariant.
    pub open spec fn inv(self) -> bool {
        all_wf(self.entities())
    }

    /// Every live identifier is below the allocator counter. This holds for
    /// as long as entities are submitted without explicit identifiers; an
    /// explicit identifier at or above the counter breaks it, which is the
    /// documented tradeoff of bypassing the allocator.
    pub open spec fn ids_below_counter(self) -> bool {
        keys_below(self.entities(), self.world.next_id)
    }

    /// The identifier a submission uses: the explicit one if given, else the
    /// allocator's next value.
    pub open spec fn resolved_id(self, id: Option<EntityId>) -> u64 {
        match id {
            Some(e) => e.0,
            None => self.world.next_id,
        }
    }

    pub fn new() -> (r: Self)
        ensures
            r.inv(),
            r.ids_below_counter(),
            r.entities() == Map::<u64, EntityRecord>::empty(),
            r.world.next_id == 1,
            r.dirty.spec_is_empty(),
    {
        SceneContext { world: SceneWorld::new(), dirty: DirtyFlags::empty() }
    }

    /// Tessellates `shape` and submits the mesh under `id`, or under a fresh
    /// identifier if none is given. Nothing is assumed about the mesh the
    /// shape returns; `submit_mesh` validates and stores it.
    pub fn submit_shape<T: KernelShape>(
        &mut self,
        id: Option<EntityId>,
        shape: &T,
        params: &TessParams,
    ) -> (r: SceneResult<EntityId>)
        requires
            old(self).inv(),
            id is None ==> old(self).world.next_id < u64::MAX,
        ensures
            final(self).inv(),
            id is None ==> final(self).world.next_id == old(self).world.next_id + 1,
            id is Some ==> final(self).world.next_id == old(self).world.next_id,
            old(self).ids_below_counter() && id is None ==> final(self).ids_below_counter(),
            ({
                let rid = old(self).resolved_id(id);
                match r {
                    Ok(eid) => {
                        &&& eid == EntityId(rid)
                        &&& !old(self).entities().dom().contains(rid)
                        &&& final(self).entities() == old(self).entities().insert(
                            rid,
                            final(self).entities()[rid],
                        )
                        &&& final(self).entities()[rid].visual.bits == 0
                        &&& mat4_is_identity(final(self).entities()[rid].transform.matrix)
                        &&& final(self).entities()[rid].mesh is Some
                        &&& final(self).entities()[rid].wf()
                        &&& final(self).dirty.bits == old(self).dirty.bits | (DirtyFlags::GEOMETRY
                            | DirtyFlags::TRANSFORM | DirtyFlags::VISUAL)
                        &&& final(self).dirty.spec_contains(
                            DirtyFlags::GEOMETRY | DirtyFlags::TRANSFORM | DirtyFlags::VISUAL,
                        )
                        &&& !final(self).dirty.spec_is_empty()
                    },
                    Err(SceneError::InvalidState(_)) => {
                        &&& old(self).entities().dom().contains(rid)
                        &&& final(self).entities() == old(self).entities()
                        &&& final(self).dirty == old(self).dirty
                    },
                    Err(SceneError::ResourceMissing(_)) => {
                        &&& !old(self).entities().dom().contains(rid)
                        &&& final(self).entities() == old(self).entities()
                        &&& final(self).dirty == old(self).dirty
                    },
                    _ => false,
                }
            }),
    {
        let mesh = shape.tessellate(params);
        self.submit_mesh(id, mesh)
    }

    /// Submits an already tessellated mesh under `id`, or under a fresh
    /// identifier if none is given. Fails with `InvalidState` exactly when
    /// the resolved identifier already has a live record, and with
    /// `ResourceMissing` exactly when the identifier is free but the mesh has
    /// no vertices or no indices; on success the new record has all-unset
    /// visual flags, the identity transform, the given mesh, and all three
    /// dirty categories are marked.
    pub fn submit_mesh(&mut self, id: Option<EntityId>, mesh: MeshData) -> (r: SceneResult<
        EntityId,
    >)
        requires
            old(self).inv(),
            id is None ==> old(self).world.next_id < u64::MAX,
        ensures
            final(self).inv(),
            id is None ==> final(self).world.next_id == old(self).world.next_id + 1,
            id is Some ==> final(self).world.next_id == old(self).world.next_id,
            old(self).ids_below_counter() && id is None ==> final(self).ids_below_counter(),
            r is Ok <==> (!old(self).entities().dom().contains(old(self).resolved_id(id))
                && !mesh.spec_is_empty()),
            ({
                let rid = old(self).resolved_id(id);
                match r {
                    Ok(eid) => {
                        &&& eid == EntityId(rid)
                        &&& final(self).entities() == old(self).entities().insert(
                            rid,
                            final(self).entities()[rid],
                        )
                        &&& final(self).entities()[rid].visual.bits == 0
                        &&& mat4_is_identity(final(self).entities()[rid].transform.matrix)
                        &&& final(self).entities()[rid].mesh == Some(mesh)
                        &&& final(self).entities()[rid].wf()
                        &&& final(self).dirty.bits == old(self).dirty.bits | (DirtyFlags::GEOMETRY
                            | DirtyFlags::TRANSFORM | DirtyFlags::VISUAL)
                        &&& final(self).dirty.spec_contains(
                            DirtyFlags::GEOMETRY | DirtyFlags::TRANSFORM | DirtyFlags::VISUAL,
                        )
                        &&& !final(self).dirty.spec_is_empty()
                    },
                    Err(SceneError::InvalidState(_)) => {
                        &&& old(self).entities().dom().contains(rid)
                        &&& final(self).entities() == old(self).entities()
                        &&& final(self).dirty == old(self).dirty
                    },
                    Err(SceneError::ResourceMissing(_)) => {
                        &&& !old(self).entities().dom().contains(rid)
                        &&& mesh.spec_is_empty()
                        &&& final(self).entities() == old(self).entities()
                        &&& final(self).dirty == old(self).dirty
                    },
                    _ => false,
                }
            }),
    {
        let ghost old_map = old(self).entities();
        let ghost old_next = old(self).world.next_id;
        let entity_id = match id {
            Some(e) => e,
            None => self.world.allocate_id(),
        };
        if self.world.entities.contains_key(&entity_id.0) {
            proof {
                if old(self).ids_below_counter() && id is None {
                    lemma_keys_below_weaken(old_map, old_next, self.world.next_id);
                }
            }
            return Err(SceneError::InvalidState("entity already exists"));
        }
        if mesh.is_empty() {
            proof {
                if old(self).ids_below_counter() && id is None {
                    lemma_keys_below_weaken(old_map, old_next, self.world.next_id);
                }
            }
            return Err(SceneError::ResourceMissing("tessellation produced empty mesh"));
        }
        let (model, normal) = identity_matrices();
        let record = EntityRecord {
            visual: VisualFlags::empty(),
            transform: Transform { matrix: model },
            mesh: Some(mesh),
            model_matrix: model,
            normal_matrix: normal,
        };
        let ghost grecord = record;
        self.world.entities.insert(entity_id.0, record);
        let prev_dirty = self.dirty.bits;
        self.dirty.insert(DirtyFlags::GEOMETRY | DirtyFlags::TRANSFORM | DirtyFlags::VISUAL);
        proof {
            lemma_dirty_masks();
            lemma_union_contains_mask(
                prev_dirty,
                DirtyFlags::GEOMETRY | DirtyFlags::TRANSFORM | DirtyFlags::VISUAL,
            );
            lemma_union_nonzero(
                prev_dirty,
                DirtyFlags::GEOMETRY | DirtyFlags::TRANSFORM | DirtyFlags::VISUAL,
            );
            lemma_all_wf_insert(old_map, entity_id.0, grecord);
            if old(self).ids_below_counter() && id is None {
                lemma_keys_below_weaken(old_map, old_next, self.world.next_id);
                lemma_keys_below_insert(old_map, entity_id.0, grecord, self.world.next_id);
            }
        }
        Ok(entity_id)
    }

    /// Removes the entity; fails with `UnknownEntity` exactly when no record
    /// is live under `id`. A removal touches geometry, transform and visual
    /// state at once, so it marks all three categories dirty.
    pub fn remove(&mut self, id: EntityId) -> (r: SceneResult<()>)
        requires
            old(self).inv(),
        ensures
            final(self).inv(),
            final(self).world.next_id == old(self).world.next_id,
            old(self).ids_below_counter() ==> final(self).ids_below_counter(),
            r is Ok <==> old(self).entities().dom().contains(id.0),
            match r {
                Ok(_) => {
                    &&& final(self).entities() == old(self).entities().remove(id.0)
                    &&& final(self).dirty.bits == old(self).dirty.bits | (DirtyFlags::GEOMETRY
                        | DirtyFlags::TRANSFORM | DirtyFlags::VISUAL)
                    &&& !final(self).dirty.spec_is_empty()
                },
                Err(e) => {
                    &&& e matches SceneError::UnknownEntity(u) && u == id.0
                    &&& final(self).entities() == old(self).entities()
                    &&& final(self).dirty == old(self).dirty
                },
            },
    {
        let ghost old_map = old(self).entities();
        let ghost old_next = old(self).world.next_id;
        match self.world.entities.remove(&id.0) {
            None => {
                proof {
                    assert(old_map.remove(id.0) =~= old_map);
                }
                Err(SceneError::UnknownEntity(id.0))
            },
            Some(_removed) => {
                let prev_dirty = self.dirty.bits;
                self.dirty.insert(
                    DirtyFlags::GEOMETRY | DirtyFlags::TRANSFORM | DirtyFlags::VISUAL,
                );
                proof {
                    lemma_dirty_masks();
                    lemma_union_nonzero(
                        prev_dirty,
                        DirtyFlags::GEOMETRY | DirtyFlags::TRANSFORM | DirtyFlags::VISUAL,
                    );
                    lemma_all_wf_remove(old_map, id.0);
                    if old(self).ids_below_counter() {
                        lemma_keys_below_remove(old_map, id.0, old_next);
                    }
                }
                Ok(())
            },
        }
    }

    /// Sets the VISIBLE facet of the entity's visual flags to `visible`,
    /// leaving the other facets untouched, and marks VISUAL dirty; fails with
    /// `UnknownEntity` exactly when no record is live under `id`.
    pub fn set_visibility(&mut self, id: EntityId, visible: bool) -> (r: SceneResult<()>)
        requires
            old(self).inv(),
        ensures
            final(self).inv(),
            final(self).world.next_id == old(self).world.next_id,
            old(self).ids_below_counter() ==> final(self).ids_below_counter(),
            r is Ok <==> old(self).entities().dom().contains(id.0),
            match r {
                Ok(_) => {
                    let pre = old(self).entities()[id.0];
                    let post = final(self).entities()[id.0];
                    &&& final(self).entities() == old(self).entities().insert(id.0, post)
                    &&& post.visual.is_visible() == visible
                    &&& post.visual.is_selected() == pre.visual.is_selected()
                    &&& post.visual.is_highlighted() == pre.visual.is_highlighted()
                    &&& post.transform == pre.transform
                    &&& post.mesh == pre.mesh
                    &&& post.model_matrix == pre.model_matrix
                    &&& post.normal_matrix == pre.normal_matrix
                    &&& final(self).dirty.bits == old(self).dirty.bits | DirtyFlags::VISUAL
                    &&& !final(self).dirty.spec_is_empty()
                },
                Err(e) => {
                    &&& e matches SceneError::UnknownEntity(u) && u == id.0
                    &&& final(self).entities() == old(self).entities()
                    &&& final(self).dirty == old(self).dirty
                },
            },
    {
        let ghost old_map = old(self).entities();
        let ghost old_next = old(self).world.next_id;
        match self.world.entities.remove(&id.0) {
            None => {
                proof {
                    assert(old_map.remove(id.0) =~= old_map);
                }
                Err(SceneError::UnknownEntity(id.0))
            },
            Some(rec) => {
                let updated = EntityRecord { visual: rec.visual.visible(visible), ..rec };
                let ghost gupdated = updated;
                self.world.entities.insert(id.0, updated);
                let prev_dirty = self.dirty.bits;
                self.dirty.insert(DirtyFlags::VISUAL);
                proof {
                    lemma_dirty_masks();
                    lemma_union_nonzero(prev_dirty, DirtyFlags::VISUAL);
                    assert(old_map.dom().contains(id.0));
                    assert(self.world.entities@ =~= old_map.insert(id.0, gupdated));
                    lemma_all_wf_insert(old_map, id.0, gupdated);
                    if old(self).ids_below_counter() {
                        lemma_keys_below_insert(old_map, id.0, gupdated, old_next);
                    }
                }
                Ok(())
            },
        }
    }

    /// Sets the HIGHLIGHTED facet of the entity's visual flags to
    /// `highlighted`, leaving the other facets untouched, and marks VISUAL
    /// dirty; fails with `UnknownEntity` exactly when no record is live under
    /// `id`.
    pub fn set_highlight(&mut self, id: EntityId, highlighted: bool) -> (r: SceneResult<()>)
        requires
            old(self).inv(),
        ensures
            final(self).inv(),
            final(self).world.next_id == old(self).world.next_id,
            old(self).ids_below_counter() ==> final(self).ids_below_counter(),
            r is Ok <==> old(self).entities().dom().contains(id.0),
            match r {
                Ok(_) => {
                    let pre = old(self).entities()[id.0];
                    let post = final(self).entities()[id.0];
                    &&& final(self).entities() == old(self).entities().insert(id.0, post)
                    &&& post.visual.is_highlighted() == highlighted
                    &&& post.visual.is_visible() == pre.visual.is_visible()
                    &&& post.visual.is_selected() == pre.visual.is_selected()
                    &&& post.transform == pre.transform
                    &&& post.mesh == pre.mesh
                    &&& post.model_matrix == pre.model_matrix
                    &&& post.normal_matrix == pre.normal_matrix
                    &&& final(self).dirty.bits == old(self).dirty.bits | DirtyFlags::VISUAL
                    &&& !final(self).dirty.spec_is_empty()
                },
                Err(e) => {
                    &&& e matches SceneError::UnknownEntity(u) && u == id.0
                    &&& final(self).entities() == old(self).entities()
                    &&& final(self).dirty == old(self).dirty
                },
            },
    {
        let ghost old_map = old(self).entities();
        let ghost old_next = old(self).world.next_id;
        match self.world.entities.remove(&id.0) {
            None => {
                proof {
                    assert(old_map.remove(id.0) =~= old_map);
                }
                Err(SceneError::UnknownEntity(id.0))
            },
            Some(rec) => {
                let updated = EntityRecord { visual: rec.visual.highlighted(highlighted), ..rec };
                let ghost gupdated = updated;
                self.world.entities.insert(id.0, updated);
                let prev_dirty = self.dirty.bits;
                self.dirty.insert(DirtyFlags::VISUAL);
                proof {
                    lemma_dirty_masks();
                    lemma_union_nonzero(prev_dirty, DirtyFlags::VISUAL);
                    assert(old_map.dom().contains(id.0));
                    assert(self.world.entities@ =~= old_map.insert(id.0, gupdated));
                    lemma_all_wf_insert(old_map, id.0, gupdated);
                    if old(self).ids_below_counter() {
                        lemma_keys_below_insert(old_map, id.0, gupdated, old_next);
                    }
                }
                Ok(())
            },
        }
    }

    /// Sets the SELECTED facet of the entity's visual flags to `selected`,
    /// leaving the other facets untouched, and marks VISUAL dirty; fails with
    /// `UnknownEntity` exactly when no record is live under `id`.
    pub fn set_selected(&mut self, id: EntityId, selected: bool) -> (r: SceneResult<()>)
        requires
            old(self).inv(),
        ensures
            final(self).inv(),
            final(self).world.next_id == old(self).world.next_id,
            old(self).ids_below_counter() ==> final(self).ids_below_counter(),
            r is Ok <==> old(self).entities().dom().contains(id.0),
            match r {
                Ok(_) => {
                    let pre = old(self).entities()[id.0];
                    let post = final(self).entities()[id.0];
                    &&& final(self).entities() == old(self).entities().insert(id.0, post)
                    &&& post.visual.is_selected() == selected
                    &&& post.visual.is_visible() == pre.visual.is_visible()
                    &&& post.visual.is_highlighted() == pre.visual.is_highlighted()
                    &&& post.transform == pre.transform
                    &&& post.mesh == pre.mesh
                    &&& post.model_matrix == pre.model_matrix
                    &&& post.normal_matrix == pre.normal_matrix
                    &&& final(self).dirty.bits == old(self).dirty.bits | DirtyFlags::VISUAL
                    &&& !final(self).dirty.spec_is_empty()
                },
                Err(e) => {
                    &&& e matches SceneError::UnknownEntity(u) && u == id.0
                    &&& final(self).entities() == old(self).entities()
                    &&& final(self).dirty == old(self).dirty
                },
            },
    {
        let ghost old_map = old(self).entities();
        let ghost old_next = old(self).world.next_id;
        match self.world.entities.remove(&id.0) {
            None => {
                proof {
                    assert(old_map.remove(id.0) =~= old_map);
                }
                Err(SceneError::UnknownEntity(id.0))
            },
            Some(rec) => {
                let updated = EntityRecord { visual: rec.visual.selected(selected), ..rec };
                let ghost gupdated = updated;
                self.world.entities.insert(id.0, updated);
                let prev_dirty = self.dirty.bits;
                self.dirty.insert(DirtyFlags::VISUAL);
                proof {
                    lemma_dirty_masks();
                    lemma_union_nonzero(prev_dirty, DirtyFlags::VISUAL);
                    assert(old_map.dom().contains(id.0));
                    assert(self.world.entities@ =~= old_map.insert(id.0, gupdated));
                    lemma_all_wf_insert(old_map, id.0, gupdated);
                    if old(self).ids_below_counter() {
                        lemma_keys_below_insert(old_map, id.0, gupdated, old_next);
                    }
                }
                Ok(())
            },
        }
    }

    /// Replaces the entity's transform, recomputes the model matrix (equal to
    /// the transform matrix) and the normal matrix (inverse transpose of its
    /// upper-left 3x3 block), and marks TRANSFORM dirty; fails with
    /// `UnknownEntity` exactly when no record is live under `id`.
    pub fn set_transform(&mut self, id: EntityId, transform: Transform) -> (r: SceneResult<()>)
        requires
            old(self).inv(),
        ensures
            final(self).inv(),
            final(self).world.next_id == old(self).world.next_id,
            old(self).ids_below_counter() ==> final(self).ids_below_counter(),
            r is Ok <==> old(self).entities().dom().contains(id.0),
            match r {
                Ok(_) => {
                    let pre = old(self).entities()[id.0];
                    let post = final(self).entities()[id.0];
                    &&& final(self).entities() == old(self).entities().insert(id.0, post)
                    &&& post.transform == transform
                    &&& post.model_matrix == transform.matrix
                    &&& post.normal_matrix == normal_matrix_of(transform.matrix)
                    &&& post.visual == pre.visual
                    &&& post.mesh == pre.mesh
                    &&& final(self).dirty.bits == old(self).dirty.bits | DirtyFlags::TRANSFORM
                    &&& !final(self).dirty.spec_is_empty()
                },
                Err(e) => {
                    &&& e matches SceneError::UnknownEntity(u) && u == id.0
                    &&& final(self).entities() == old(self).entities()
                    &&& final(self).dirty == old(self).dirty
                },
            },
    {
        let ghost old_map = old(self).entities();
        let ghost old_next = old(self).world.next_id;
        match self.world.entities.remove(&id.0) {
            None => {
                proof {
                    assert(old_map.remove(id.0) =~= old_map);
                }
                Err(SceneError::UnknownEntity(id.0))
            },
            Some(rec) => {
                let updated = EntityRecord {
                    transform,
                    model_matrix: transform.matrix,
                    normal_matrix: normal_matrix(&transform.matrix),
                    ..rec
                };
                let ghost gupdated = updated;
                self.world.entities.insert(id.0, updated);
                let prev_dirty = self.dirty.bits;
                self.dirty.insert(DirtyFlags::TRANSFORM);
                proof {
                    lemma_dirty_masks();
                    lemma_union_nonzero(prev_dirty, DirtyFlags::TRANSFORM);
                    assert(old_map.dom().contains(id.0));
                    assert(self.world.entities@ =~= old_map.insert(id.0, gupdated));
                    lemma_all_wf_insert(old_map, id.0, gupdated);
                    if old(self).ids_below_counter() {
                        lemma_keys_below_insert(old_map, id.0, gupdated, old_next);
                    }
                }
                Ok(())
            },
        }
    }

    /// Draws the scene with `camera`, synchronizing first if any category is
    /// dirty; no caller observes a non-empty dirty set after a successful
    /// call. Entity state is untouched.
    pub fn render(&mut self, _camera: &CameraParams) -> (r: SceneResult<()>)
        requires
            old(self).inv(),
        ensures
            final(self).inv(),
            final(self).world.next_id == old(self).world.next_id,
            old(self).ids_below_counter() ==> final(self).ids_below_counter(),
            r is Ok,
            final(self).dirty.spec_is_empty(),
            final(self).entities() == old(self).entities(),
    {
        if !self.dirty.is_empty() {
            match self.sync_gpu() {
                Ok(_) => (),
                Err(e) => {
                    return Err(e);
                },
            }
        }
        Ok(())
    }

    /// Reconciles accumulated changes with the rendering backend and clears
    /// the dirty set; the current backend is a no-op that never fails, so the
    /// call always succeeds and entity state is untouched. Repeating it
    /// leaves the dirty set empty.
    pub fn sync_gpu(&mut self) -> (r: SceneResult<()>)
        requires
            old(self).inv(),
        ensures
            final(self).inv(),
            final(self).world.next_id == old(self).world.next_id,
            old(self).ids_below_counter() ==> final(self).ids_below_counter(),
            r is Ok,
            final(self).dirty.spec_is_empty(),
            final(self).entities() == old(self).entities(),
    {
        self.dirty = DirtyFlags::empty();
        Ok(())
    }

    /// A read-only snapshot of the entity's visual flags, transform and mesh
    /// presence; fails with `UnknownEntity` exactly when no record is live
    /// under `id`.
    pub fn get_state(&self, id: EntityId) -> (r: SceneResult<EntityState>)
        ensures
            r is Ok <==> self.entities().dom().contains(id.0),
            match r {
                Ok(st) => {
                    &&& st.visual == self.entities()[id.0].visual
                    &&& st.transform == self.entities()[id.0].transform
                    &&& st.has_mesh == (self.entities()[id.0].mesh is Some)
                },
                Err(e) => e matches SceneError::UnknownEntity(u) && u == id.0,
            },
    {
        match self.world.entities.get(&id.0) {
            None => Err(SceneError::UnknownEntity(id.0)),
            Some(rec) => Ok(
                EntityState {
                    visual: rec.visual,
                    transform: rec.transform,
                    has_mesh: rec.mesh.is_some(),
                },
            ),
        }
    }

    /// The process-wide dirty set.
    pub fn dirty_flags(&self) -> (r: DirtyFlags)
        ensures
            r == self.dirty,
    {
        self.dirty
    }
}

impl Default for SceneContext {
    fn default() -> (r: Self)
        ensures
            r.inv(),
            r.ids_below_counter(),
            r.entities() == Map::<u64, EntityRecord>::empty(),
            r.world.next_id == 1,
            r.dirty.spec_is_empty(),
    {
        SceneContext::new()
    }
}

} // verus!
