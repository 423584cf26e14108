use glam::{Mat4, Quat, UVec2, Vec3};

use scene_core::scene::context::SceneContext;
use scene_core::scene::error::SceneError;
use scene_core::scene::id::EntityId;
use scene_core::scene::mesh::{MeshData, Vertex};
use scene_core::scene::shape::KernelShape;
use scene_core::scene::tessellation::TessParams;
use scene_core::scene::transform::Transform;
use scene_core::scene::visual::{DirtyFlags, VisualFlags};
use scene_core::CameraParams;

struct DummyShape {
    mesh: MeshData,
}

impl KernelShape for DummyShape {
    fn tessellate(&self, _params: &TessParams) -> MeshData {
        self.mesh.clone()
    }
}

fn simple_triangle() -> MeshData {
    MeshData {
        vertices: vec![
            Vertex { position: (0.0, 0.0, 0.0).into(), normal: (0.0, 0.0, 1.0).into(), uv: None },
            Vertex { position: (1.0, 0.0, 0.0).into(), normal: (0.0, 0.0, 1.0).into(), uv: None },
            Vertex { position: (0.0, 1.0, 0.0).into(), normal: (0.0, 0.0, 1.0).into(), uv: None },
        ],
        indices: vec![0, 1, 2],
    }
}

#[test]
fn submit_sets_dirty_and_returns_id() {
    let mut ctx = SceneContext::new();
    let shape = DummyShape { mesh: simple_triangle() };
    let id = ctx.submit_shape(None, &shape, &TessParams::default()).unwrap();
    assert_eq!(id.0, 1);
    assert!(ctx
        .dirty_flags()
        .contains(DirtyFlags::GEOMETRY | DirtyFlags::TRANSFORM | DirtyFlags::VISUAL));
}

#[test]
fn remove_unknown_entity_errors() {
    let mut ctx = SceneContext::new();
    let err = ctx.remove(EntityId(999)).unwrap_err();
    matches!(err, SceneError::UnknownEntity(999));
}

#[test]
fn empty_mesh_rejected() {
    let mut ctx = SceneContext::new();
    let empty_shape = DummyShape { mesh: MeshData { vertices: vec![], indices: vec![] } };
    let err = ctx.submit_shape(None, &empty_shape, &TessParams::default()).unwrap_err();
    matches!(err, SceneError::ResourceMissing(_));
}

#[test]
fn sync_clears_dirty_before_render() {
    let mut ctx = SceneContext::new();
    let shape = DummyShape { mesh: simple_triangle() };
    let _ = ctx.submit_shape(None, &shape, &TessParams::default()).unwrap();
    let camera = CameraParams::new(Mat4::IDENTITY, Mat4::IDENTITY, UVec2::new(800, 600));
    ctx.render(&camera).unwrap();
    assert!(ctx.dirty_flags().is_empty());
}

#[test]
fn identifiers_never_reused_after_removal() {
    let mut ctx = SceneContext::new();
    for i in 1u64..=1000 {
        let id = ctx.submit_mesh(None, simple_triangle()).unwrap();
        assert_eq!(id.0, i);
    }
    for i in 1u64..=1000 {
        ctx.remove(EntityId(i)).unwrap();
        assert!(ctx.get_state(EntityId(i)).is_err());
    }
    let fresh = ctx.submit_mesh(None, simple_triangle()).unwrap();
    assert_eq!(fresh.0, 1001);
}

#[test]
fn explicit_identifier_collision_is_invalid_state() {
    let mut ctx = SceneContext::new();
    let id = ctx.submit_mesh(Some(EntityId(5)), simple_triangle()).unwrap();
    assert_eq!(id.0, 5);
    let err = ctx.submit_mesh(Some(EntityId(5)), simple_triangle()).unwrap_err();
    assert!(matches!(err, SceneError::InvalidState(_)));
}

#[test]
fn empty_mesh_leaves_dirty_and_entities_untouched() {
    let mut ctx = SceneContext::new();
    let no_indices = MeshData { vertices: simple_triangle().vertices, indices: vec![] };
    let err = ctx.submit_mesh(None, no_indices).unwrap_err();
    assert!(matches!(err, SceneError::ResourceMissing(_)));
    assert!(ctx.dirty_flags().is_empty());
    let no_vertices = MeshData { vertices: vec![], indices: vec![0, 1, 2] };
    let err = ctx.submit_mesh(None, no_vertices).unwrap_err();
    assert!(matches!(err, SceneError::ResourceMissing(_)));
    assert!(ctx.dirty_flags().is_empty());
    assert!(ctx.get_state(EntityId(1)).is_err());
    assert!(ctx.get_state(EntityId(2)).is_err());
}

#[test]
fn fresh_entity_is_invisible_with_identity_transform() {
    let mut ctx = SceneContext::new();
    let id = ctx.submit_mesh(None, simple_triangle()).unwrap();
    let state = ctx.get_state(id).unwrap();
    assert!(!state.visual.contains(VisualFlags::VISIBLE));
    assert!(!state.visual.contains(VisualFlags::SELECTED));
    assert!(!state.visual.contains(VisualFlags::HIGHLIGHTED));
    assert!(state.has_mesh);
    assert_eq!(state.transform.matrix, Mat4::IDENTITY);
}

#[test]
fn toggling_one_facet_leaves_the_others() {
    let mut ctx = SceneContext::new();
    let id = ctx.submit_mesh(None, simple_triangle()).unwrap();
    ctx.set_selected(id, true).unwrap();
    ctx.set_visibility(id, true).unwrap();
    let state = ctx.get_state(id).unwrap();
    assert!(state.visual.contains(VisualFlags::VISIBLE));
    assert!(state.visual.contains(VisualFlags::SELECTED));
    assert!(!state.visual.contains(VisualFlags::HIGHLIGHTED));
    ctx.set_visibility(id, false).unwrap();
    let state = ctx.get_state(id).unwrap();
    assert!(!state.visual.contains(VisualFlags::VISIBLE));
    assert!(state.visual.contains(VisualFlags::SELECTED));
    assert!(!state.visual.contains(VisualFlags::HIGHLIGHTED));
    ctx.set_highlight(id, true).unwrap();
    let state = ctx.get_state(id).unwrap();
    assert!(!state.visual.contains(VisualFlags::VISIBLE));
    assert!(state.visual.contains(VisualFlags::SELECTED));
    assert!(state.visual.contains(VisualFlags::HIGHLIGHTED));
}

#[test]
fn mutating_an_unknown_entity_fails_and_keeps_dirty_clean() {
    let mut ctx = SceneContext::new();
    assert!(matches!(ctx.set_visibility(EntityId(7), true), Err(SceneError::UnknownEntity(7))));
    assert!(matches!(ctx.set_selected(EntityId(7), true), Err(SceneError::UnknownEntity(7))));
    assert!(matches!(ctx.set_highlight(EntityId(7), true), Err(SceneError::UnknownEntity(7))));
    let t = Transform::identity();
    assert!(matches!(ctx.set_transform(EntityId(7), t), Err(SceneError::UnknownEntity(7))));
    assert!(ctx.dirty_flags().is_empty());
}

#[test]
fn set_transform_stores_matrix_and_normal_matrix() {
    let mut ctx = SceneContext::new();
    let id = ctx.submit_mesh(None, simple_triangle()).unwrap();
    let matrix = Mat4::from_scale_rotation_translation(
        Vec3::new(2.0, 3.0, 4.0),
        Quat::from_rotation_z(0.5),
        Vec3::new(1.0, -2.0, 3.0),
    );
    ctx.set_transform(id, Transform { matrix }).unwrap();
    let state = ctx.get_state(id).unwrap();
    assert_eq!(state.transform.matrix, matrix);
    let record = ctx.world.entities.get(&id.0).unwrap();
    assert_eq!(record.model_matrix, matrix);
    let expected_normal = glam::Mat3::from_mat4(matrix).inverse().transpose();
    assert_eq!(record.normal_matrix, expected_normal);
}

#[test]
fn from_trs_composes_like_glam() {
    let translation = Vec3::new(1.0, 2.0, 3.0);
    let rotation = Quat::from_rotation_y(1.0);
    let scale = Vec3::new(1.0, 2.0, 0.5);
    let t = Transform::from_trs(translation, rotation, scale);
    assert_eq!(t.matrix, Mat4::from_scale_rotation_translation(scale, rotation, translation));
}

#[test]
fn dirty_accumulates_per_category_and_sync_is_idempotent() {
    let mut ctx = SceneContext::new();
    let id = ctx.submit_mesh(None, simple_triangle()).unwrap();
    ctx.sync_gpu().unwrap();
    assert!(ctx.dirty_flags().is_empty());
    ctx.set_highlight(id, true).unwrap();
    assert!(ctx.dirty_flags().contains(DirtyFlags::VISUAL));
    assert!(!ctx.dirty_flags().contains(DirtyFlags::GEOMETRY));
    assert!(!ctx.dirty_flags().contains(DirtyFlags::TRANSFORM));
    ctx.set_transform(id, Transform::identity()).unwrap();
    assert!(ctx.dirty_flags().contains(DirtyFlags::TRANSFORM | DirtyFlags::VISUAL));
    ctx.sync_gpu().unwrap();
    assert!(ctx.dirty_flags().is_empty());
    ctx.sync_gpu().unwrap();
    assert!(ctx.dirty_flags().is_empty());
}

#[test]
fn entity_lifecycle_end_to_end() {
    let mut ctx = SceneContext::new();
    let shape = DummyShape { mesh: simple_triangle() };
    let id = ctx.submit_shape(None, &shape, &TessParams::default()).unwrap();
    assert_eq!(id.0, 1);
    let state = ctx.get_state(id).unwrap();
    assert!(state.has_mesh);
    assert!(!state.visual.contains(VisualFlags::VISIBLE));
    ctx.remove(id).unwrap();
    let err = ctx.get_state(id).unwrap_err();
    assert!(matches!(err, SceneError::UnknownEntity(1)));
}
