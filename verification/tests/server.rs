use scene_core::scene::error::SceneError;
use scene_core::scene::mesh::MeshData;
use scene_core::scene::shape::KernelShape;
use scene_core::scene::tessellation::TessParams;
use scene_core::scene::visual::VisualFlags;
use scene_core::server::api::u64_to_decimal;
use scene_core::server::models::{
    EmptyResponse, FlagRequest, RenderResponse, ShapePayload, SubmitEntityResponse, VisualPayload,
};
use scene_core::server::ApiError;

fn triangle() -> MeshData {
    MeshData {
        vertices: vec![
            scene_core::scene::mesh::Vertex {
                position: (0.0, 0.0, 0.0).into(),
                normal: (0.0, 0.0, 1.0).into(),
                uv: None,
            },
            scene_core::scene::mesh::Vertex {
                position: (1.0, 0.0, 0.0).into(),
                normal: (0.0, 0.0, 1.0).into(),
                uv: None,
            },
            scene_core::scene::mesh::Vertex {
                position: (0.0, 1.0, 0.0).into(),
                normal: (0.0, 0.0, 1.0).into(),
                uv: None,
            },
        ],
        indices: vec![0, 1, 2],
    }
}

#[test]
fn decimal_rendering_matches_expected_text() {
    assert_eq!(u64_to_decimal(0), "0");
    assert_eq!(u64_to_decimal(7), "7");
    assert_eq!(u64_to_decimal(10), "10");
    assert_eq!(u64_to_decimal(999), "999");
    assert_eq!(u64_to_decimal(1000), "1000");
    assert_eq!(u64_to_decimal(u64::MAX), "18446744073709551615");
}

#[test]
fn unknown_entity_maps_to_404_with_identifier_in_message() {
    let e = ApiError::from_error(&SceneError::UnknownEntity(999));
    assert_eq!(e.status, 404);
    assert_eq!(e.body.code, "UnknownEntity");
    assert_eq!(e.body.message, "unknown entity 999");
}

#[test]
fn each_error_variant_maps_to_its_status_and_code() {
    let e = ApiError::from_error(&SceneError::ResourceMissing("tessellation produced empty mesh"));
    assert_eq!(e.status, 400);
    assert_eq!(e.body.code, "ResourceMissing");
    assert_eq!(e.body.message, "tessellation produced empty mesh");

    let e = ApiError::from_error(&SceneError::InvalidState("entity already exists"));
    assert_eq!(e.status, 400);
    assert_eq!(e.body.code, "InvalidState");
    assert_eq!(e.body.message, "entity already exists");

    let e = ApiError::from_error(&SceneError::Io(String::from("connection reset")));
    assert_eq!(e.status, 500);
    assert_eq!(e.body.code, "Io");
    assert_eq!(e.body.message, "connection reset");

    let e = ApiError::from_error(&SceneError::Backend("device lost"));
    assert_eq!(e.status, 500);
    assert_eq!(e.body.code, "Backend");
    assert_eq!(e.body.message, "device lost");
}

#[test]
fn visual_payload_reflects_each_facet() {
    let flags = VisualFlags::empty().visible(true).highlighted(true);
    let payload = VisualPayload::from(flags);
    assert!(payload.visible);
    assert!(!payload.selected);
    assert!(payload.highlighted);

    let none = VisualPayload::from(VisualFlags::empty());
    assert!(!none.visible && !none.selected && !none.highlighted);

    let all = VisualPayload::from(VisualFlags::empty().visible(true).selected(true).highlighted(true));
    assert!(all.visible && all.selected && all.highlighted);
}

#[test]
fn shape_payload_hands_its_mesh_to_the_kernel_shape() {
    let payload = ShapePayload { mesh: triangle() };
    let shape = payload.into_shape();
    assert_eq!(shape.mesh.vertices.len(), 3);
    let mesh = shape.tessellate(&TessParams::default());
    assert_eq!(mesh.indices, vec![0, 1, 2]);
    assert_eq!(mesh.vertices.len(), 3);
    assert!(!mesh.is_empty());
}

#[test]
fn plain_payload_types_round_values() {
    let submit = SubmitEntityResponse { entity_id: 42 };
    assert_eq!(submit.entity_id, 42);
    let flag = FlagRequest { entity_id: 3, value: true };
    assert_eq!((flag.entity_id, flag.value), (3, true));
    let render = RenderResponse { frame_id: 0 };
    assert_eq!(render.frame_id, 0);
    let empty = EmptyResponse {};
    assert_eq!(empty, EmptyResponse {});
    let params = TessParams::default();
    assert_eq!(f32::from_bits(params.max_angle_bits), 0.05);
    assert_eq!(f32::from_bits(params.max_error_bits), 0.001);
}
