//! Scene-state authority for a renderer.
//!
//! The crate owns a mapping of stable entity identifiers to geometry, spatial
//! transform and visual state, tracks which categories of state changed since
//! the last synchronization, and provides the payload and error mapping used
//! by the command surface that mutates and queries it.

pub mod scene;
pub mod server;

pub use scene::camera::CameraParams;
pub use scene::context::SceneContext;
pub use scene::error::SceneError;
pub use scene::id::EntityId;
pub use scene::mesh::MeshData;
pub use scene::shape::KernelShape;
pub use scene::tessellation::TessParams;
pub use scene::transform::Transform;
pub use scene::visual::VisualFlags;
