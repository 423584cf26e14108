//! The entity store, its identifier allocator, the visual and dirty bitsets,
//! and the scene context that orchestrates them.

pub mod camera;
pub mod context;
pub mod error;
pub mod id;
pub mod linalg;
pub mod mesh;
pub mod shape;
pub mod tessellation;
pub mod transform;
pub mod visual;
pub mod world;
