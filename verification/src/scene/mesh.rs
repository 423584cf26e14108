use vstd::prelude::*;

verus! {

/// One mesh vertex: position, normal, and an optional texture coordinate.
#[derive(Debug, Clone, Copy)]
pub struct Vertex {
    pub position: glam::Vec3,
    pub normal: glam::Vec3,
    pub uv: Option<glam::Vec2>,
}

/// An ordered sequence of vertices plus an ordered sequence of triangle
/// indices referencing vertices by position. A mesh is empty (invalid) if
/// either sequence is empty; index bounds beyond that are not validated by
/// this layer.
#[derive(Debug, Clone)]
pub struct MeshData {
    pub vertices: Vec<Vertex>,
    pub indices: Vec<u32>,
}

impl MeshData {
    pub open spec fn spec_is_empty(self) -> bool {
        self.vertices@.len() == 0 || self.indices@.len() == 0
    }

    pub fn is_empty(&self) -> (r: bool)
        ensures
            r == self.spec_is_empty(),
    {
        self.vertices.len() == 0 || self.indices.len() == 0
    }
}

} // verus!
