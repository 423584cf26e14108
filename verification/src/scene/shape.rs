use vstd::prelude::*;

use crate::scene::mesh::MeshData;
use crate::scene::tessellation::TessParams;

verus! {

/// Abstraction for kernel-provided shapes: given tessellation tolerances,
/// produce a mesh. Implementations are supplied by callers; nothing is
/// assumed about the mesh they return, so the scene context validates it.
pub trait KernelShape {
    fn tessellate(&self, params: &TessParams) -> MeshData;
}

} // verus!
