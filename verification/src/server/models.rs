use vstd::prelude::*;

use crate::scene::mesh::MeshData;
use crate::scene::shape::KernelShape;
use crate::scene::tessellation::TessParams;
use crate::scene::visual::VisualFlags;

verus! {

/// Response to a successful entity creation: the resolved identifier.
#[derive(Debug, Clone, Copy, PartialEq, Eq, Structural)]
pub struct SubmitEntityResponse {
    pub entity_id: u64,
}

/// A request that sets one boolean facet of one entity.
#[derive(Debug, Clone, Copy, PartialEq, Eq, Structural)]
pub struct FlagRequest {
    pub entity_id: u64,
    pub value: bool,
}

/// Response to a render command; the frame identifier is currently always
/// zero.
#[derive(Debug, Clone, Copy, PartialEq, Eq, Structural)]
pub struct RenderResponse {
    pub frame_id: u64,
}

/// Response to a screenshot command; the image is currently always empty.
#[derive(Debug)]
pub struct ScreenshotResponse {
    pub image_base64: String,
}

/// The empty success response of the mutation commands.
#[derive(Debug, Clone, Copy, PartialEq, Eq, Structural)]
pub struct EmptyResponse {}

/// A viewport size on the wire: width and height in pixels.
#[derive(Debug, Clone, Copy, PartialEq, Eq)]
pub struct ViewportPayload(pub [u32; 2]);

/// An entity's visual facets on the wire, one boolean per facet.
#[derive(Debug, Clone, Copy, PartialEq, Eq, Structural)]
pub struct VisualPayload {
    pub visible: bool,
    pub selected: bool,
    pub highlighted: bool,
}

impl From<VisualFlags> for VisualPayload {
    fn from(flags: VisualFlags) -> (r: Self) {
        let visible = flags.contains(VisualFlags::VISIBLE);
        let selected = flags.contains(VisualFlags::SELECTED);
        let highlighted = flags.contains(VisualFlags::HIGHLIGHTED);
        proof {
            let b = flags.bits;
            assert((b & 0b0001u32 == 0b0001u32) == (b & 0b0001u32 != 0) && (b & 0b0010u32
                == 0b0010u32) == (b & 0b0010u32 != 0) && (b & 0b0100u32 == 0b0100u32) == (b
                & 0b0100u32 != 0)) by (bit_vector);
        }
        VisualPayload { visible, selected, highlighted }
    }
}

impl vstd::std_specs::convert::FromSpecImpl<VisualFlags> for VisualPayload {
    open spec fn obeys_from_spec() -> bool {
        true
    }

    open spec fn from_spec(flags: VisualFlags) -> Self {
        VisualPayload {
            visible: flags.is_visible(),
            selected: flags.is_selected(),
            highlighted: flags.is_highlighted(),
        }
    }
}

/// A shape on the wire: an already tessellated mesh.
#[derive(Debug)]
pub struct ShapePayload {
    pub mesh: MeshData,
}

impl ShapePayload {
    pub fn into_shape(self) -> (r: MeshBackedShape)
        ensures
            r.mesh == self.mesh,
    {
        MeshBackedShape { mesh: self.mesh }
    }
}

/// A shape that is already a mesh; its tessellation ignores the tolerances
/// and hands the mesh back.
#[derive(Debug)]
pub struct MeshBackedShape {
    pub mesh: MeshData,
}

impl KernelShape for MeshBackedShape {
    fn tessellate(&self, _params: &TessParams) -> MeshData {
        self.mesh.clone()
    }
}

} // verus!
