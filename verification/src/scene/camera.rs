use vstd::prelude::*;

verus! {

/// The camera a render call draws with: view and projection matrices and the
/// viewport size in pixels.
#[derive(Debug, Clone, Copy)]
pub struct CameraParams {
    pub view: glam::Mat4,
    pub proj: glam::Mat4,
    pub viewport: glam::UVec2,
}

impl CameraParams {
    pub fn new(view: glam::Mat4, proj: glam::Mat4, viewport: glam::UVec2) -> (r: Self)
        ensures
            r.view == view,
            r.proj == proj,
            r.viewport == viewport,
    {
        CameraParams { view, proj, viewport }
    }
}

} // verus!
