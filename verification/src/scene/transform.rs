use vstd::prelude::*;

use crate::scene::linalg::{mat4_is_identity, trs_matrix, trs_matrix_of, identity_matrices};

verus! {

/// A 4x4 homogeneous object-to-world transformation.
#[derive(Debug, Clone, Copy)]
pub struct Transform {
    pub matrix: glam::Mat4,
}

impl Transform {
    pub fn identity() -> (r: Self)
        ensures
            mat4_is_identity(r.matrix),
    {
        let (matrix, _normal) = identity_matrices();
        Transform { matrix }
    }

    /// The transform composed from a translation, a rotation and a scale,
    /// applied in that order to a point.
    pub fn from_trs(translation: glam::Vec3, rotation: glam::Quat, scale: glam::Vec3) -> (r: Self)
        ensures
            r.matrix == trs_matrix_of(translation, rotation, scale),
    {
        let matrix = trs_matrix(translation, rotation, scale);
        Transform { matrix }
    }
}

} // verus!
