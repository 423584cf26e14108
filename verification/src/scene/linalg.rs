use vstd::prelude::*;

verus! {

// glam's vector, quaternion and matrix types carry floating-point data that
// the verified core never inspects: values of these types are stored and
// moved, and every computation on them happens inside glam. They are declared
// here so that they can stand in signatures and fields, and stay opaque.
#[verifier::external_type_specification]
#[verifier::external_body]
pub struct ExVec2(glam::Vec2);

#[verifier::external_type_specification]
#[verifier::external_body]
pub struct ExVec3(glam::Vec3);

#[verifier::external_type_specification]
#[verifier::external_body]
pub struct ExQuat(glam::Quat);

#[verifier::external_type_specification]
#[verifier::external_body]
pub struct ExUVec2(glam::UVec2);

#[verifier::external_type_specification]
#[verifier::external_body]
pub struct ExMat3(glam::Mat3);

#[verifier::external_type_specification]
#[verifier::external_body]
pub struct ExMat4(glam::Mat4);

// The derived `Clone` impls of structs holding glam values call the glam
// types' own `Clone`; glam derives `Clone` and `Copy` for each of them, so a
// clone is the value itself.
pub assume_specification[ <glam::Vec2 as Clone>::clone ](v: &glam::Vec2) -> (r: glam::Vec2)
    ensures
        r == *v,
;

pub assume_specification[ <glam::Vec3 as Clone>::clone ](v: &glam::Vec3) -> (r: glam::Vec3)
    ensures
        r == *v,
;

pub assume_specification[ <glam::Quat as Clone>::clone ](q: &glam::Quat) -> (r: glam::Quat)
    ensures
        r == *q,
;

pub assume_specification[ <glam::UVec2 as Clone>::clone ](v: &glam::UVec2) -> (r: glam::UVec2)
    ensures
        r == *v,
;

pub assume_specification[ <glam::Mat3 as Clone>::clone ](m: &glam::Mat3) -> (r: glam::Mat3)
    ensures
        r == *m,
;

pub assume_specification[ <glam::Mat4 as Clone>::clone ](m: &glam::Mat4) -> (r: glam::Mat4)
    ensures
        r == *m,
;

/// Holds of exactly the value of `glam::Mat4::IDENTITY`.
pub uninterp spec fn mat4_is_identity(m: glam::Mat4) -> bool;

/// The normal matrix of `m`: the inverse transpose of the upper-left 3x3
/// block of `m`, as glam computes it.
pub uninterp spec fn normal_matrix_of(m: glam::Mat4) -> glam::Mat3;

/// The object-to-world matrix that glam composes from a translation, a
/// rotation and a scale, applied in that order to a point.
pub uninterp spec fn trs_matrix_of(
    translation: glam::Vec3,
    rotation: glam::Quat,
    scale: glam::Vec3,
) -> glam::Mat4;

/// Relies on `glam::Mat4::IDENTITY` and `glam::Mat3::IDENTITY`: both are
/// constants, and the inverse transpose of the identity's upper-left 3x3
/// block is the 3x3 identity, so the pair is a matrix together with its
/// normal matrix.
#[verifier::external_body]
pub fn identity_matrices() -> (r: (glam::Mat4, glam::Mat3))
    ensures
        mat4_is_identity(r.0),
        r.1 == normal_matrix_of(r.0),
{
    (glam::Mat4::IDENTITY, glam::Mat3::IDENTITY)
}

/// Relies on `glam::Mat3::from_mat4`, `glam::Mat3::inverse` and
/// `glam::Mat3::transpose`: scalar IEEE arithmetic on the entries of `m`
/// alone, hence one fixed result per argument. A singular upper-left block
/// yields whatever non-finite entries the division produces; no panic.
#[verifier::external_body]
pub fn normal_matrix(m: &glam::Mat4) -> (r: glam::Mat3)
    ensures
        r == normal_matrix_of(*m),
{
    glam::Mat3::from_mat4(*m).inverse().transpose()
}

/// Relies on `glam::Mat4::from_scale_rotation_translation`: scalar IEEE
/// arithmetic on the three arguments alone, hence one fixed result per
/// argument triple.
#[verifier::external_body]
pub fn trs_matrix(translation: glam::Vec3, rotation: glam::Quat, scale: glam::Vec3) -> (r:
    glam::Mat4)
    ensures
        r == trs_matrix_of(translation, rotation, scale),
{
    glam::Mat4::from_scale_rotation_translation(scale, rotation, translation)
}

} // verus!
