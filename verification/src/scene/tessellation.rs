use vstd::prelude::*;

verus! {

/// Bit pattern of the default maximum angle deviation, 0.05 radians.
pub const DEFAULT_MAX_ANGLE_BITS: u32 = 0x3D4CCCCD;

/// Bit pattern of the default maximum geometric error, 0.001 world units.
pub const DEFAULT_MAX_ERROR_BITS: u32 = 0x3A83126F;

/// Tessellation tolerances. The verified core never computes with them, so
/// they are carried as the raw bit patterns of the two `f32` tolerances; the
/// transport layer converts to and from `f32` at the boundary.
#[derive(Debug, Clone, Copy, PartialEq, Eq, Structural)]
pub struct TessParams {
    /// Bit pattern of the maximum allowed angle deviation in radians.
    pub max_angle_bits: u32,
    /// Bit pattern of the maximum allowed geometric error in world units.
    pub max_error_bits: u32,
}

impl Default for TessParams {
    fn default() -> (r: Self)
        ensures
            r.max_angle_bits == DEFAULT_MAX_ANGLE_BITS,
            r.max_error_bits == DEFAULT_MAX_ERROR_BITS,
    {
        TessParams { max_angle_bits: DEFAULT_MAX_ANGLE_BITS, max_error_bits: DEFAULT_MAX_ERROR_BITS }
    }
}

} // verus!
