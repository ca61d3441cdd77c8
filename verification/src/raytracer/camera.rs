use vstd::prelude::*;
use crate::math::ordinal::{ordinal, ordinal_of};
use crate::raytracer::grid::{ConfigError, PixelGrid};

verus! {

/// The bit pattern of nine tenths: the largest cosine between view and up
/// direction, either way, with which the camera basis is stable.
pub const STABLE: u64 = 0x3fec_cccc_cccc_cccd;

/// Is the cosine between view and up direction small enough, either way,
/// for a stable basis?
pub open spec fn is_stable(facing: i64) -> bool {
    -ordinal_of(STABLE) <= facing <= ordinal_of(STABLE)
}

/// Judges a camera before any pixel is traced. `facing` is the ordinal of
/// the dot product of view and up direction. View and up direction too
/// close to parallel are refused first, then a resolution without a pixel
/// grid; what passes gets its grid.
pub fn check_camera(facing: i64, width: i32, height: i32) -> (r: Result<PixelGrid, ConfigError>)
    ensures
        !is_stable(facing) ==> r.is_err() && r->Err_0 == ConfigError::NearlyParallel,
        is_stable(facing) && width <= 0 ==> r.is_err() && r->Err_0 == ConfigError::ZeroWidth,
        is_stable(facing) && width > 0 && height <= 0 ==> r.is_err() && r->Err_0
            == ConfigError::ZeroHeight,
        is_stable(facing) && width > 0 && height > 0 && width * height > usize::MAX ==> r.is_err()
            && r->Err_0 == ConfigError::TooLarge,
        is_stable(facing) && width > 0 && height > 0 && width * height <= usize::MAX ==> (
        r matches Ok(g) && g.cols() == width && g.rows() == height),
{
    let limit = ordinal(STABLE);
    if facing < -limit || facing > limit {
        return Err(ConfigError::NearlyParallel);
    }
    PixelGrid::new(width, height)
}

} // verus!
