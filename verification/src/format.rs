//! Surface formats and format negotiation.

use vstd::prelude::*;

verus! {

/// Numeric code of the 32-bit BGRA unsigned-normalized pixel format.
pub const FORMAT_B8G8R8A8_UNORM: u32 = 44;

/// Numeric code of the sRGB non-linear color space.
pub const COLOR_SPACE_SRGB_NONLINEAR: u32 = 0;

/// A (pixel format, color space) pair, by the graphics API's numeric codes.
#[derive(Clone, Copy, Debug, PartialEq, Eq, Structural)]
pub struct SurfaceFormat {
    pub format: u32,
    pub color_space: u32,
}

/// The one surface format this bootstrap requires. Hardware that does not
/// report it is rejected rather than silently given a substitute.
pub open spec fn required_format_spec() -> SurfaceFormat {
    SurfaceFormat { format: FORMAT_B8G8R8A8_UNORM, color_space: COLOR_SPACE_SRGB_NONLINEAR }
}

/// The required surface format: BGRA8 unorm in the sRGB non-linear space.
pub fn required_surface_format() -> (f: SurfaceFormat)
    ensures
        f == required_format_spec(),
{
    SurfaceFormat { format: FORMAT_B8G8R8A8_UNORM, color_space: COLOR_SPACE_SRGB_NONLINEAR }
}

/// Whether the reported format list contains the required pair.
pub fn supports_format(formats: &Vec<SurfaceFormat>, required: &SurfaceFormat) -> (b: bool)
    ensures
        b == formats@.contains(*required),
{
    let n = formats.len();
    let mut i: usize = 0;
    while i < n
        invariant
            n == formats@.len(),
            0 <= i <= n,
            forall|j: int| 0 <= j < i ==> formats@[j] != *required,
        decreases n - i,
    {
        if formats[i] == *required {
            assert(formats@.contains(*required));
            return true;
        }
        i += 1;
    }
    false
}

} // verus!
