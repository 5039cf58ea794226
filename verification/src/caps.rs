//! Surface capabilities: extent selection and image-count negotiation.

use vstd::prelude::*;

verus! {

/// A two-dimensional pixel extent.
#[derive(Clone, Copy, Debug, PartialEq, Eq, Structural)]
pub struct Extent2D {
    pub width: u32,
    pub height: u32,
}

/// Width value by which a surface signals that its current extent is
/// undefined and the application must choose one itself.
pub const UNDEFINED_EXTENT_WIDTH: u32 = 0xffff_ffff;

/// The capability values the swapchain negotiation reads, as reported for a
/// (physical device, surface) pair. A `max_image_count` of zero means the
/// surface imposes no upper bound.
#[derive(Clone, Copy, Debug, PartialEq, Eq, Structural)]
pub struct SurfaceCapabilities {
    pub min_image_count: u32,
    pub max_image_count: u32,
    pub current_extent: Extent2D,
}

impl SurfaceCapabilities {
    /// What the graphics API guarantees of any capability report: at least
    /// one image, and an upper bound (when there is one) no smaller than the
    /// lower bound.
    pub open spec fn wf(self) -> bool {
        1 <= self.min_image_count && (self.max_image_count == 0
            || self.min_image_count <= self.max_image_count)
    }
}

/// Whether a reported extent is the "undefined" sentinel.
pub open spec fn extent_is_undefined(e: Extent2D) -> bool {
    e.width == UNDEFINED_EXTENT_WIDTH
}

/// The extent the swapchain must use: the caller-supplied size when the
/// surface reports the undefined sentinel, the reported extent verbatim
/// otherwise.
pub open spec fn chosen_extent(caps: SurfaceCapabilities, width: u32, height: u32) -> Extent2D {
    if extent_is_undefined(caps.current_extent) {
        Extent2D { width, height }
    } else {
        caps.current_extent
    }
}

/// Picks the swapchain extent. The result never diverges from what the
/// hardware will present: a concrete reported extent is used verbatim, and
/// only the undefined sentinel defers to the caller's width and height.
pub fn choose_extent(caps: &SurfaceCapabilities, width: u32, height: u32) -> (e: Extent2D)
    ensures
        e == chosen_extent(*caps, width, height),
        extent_is_undefined(caps.current_extent) ==> e.width == width && e.height == height,
        !extent_is_undefined(caps.current_extent) ==> e == caps.current_extent,
{
    if caps.current_extent.width == UNDEFINED_EXTENT_WIDTH {
        Extent2D { width, height }
    } else {
        caps.current_extent
    }
}

/// The image count requested from swapchain creation: one more than the
/// reported minimum ("one extra for buffering"), clamped to the reported
/// maximum when the surface has one.
pub open spec fn negotiated_image_count(caps: SurfaceCapabilities) -> int {
    if caps.max_image_count != 0 && caps.max_image_count < caps.min_image_count + 1 {
        caps.max_image_count as int
    } else {
        caps.min_image_count + 1
    }
}

/// Negotiates the requested image count against the reported capabilities:
/// `min_image_count + 1`, clamped so a bounded surface is never asked for
/// more images than it allows.
pub fn negotiate_image_count(caps: &SurfaceCapabilities) -> (n: u32)
    requires
        caps.wf(),
        caps.min_image_count < 0xffff_ffffu32,
    ensures
        n == negotiated_image_count(*caps),
        caps.min_image_count <= n,
        caps.max_image_count != 0 ==> n <= caps.max_image_count,
{
    let want = caps.min_image_count + 1;
    if caps.max_image_count != 0 && caps.max_image_count < want {
        caps.max_image_count
    } else {
        want
    }
}

} // verus!
