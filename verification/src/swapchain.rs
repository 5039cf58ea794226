//! Swapchain planning: format verification, image-count and extent
//! negotiation, and the per-image view descriptions.

use vstd::prelude::*;
use crate::BootstrapError;
use crate::caps::{SurfaceCapabilities, Extent2D, chosen_extent, negotiated_image_count,
    choose_extent, negotiate_image_count};
use crate::format::SurfaceFormat;
use crate::format::supports_format;

verus! {

/// How swapchain images are shared between queue families.
#[derive(Clone, Copy, Debug, PartialEq, Eq, Structural)]
pub enum SharingMode {
    Exclusive,
    Concurrent,
}

/// Presentation timing policy.
#[derive(Clone, Copy, Debug, PartialEq, Eq, Structural)]
pub enum PresentMode {
    Immediate,
    Mailbox,
    Fifo,
    FifoRelaxed,
}

/// Transform applied to images before presentation.
#[derive(Clone, Copy, Debug, PartialEq, Eq, Structural)]
pub enum PreTransform {
    Identity,
    Inherit,
}

/// How the alpha channel composites with other windows.
#[derive(Clone, Copy, Debug, PartialEq, Eq, Structural)]
pub enum CompositeAlpha {
    Opaque,
    Inherit,
}

/// Every value handed to swapchain creation.
#[derive(Clone, Copy, Debug, PartialEq, Eq, Structural)]
pub struct SwapchainPlan {
    /// Requested image count; the driver may deliver more.
    pub image_count: u32,
    pub format: SurfaceFormat,
    pub extent: Extent2D,
    pub array_layers: u32,
    pub usage_color_attachment: bool,
    pub sharing_mode: SharingMode,
    pub pre_transform: PreTransform,
    pub composite_alpha: CompositeAlpha,
    pub present_mode: PresentMode,
    pub clipped: bool,
}

/// The plan the negotiation produces on capability-compatible hardware:
/// one image above the reported minimum (clamped to the maximum), the
/// hardware-true extent, exclusive sharing (the bootstrap only ever uses one
/// queue family), identity pre-transform, opaque compositing, and
/// relaxed-FIFO presentation (vsync-locked, but a late frame replaces the
/// queued one instead of blocking).
pub open spec fn swapchain_plan_spec(
    caps: SurfaceCapabilities,
    required: SurfaceFormat,
    width: u32,
    height: u32,
) -> SwapchainPlan {
    SwapchainPlan {
        image_count: negotiated_image_count(caps) as u32,
        format: required,
        extent: chosen_extent(caps, width, height),
        array_layers: 1,
        usage_color_attachment: true,
        sharing_mode: SharingMode::Exclusive,
        pre_transform: PreTransform::Identity,
        composite_alpha: CompositeAlpha::Opaque,
        present_mode: PresentMode::FifoRelaxed,
        clipped: true,
    }
}

/// Negotiates the swapchain against the reported capabilities and format
/// list. Errs exactly when the required format is absent — a non-recoverable
/// configuration error, never a silent fallback — and otherwise returns the
/// complete creation plan.
pub fn plan_swapchain(
    caps: &SurfaceCapabilities,
    formats: &Vec<SurfaceFormat>,
    required: &SurfaceFormat,
    width: u32,
    height: u32,
) -> (r: Result<SwapchainPlan, BootstrapError>)
    requires
        caps.wf(),
        caps.min_image_count < 0xffff_ffffu32,
    ensures
        formats@.contains(*required) ==> r == Ok::<SwapchainPlan, BootstrapError>(
            swapchain_plan_spec(*caps, *required, width, height),
        ),
        !formats@.contains(*required) ==> r == Err::<SwapchainPlan, BootstrapError>(
            BootstrapError::FormatNotSupported,
        ),
{
    if !supports_format(formats, required) {
        return Err(BootstrapError::FormatNotSupported);
    }
    let image_count = negotiate_image_count(caps);
    let extent = choose_extent(caps, width, height);
    Ok(SwapchainPlan {
        image_count,
        format: *required,
        extent,
        array_layers: 1,
        usage_color_attachment: true,
        sharing_mode: SharingMode::Exclusive,
        pre_transform: PreTransform::Identity,
        composite_alpha: CompositeAlpha::Opaque,
        present_mode: PresentMode::FifoRelaxed,
        clipped: true,
    })
}

/// Color-channel source for one output channel of an image view.
#[derive(Clone, Copy, Debug, PartialEq, Eq, Structural)]
pub enum Swizzle {
    R,
    G,
    B,
    A,
}

/// Per-channel mapping from image channels to view channels.
#[derive(Clone, Copy, Debug, PartialEq, Eq, Structural)]
pub struct ComponentMapping {
    pub r: Swizzle,
    pub g: Swizzle,
    pub b: Swizzle,
    pub a: Swizzle,
}

/// Dimensionality of an image view.
#[derive(Clone, Copy, Debug, PartialEq, Eq, Structural)]
pub enum ViewType {
    OneDim,
    TwoDim,
    ThreeDim,
}

/// Every value handed to the creation of one swapchain image view.
#[derive(Clone, Copy, Debug, PartialEq, Eq, Structural)]
pub struct ImageViewDesc {
    /// Index of the swapchain image this view reads.
    pub image_index: usize,
    pub view_type: ViewType,
    pub format: u32,
    pub components: ComponentMapping,
    pub aspect_color: bool,
    pub base_mip_level: u32,
    pub level_count: u32,
    pub base_array_layer: u32,
    pub layer_count: u32,
}

/// The view description for one swapchain image: 2D, the swapchain's pixel
/// format, identity channel mapping, a single mip level and array layer of
/// the color aspect.
pub open spec fn image_view_desc(image_index: int, format: u32) -> ImageViewDesc {
    ImageViewDesc {
        image_index: image_index as usize,
        view_type: ViewType::TwoDim,
        format,
        components: ComponentMapping { r: Swizzle::R, g: Swizzle::G, b: Swizzle::B, a: Swizzle::A },
        aspect_color: true,
        base_mip_level: 0,
        level_count: 1,
        base_array_layer: 0,
        layer_count: 1,
    }
}

/// Plans one view per swapchain image actually delivered by the driver —
/// `image_count` is the returned count, which is not guaranteed to equal the
/// requested one.
pub fn plan_image_views(image_count: usize, format: u32) -> (v: Vec<ImageViewDesc>)
    ensures
        v@.len() == image_count,
        forall|i: int| 0 <= i < image_count ==> v@[i] == image_view_desc(i, format),
{
    let mut v: Vec<ImageViewDesc> = Vec::new();
    let mut i: usize = 0;
    while i < image_count
        invariant
            0 <= i <= image_count,
            v@.len() == i,
            forall|j: int| 0 <= j < i ==> v@[j] == image_view_desc(j, format),
        decreases image_count - i,
    {
        v.push(ImageViewDesc {
            image_index: i,
            view_type: ViewType::TwoDim,
            format,
            components: ComponentMapping {
                r: Swizzle::R,
                g: Swizzle::G,
                b: Swizzle::B,
                a: Swizzle::A,
            },
            aspect_color: true,
            base_mip_level: 0,
            level_count: 1,
            base_array_layer: 0,
            layer_count: 1,
        });
        i += 1;
    }
    v
}

} // verus!
