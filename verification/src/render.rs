//! Render-target planning: the render-pass description and one framebuffer
//! per swapchain image view.

use vstd::prelude::*;
use crate::caps::Extent2D;

verus! {

/// What happens to an attachment's contents when a render pass begins.
#[derive(Clone, Copy, Debug, PartialEq, Eq, Structural)]
pub enum LoadOp {
    Clear,
    Load,
    DontCare,
}

/// What happens to an attachment's contents when a render pass ends.
#[derive(Clone, Copy, Debug, PartialEq, Eq, Structural)]
pub enum StoreOp {
    Store,
    DontCare,
}

/// Image layouts the render-target plan speaks of.
#[derive(Clone, Copy, Debug, PartialEq, Eq, Structural)]
pub enum ImageLayout {
    Undefined,
    ColorAttachmentOptimal,
    PresentSrc,
}

/// Pipeline kind a subpass binds to.
#[derive(Clone, Copy, Debug, PartialEq, Eq, Structural)]
pub enum BindPoint {
    Graphics,
    Compute,
}

/// The single color attachment of the render pass.
#[derive(Clone, Copy, Debug, PartialEq, Eq, Structural)]
pub struct AttachmentDesc {
    pub format: u32,
    pub samples: u32,
    pub load_op: LoadOp,
    pub store_op: StoreOp,
    pub final_layout: ImageLayout,
}

/// The single graphics subpass, referencing the color attachment.
#[derive(Clone, Copy, Debug, PartialEq, Eq, Structural)]
pub struct SubpassDesc {
    pub bind_point: BindPoint,
    pub color_attachment: u32,
    pub color_attachment_layout: ImageLayout,
}

/// Everything handed to render-pass creation.
#[derive(Clone, Copy, Debug, PartialEq, Eq, Structural)]
pub struct RenderPassDesc {
    pub attachment: AttachmentDesc,
    pub subpass: SubpassDesc,
}

/// Everything handed to the creation of one framebuffer: the image view it
/// binds (by handle) and the surface extent, with a single layer.
#[derive(Clone, Copy, Debug, PartialEq, Eq, Structural)]
pub struct FramebufferDesc {
    pub view: u64,
    pub width: u32,
    pub height: u32,
    pub layers: u32,
}

/// The render pass this bootstrap builds: one single-sampled color
/// attachment in the given pixel format, cleared on load and stored on end,
/// left in a presentable layout, used by one graphics subpass at attachment
/// slot zero in color-attachment-optimal layout.
pub open spec fn render_pass_desc(pixel_format: u32) -> RenderPassDesc {
    RenderPassDesc {
        attachment: AttachmentDesc {
            format: pixel_format,
            samples: 1,
            load_op: LoadOp::Clear,
            store_op: StoreOp::Store,
            final_layout: ImageLayout::PresentSrc,
        },
        subpass: SubpassDesc {
            bind_point: BindPoint::Graphics,
            color_attachment: 0,
            color_attachment_layout: ImageLayout::ColorAttachmentOptimal,
        },
    }
}

/// The framebuffer bound to one image view and the surface extent.
pub open spec fn framebuffer_desc(view: u64, extent: Extent2D) -> FramebufferDesc {
    FramebufferDesc { view, width: extent.width, height: extent.height, layers: 1 }
}

/// Plans the render targets: the render-pass description and exactly one
/// framebuffer per input image view, each bound to that view and the
/// reported extent. The 1:1 framebuffer/view relationship is an invariant
/// consumers may rely on.
pub fn build_render_targets(image_views: &Vec<u64>, pixel_format: u32, extent: Extent2D) -> (r: (
    RenderPassDesc,
    Vec<FramebufferDesc>,
))
    ensures
        r.0 == render_pass_desc(pixel_format),
        r.1@.len() == image_views@.len(),
        forall|i: int| 0 <= i < image_views@.len() ==> r.1@[i] == framebuffer_desc(
            image_views@[i],
            extent,
        ),
{
    let render_pass = RenderPassDesc {
        attachment: AttachmentDesc {
            format: pixel_format,
            samples: 1,
            load_op: LoadOp::Clear,
            store_op: StoreOp::Store,
            final_layout: ImageLayout::PresentSrc,
        },
        subpass: SubpassDesc {
            bind_point: BindPoint::Graphics,
            color_attachment: 0,
            color_attachment_layout: ImageLayout::ColorAttachmentOptimal,
        },
    };
    let n = image_views.len();
    let mut framebuffers: Vec<FramebufferDesc> = Vec::new();
    let mut i: usize = 0;
    while i < n
        invariant
            n == image_views@.len(),
            0 <= i <= n,
            framebuffers@.len() == i,
            forall|j: int| 0 <= j < i ==> framebuffers@[j] == framebuffer_desc(
                image_views@[j],
                extent,
            ),
        decreases n - i,
    {
        framebuffers.push(FramebufferDesc {
            view: image_views[i],
            width: extent.width,
            height: extent.height,
            layers: 1,
        });
        i += 1;
    }
    (render_pass, framebuffers)
}

} // verus!
