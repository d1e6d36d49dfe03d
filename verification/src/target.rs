//! Target pipeline builder: plans the render pass and the framebuffers that
//! bind it to the swapchain's images.
//!
//! The plans carry exactly what the unverified shell must hand the driver:
//! one single-subpass render pass with one color attachment (cleared on load,
//! stored on end) in the swapchain's image format, and one framebuffer per
//! swapchain image view, index-aligned with the swapchain's image sequence —
//! the index returned at acquire time indexes directly into both.

use vstd::prelude::*;

use crate::swapchain::SwapchainParams;

verus! {

/// A single-subpass render pass: one color attachment in the given pixel
/// format, cleared when the pass begins and stored when it ends.
#[derive(Clone, Copy, PartialEq, Eq, Structural, Debug)]
pub struct RenderPassPlan {
    /// Pixel format of the color attachment: must match the swapchain's.
    pub attachment_format: u32,
    /// The attachment is cleared when the pass begins.
    pub load_clear: bool,
    /// The attachment's contents are kept when the pass ends.
    pub store_output: bool,
}

/// One framebuffer: binds one swapchain image view to the render pass.
#[derive(Clone, Copy, PartialEq, Eq, Structural, Debug)]
pub struct FramebufferPlan {
    /// Index of the bound image view in the swapchain's image sequence.
    pub attachment_index: usize,
}

/// The render-target unit that is rebuilt atomically whenever the swapchain
/// is rebuilt: the swapchain's parameters and image count, the render pass
/// and the framebuffers built from it.
#[derive(Debug)]
pub struct RenderContext {
    pub params: SwapchainParams,
    /// How many images the created swapchain actually holds (the driver may
    /// hand out more than the requested minimum, never fewer than one).
    pub image_count: usize,
    pub render_pass: RenderPassPlan,
    pub framebuffers: Vec<FramebufferPlan>,
}

impl RenderContext {
    /// Well-formedness: one framebuffer per swapchain image, index-aligned,
    /// and the render pass attachment in the swapchain's format.
    pub open spec fn wf(self) -> bool {
        &&& self.image_count >= 1
        &&& self.render_pass.attachment_format == self.params.format.format
        &&& self.render_pass.load_clear
        &&& self.render_pass.store_output
        &&& self.framebuffers@.len() == self.image_count
        &&& forall|i: int|
            0 <= i < self.framebuffers@.len() ==> self.framebuffers@[i].attachment_index == i
    }

    /// Build the render-target plans for a swapchain that was created with
    /// `params` and came back holding `image_count` images: the render pass in
    /// the swapchain's format and exactly one framebuffer per image.
    pub fn new(params: SwapchainParams, image_count: usize) -> (r: RenderContext)
        requires
            image_count >= 1,
        ensures
            r.wf(),
            r.params == params,
            r.image_count == image_count,
            r.framebuffers@.len() == image_count,
    {
        let render_pass = plan_render_pass(params.format.format);
        let framebuffers = plan_framebuffers(image_count);
        RenderContext { params, image_count, render_pass, framebuffers }
    }
}

/// Plan the single-subpass render pass: one color attachment in the given
/// format, clear on load, store on end.
pub fn plan_render_pass(format: u32) -> (r: RenderPassPlan)
    ensures
        r.attachment_format == format,
        r.load_clear,
        r.store_output,
{
    RenderPassPlan { attachment_format: format, load_clear: true, store_output: true }
}

/// Plan one framebuffer per swapchain image: as many framebuffers as images,
/// the framebuffer at index `i` binding the image view at index `i`.
pub fn plan_framebuffers(image_count: usize) -> (r: Vec<FramebufferPlan>)
    ensures
        r@.len() == image_count,
        forall|i: int| 0 <= i < image_count ==> r@[i].attachment_index == i,
{
    let mut framebuffers: Vec<FramebufferPlan> = Vec::new();
    let mut i: usize = 0;
    while i < image_count
        invariant
            i <= image_count,
            framebuffers@.len() == i,
            forall|j: int| 0 <= j < i ==> framebuffers@[j].attachment_index == j,
        decreases image_count - i,
    {
        framebuffers.push(FramebufferPlan { attachment_index: i });
        i = i + 1;
    }
    framebuffers
}

} // verus!
