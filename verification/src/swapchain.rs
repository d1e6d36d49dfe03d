//! Swapchain manager: derives the presentation parameters that the swapchain
//! is created with.
//!
//! The unverified shell queries the driver for the surface's supported
//! formats and capabilities and for the window's current inner pixel size,
//! and hands them over as plain values; the derivation itself is decided
//! here. The shell then creates the swapchain from the returned parameters.

use vstd::prelude::*;

verus! {

/// Pixel format preferred for the swapchain's images: the numeric code the
/// graphics API gives to 8-bit-per-channel BGRA with SRGB encoding.
pub const PREFERRED_IMAGE_FORMAT: u32 = 50;

/// Image usage requested of the swapchain: the graphics API's bit for
/// color-attachment usage, and nothing else (the images are only rendered
/// into).
pub const IMAGE_USAGE_COLOR_ATTACHMENT: u32 = 16;

/// A surface pixel format paired with a color space, both by the numeric
/// codes the graphics API gives them.
#[derive(Clone, Copy, PartialEq, Eq, Structural, Debug)]
pub struct SurfaceFormat {
    pub format: u32,
    pub color_space: u32,
}

/// Presentation modes of the graphics API. Only `Fifo` (strict vsync) is ever
/// requested: it is the one mode every compliant driver must support.
#[derive(Clone, Copy, PartialEq, Eq, Structural, Debug)]
pub enum PresentMode {
    Immediate,
    Mailbox,
    Fifo,
    FifoRelaxed,
}

/// What the driver reports of the surface's capabilities, as far as the
/// derivation reads it.
#[derive(Debug)]
pub struct SurfaceCapabilities {
    /// Fewest images a swapchain for this surface may hold.
    pub min_image_count: u32,
    /// Supported composite alpha modes, by their numeric codes, in the
    /// driver's reported order.
    pub supported_composite_alpha: Vec<u32>,
}

/// Everything the swapchain is created with.
#[derive(Clone, Copy, PartialEq, Eq, Structural, Debug)]
pub struct SwapchainParams {
    /// Requested image count: the surface's reported minimum, never more.
    pub min_image_count: u32,
    pub format: SurfaceFormat,
    /// Extent: the window's inner pixel size at creation time.
    pub width: u32,
    pub height: u32,
    /// Image usage bits; always color-attachment only.
    pub image_usage: u32,
    /// First composite alpha mode the surface reports as supported.
    pub composite_alpha: u32,
    pub present_mode: PresentMode,
}

/// The surface reports at least one format with the preferred pixel format.
pub open spec fn has_preferred_format(formats: Seq<SurfaceFormat>) -> bool {
    exists|i: int| 0 <= i < formats.len() && formats[i].format == PREFERRED_IMAGE_FORMAT
}

/// The format the swapchain is built with: the first reported entry carrying
/// the preferred pixel format if the surface supports it, otherwise the first
/// reported format of all.
pub open spec fn is_chosen_format(formats: Seq<SurfaceFormat>, f: SurfaceFormat) -> bool {
    if has_preferred_format(formats) {
        exists|i: int|
            {
                &&& 0 <= i < formats.len()
                &&& formats[i] == f
                &&& formats[i].format == PREFERRED_IMAGE_FORMAT
                &&& forall|j: int| 0 <= j < i ==> formats[j].format != PREFERRED_IMAGE_FORMAT
            }
    } else {
        formats.len() > 0 && f == formats[0]
    }
}

/// Pick the swapchain's surface format: prefer 8-bit BGRA SRGB if the surface
/// supports it, otherwise fall back to the first format the surface reports.
/// `None` exactly when the surface reports no format at all (a fatal startup
/// condition for the shell).
pub fn choose_surface_format(formats: &Vec<SurfaceFormat>) -> (r: Option<SurfaceFormat>)
    ensures
        r is Some <==> formats@.len() > 0,
        r matches Some(f) ==> is_chosen_format(formats@, f),
{
    let n = formats.len();
    let mut i: usize = 0;
    while i < n
        invariant
            i <= n,
            n == formats@.len(),
            forall|j: int| 0 <= j < i ==> formats@[j].format != PREFERRED_IMAGE_FORMAT,
        decreases n - i,
    {
        let f = formats[i];
        if f.format == PREFERRED_IMAGE_FORMAT {
            return Some(f);
        }
        i = i + 1;
    }
    if n > 0 {
        Some(formats[0])
    } else {
        None
    }
}

/// Derive every parameter the swapchain is created with, from the surface's
/// reported capabilities and formats and the window's current inner pixel
/// size. `None` exactly when the surface reports no format or no composite
/// alpha mode; either is a fatal startup condition for the shell.
pub fn derive_swapchain_params(
    caps: &SurfaceCapabilities,
    formats: &Vec<SurfaceFormat>,
    width: u32,
    height: u32,
) -> (r: Option<SwapchainParams>)
    ensures
        r is Some <==> formats@.len() > 0 && caps.supported_composite_alpha@.len() > 0,
        r matches Some(p) ==> {
            &&& p.min_image_count == caps.min_image_count
            &&& is_chosen_format(formats@, p.format)
            &&& p.width == width
            &&& p.height == height
            &&& p.image_usage == IMAGE_USAGE_COLOR_ATTACHMENT
            &&& p.composite_alpha == caps.supported_composite_alpha@[0]
            &&& p.present_mode == PresentMode::Fifo
        },
{
    let format = match choose_surface_format(formats) {
        Some(f) => f,
        None => {
            return None;
        },
    };
    if caps.supported_composite_alpha.len() == 0 {
        return None;
    }
    let composite_alpha = caps.supported_composite_alpha[0];
    Some(
        SwapchainParams {
            min_image_count: caps.min_image_count,
            format,
            width,
            height,
            image_usage: IMAGE_USAGE_COLOR_ATTACHMENT,
            composite_alpha,
            present_mode: PresentMode::Fifo,
        },
    )
}

} // verus!
