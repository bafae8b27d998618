//! Plain-value models of the surface data a Vulkan driver reports.
//!
//! Formats, color spaces and present modes are carried as their raw numeric
//! codes; the application layer converts the driver's values to and from
//! these records before and after every query.

use vstd::prelude::*;

verus! {

/// Raw code of the B8G8R8A8_SRGB image format.
pub const FORMAT_B8G8R8A8_SRGB: u32 = 50;
/// Raw code of the SRGB_NONLINEAR color space.
pub const COLOR_SPACE_SRGB_NONLINEAR: u32 = 0;

/// Raw code of the immediate present mode.
pub const PRESENT_MODE_IMMEDIATE: u32 = 0;
/// Raw code of the low-latency mailbox present mode.
pub const PRESENT_MODE_MAILBOX: u32 = 1;
/// Raw code of the universally supported FIFO (vsync) present mode.
pub const PRESENT_MODE_FIFO: u32 = 2;

/// Width reported in `current_extent` when the surface leaves the choice of
/// extent to the swapchain.
pub const UNDEFINED_EXTENT_WIDTH: u32 = 0xFFFF_FFFF;

/// A pixel extent: the size of a window surface or of the swapchain images.
#[derive(Clone, Copy, Debug, PartialEq, Eq, Structural)]
pub struct Extent2d {
    pub width: u32,
    pub height: u32,
}

impl Extent2d {
    /// A window reporting a zero-area extent is minimized; no frame may be
    /// rendered to it.
    pub open spec fn spec_is_minimized(self) -> bool {
        self.width == 0 || self.height == 0
    }

    pub fn is_minimized(&self) -> (r: bool)
        ensures
            r == self.spec_is_minimized(),
    {
        self.width == 0 || self.height == 0
    }
}

/// A surface format: an image format paired with a color space, both as the
/// driver's raw codes.
#[derive(Clone, Copy, Debug, PartialEq, Eq, Structural)]
pub struct SurfaceFormat {
    pub format: u32,
    pub color_space: u32,
}

/// The capabilities a surface reports: image count limits and extent limits.
#[derive(Clone, Copy, Debug, PartialEq, Eq, Structural)]
pub struct SurfaceCapabilities {
    pub min_image_count: u32,
    /// Zero means the surface imposes no upper limit.
    pub max_image_count: u32,
    /// Fixed surface extent, or `UNDEFINED_EXTENT_WIDTH` in `width` when the
    /// swapchain may choose the extent itself.
    pub current_extent: Extent2d,
    pub min_image_extent: Extent2d,
    pub max_image_extent: Extent2d,
}

/// Everything the device reports about swapchain support for a surface.
#[derive(Debug)]
pub struct SwapChainSupportDetails {
    pub capabilities: SurfaceCapabilities,
    pub formats: Vec<SurfaceFormat>,
    pub present_modes: Vec<u32>,
}

} // verus!
