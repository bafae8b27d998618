//! The swapchain model: planning a swapchain from the surface data and
//! tracking the per-frame synchronization protocol.
//!
//! The application layer queries the driver, hands the results in as plain
//! values, executes the returned instructions (which fences to wait on,
//! which sync-object set to use, what to destroy in which order), and feeds
//! driver results back in.

use vstd::prelude::*;

use crate::device::find_supported_format;
use crate::device::spec_first_supported;
use crate::device::FormatProperties;
use crate::device::ImageTiling;
use crate::surface::Extent2d;
use crate::surface::SurfaceCapabilities;
use crate::surface::SurfaceFormat;
use crate::surface::SwapChainSupportDetails;
use crate::surface::COLOR_SPACE_SRGB_NONLINEAR;
use crate::surface::FORMAT_B8G8R8A8_SRGB;
use crate::surface::PRESENT_MODE_FIFO;
use crate::surface::PRESENT_MODE_MAILBOX;
use crate::surface::UNDEFINED_EXTENT_WIDTH;

verus! {

/// How many frames may be recorded and submitted before the CPU must wait
/// for the GPU: the number of sync-object sets and command buffers.
pub const MAX_FRAMES_IN_FLIGHT: usize = 2;

/// Raw code of the 32-bit float depth format.
pub const FORMAT_D32_SFLOAT: u32 = 126;
/// Raw code of the 24-bit depth, 8-bit stencil format.
pub const FORMAT_D24_UNORM_S8_UINT: u32 = 129;
/// Raw code of the 32-bit float depth, 8-bit stencil format.
pub const FORMAT_D32_SFLOAT_S8_UINT: u32 = 130;

/// Raw flag for depth-stencil attachment support in a format's features.
pub const FORMAT_FEATURE_DEPTH_STENCIL_ATTACHMENT: u32 = 0x200;

/// The depth formats the engine accepts, in priority order.
pub open spec fn spec_depth_format_candidates() -> Seq<u32> {
    seq![FORMAT_D32_SFLOAT, FORMAT_D32_SFLOAT_S8_UINT, FORMAT_D24_UNORM_S8_UINT]
}

/// The depth format candidates as a vector, so the caller can query the
/// driver for each candidate's properties.
pub fn depth_format_candidates() -> (r: Vec<u32>)
    ensures
        r@ == spec_depth_format_candidates(),
{
    let mut candidates: Vec<u32> = Vec::new();
    candidates.push(FORMAT_D32_SFLOAT);
    candidates.push(FORMAT_D32_SFLOAT_S8_UINT);
    candidates.push(FORMAT_D24_UNORM_S8_UINT);
    assert(candidates@ =~= spec_depth_format_candidates());
    candidates
}

/// The surface format the engine prefers: B8G8R8A8_SRGB with the
/// SRGB_NONLINEAR color space.
pub open spec fn preferred_surface_format() -> SurfaceFormat {
    SurfaceFormat { format: FORMAT_B8G8R8A8_SRGB, color_space: COLOR_SPACE_SRGB_NONLINEAR }
}

/// The chosen surface format: the preferred pair when the surface offers it,
/// else the first offered format.
pub open spec fn spec_choose_surface_format(formats: Seq<SurfaceFormat>) -> SurfaceFormat {
    if formats.contains(preferred_surface_format()) {
        preferred_surface_format()
    } else {
        formats[0]
    }
}

/// The chosen present mode: mailbox when offered, else the FIFO fallback
/// that every surface supports.
pub open spec fn spec_choose_present_mode(modes: Seq<u32>) -> u32 {
    if modes.contains(PRESENT_MODE_MAILBOX) {
        PRESENT_MODE_MAILBOX
    } else {
        PRESENT_MODE_FIFO
    }
}

/// The chosen swapchain extent: the surface's fixed extent when it reports
/// one, else the window extent clamped into the surface's limits.
pub open spec fn spec_choose_extent(caps: SurfaceCapabilities, window_extent: Extent2d) -> Extent2d {
    if caps.current_extent.width != UNDEFINED_EXTENT_WIDTH {
        caps.current_extent
    } else {
        Extent2d {
            width: clamp_dim(window_extent.width, caps.min_image_extent.width, caps.max_image_extent.width),
            height: clamp_dim(window_extent.height, caps.min_image_extent.height, caps.max_image_extent.height),
        }
    }
}

/// One dimension clamped into `[lo, hi]`; when the limits cross, `lo` wins.
pub open spec fn clamp_dim(v: u32, lo: u32, hi: u32) -> u32 {
    if (if v < hi { v } else { hi }) > lo {
        if v < hi { v } else { hi }
    } else {
        lo
    }
}

/// The number of images to request: one more than the minimum, clamped to
/// the maximum when the surface imposes one.
pub open spec fn spec_choose_image_count(caps: SurfaceCapabilities) -> int {
    let desired = caps.min_image_count + 1;
    if caps.max_image_count > 0 && desired > caps.max_image_count {
        caps.max_image_count as int
    } else {
        desired
    }
}

/// The choices a new swapchain is created with, before the driver reports
/// how many images it actually allocated.
#[derive(Clone, Copy, Debug, PartialEq, Eq, Structural)]
pub struct SwapchainConfig {
    pub surface_format: SurfaceFormat,
    pub present_mode: u32,
    pub extent: Extent2d,
    pub min_image_count: u32,
}

/// The full plan for a swapchain, as a function of the surface data and the
/// window extent alone.
pub open spec fn spec_plan_swapchain(
    caps: SurfaceCapabilities,
    formats: Seq<SurfaceFormat>,
    modes: Seq<u32>,
    window_extent: Extent2d,
) -> SwapchainConfig {
    SwapchainConfig {
        surface_format: spec_choose_surface_format(formats),
        present_mode: spec_choose_present_mode(modes),
        extent: spec_choose_extent(caps, window_extent),
        min_image_count: spec_choose_image_count(caps) as u32,
    }
}

impl LveSwapchain {
    /// The surface format the swapchain will use: the preferred pair when
    /// the list offers it, else the first entry of the list.
    pub fn choose_swap_surface_format(available_formats: &Vec<SurfaceFormat>) -> (r: SurfaceFormat)
        requires
            available_formats@.len() > 0,
        ensures
            r == spec_choose_surface_format(available_formats@),
    {
        let n: usize = available_formats.len();
        let mut i: usize = 0;
        while i < n
            invariant
                n == available_formats@.len(),
                0 <= i <= n,
                forall|j: int| 0 <= j < i ==> available_formats@[j] != preferred_surface_format(),
            decreases n - i,
        {
            let f = available_formats[i];
            if f.format == FORMAT_B8G8R8A8_SRGB && f.color_space == COLOR_SPACE_SRGB_NONLINEAR {
                assert(available_formats@.contains(preferred_surface_format()));
                return f;
            }
            i = i + 1;
        }
        assert(!available_formats@.contains(preferred_surface_format()));
        available_formats[0]
    }

    /// The present mode the swapchain will use: mailbox when offered, else
    /// FIFO.
    pub fn choose_swap_present_mode(available_present_modes: &Vec<u32>) -> (r: u32)
        ensures
            r == spec_choose_present_mode(available_present_modes@),
    {
        let n: usize = available_present_modes.len();
        let mut i: usize = 0;
        while i < n
            invariant
                n == available_present_modes@.len(),
                0 <= i <= n,
                forall|j: int| 0 <= j < i ==> available_present_modes@[j] != PRESENT_MODE_MAILBOX,
            decreases n - i,
        {
            if available_present_modes[i] == PRESENT_MODE_MAILBOX {
                assert(available_present_modes@.contains(PRESENT_MODE_MAILBOX));
                return PRESENT_MODE_MAILBOX;
            }
            i = i + 1;
        }
        assert(!available_present_modes@.contains(PRESENT_MODE_MAILBOX));
        PRESENT_MODE_FIFO
    }

    /// The extent the swapchain will use: the surface's fixed extent when
    /// one is reported, else the window extent clamped into the surface's
    /// limits.
    pub fn choose_swap_extent(capabilities: &SurfaceCapabilities, window_extent: Extent2d) -> (r: Extent2d)
        ensures
            r == spec_choose_extent(*capabilities, window_extent),
            capabilities.current_extent.width != UNDEFINED_EXTENT_WIDTH ==> r == capabilities.current_extent,
            capabilities.current_extent.width == UNDEFINED_EXTENT_WIDTH
                && capabilities.min_image_extent.width <= capabilities.max_image_extent.width
                ==> capabilities.min_image_extent.width <= r.width <= capabilities.max_image_extent.width,
            capabilities.current_extent.width == UNDEFINED_EXTENT_WIDTH
                && capabilities.min_image_extent.height <= capabilities.max_image_extent.height
                ==> capabilities.min_image_extent.height <= r.height <= capabilities.max_image_extent.height,
    {
        if capabilities.current_extent.width != UNDEFINED_EXTENT_WIDTH {
            capabilities.current_extent
        } else {
            let w_hi = if window_extent.width < capabilities.max_image_extent.width {
                window_extent.width
            } else {
                capabilities.max_image_extent.width
            };
            let h_hi = if window_extent.height < capabilities.max_image_extent.height {
                window_extent.height
            } else {
                capabilities.max_image_extent.height
            };
            Extent2d {
                width: if w_hi > capabilities.min_image_extent.width {
                    w_hi
                } else {
                    capabilities.min_image_extent.width
                },
                height: if h_hi > capabilities.min_image_extent.height {
                    h_hi
                } else {
                    capabilities.min_image_extent.height
                },
            }
        }
    }

    /// The number of images to request from the driver.
    pub fn choose_image_count(capabilities: &SurfaceCapabilities) -> (r: u32)
        requires
            capabilities.min_image_count < 0xFFFF_FFFFu32,
        ensures
            r == spec_choose_image_count(*capabilities),
            r >= 1,
    {
        let mut image_count: u32 = capabilities.min_image_count + 1;
        if capabilities.max_image_count > 0 && image_count > capabilities.max_image_count {
            image_count = capabilities.max_image_count;
        }
        image_count
    }

    /// Every choice a new swapchain is created with, from the surface data
    /// and the window extent.
    pub fn plan_swapchain(support: &SwapChainSupportDetails, window_extent: Extent2d) -> (r: SwapchainConfig)
        requires
            support.formats@.len() > 0,
            support.capabilities.min_image_count < 0xFFFF_FFFFu32,
        ensures
            r == spec_plan_swapchain(
                support.capabilities,
                support.formats@,
                support.present_modes@,
                window_extent,
            ),
            r.min_image_count >= 1,
    {
        let surface_format = Self::choose_swap_surface_format(&support.formats);
        let present_mode = Self::choose_swap_present_mode(&support.present_modes);
        let extent = Self::choose_swap_extent(&support.capabilities, window_extent);
        let min_image_count = Self::choose_image_count(&support.capabilities);
        SwapchainConfig { surface_format, present_mode, extent, min_image_count }
    }
}

/// Planning a swapchain is a pure function of the surface data and the
/// window extent: recreating against unchanged data and an unchanged,
/// non-minimized extent yields a swapchain with identical format, present
/// mode, extent and requested image count.
pub proof fn lemma_swapchain_plan_deterministic(
    caps: SurfaceCapabilities,
    formats: Seq<SurfaceFormat>,
    modes: Seq<u32>,
    window_extent: Extent2d,
    first: SwapchainConfig,
    second: SwapchainConfig,
)
    requires
        first == spec_plan_swapchain(caps, formats, modes, window_extent),
        second == spec_plan_swapchain(caps, formats, modes, window_extent),
    ensures
        first.surface_format == second.surface_format,
        first.present_mode == second.present_mode,
        first.extent == second.extent,
        first.min_image_count == second.min_image_count,
{
}

/// The swapchain's verified state: the choices it was created with and the
/// synchronization bookkeeping for its images.  The driver-side objects
/// (image views, depth buffers, framebuffers, render pass, semaphores,
/// fences) are owned by the application layer, one per entry planned here.
pub struct LveSwapchain {
    pub swapchain_extent: Extent2d,
    /// Color attachment format the swapchain images were created with.
    pub image_format: u32,
    /// Depth attachment format chosen at creation.
    pub depth_format: u32,
    /// One slot per swapchain image: `Some(f)` while the image was last
    /// submitted by the frame using sync-object set `f` and may still be in
    /// flight; the slot must be waited on before the image is reused.
    pub images_in_flight: Vec<Option<usize>>,
    /// Which of the `MAX_FRAMES_IN_FLIGHT` sync-object sets the next
    /// acquire/submit pair uses.
    pub current_frame: usize,
}

impl LveSwapchain {
    /// Well-formedness: the frame cursor and every recorded fence index stay
    /// below `MAX_FRAMES_IN_FLIGHT`, and there is at least one image.
    pub open spec fn wf(&self) -> bool {
        &&& self.current_frame < MAX_FRAMES_IN_FLIGHT
        &&& self.images_in_flight@.len() >= 1
        &&& forall|i: int|
            0 <= i < self.images_in_flight@.len() ==> match #[trigger] self.images_in_flight@[i] {
                Some(f) => f < MAX_FRAMES_IN_FLIGHT,
                None => true,
            }
    }

    /// A fresh swapchain model for a swapchain the driver created with
    /// `image_count` images under the given plan: no image is in flight and
    /// the frame cursor starts at the first sync-object set.
    pub fn new(config: &SwapchainConfig, image_count: usize, depth_format: u32) -> (r: Self)
        requires
            image_count >= 1,
        ensures
            r.wf(),
            r.swapchain_extent == config.extent,
            r.image_format == config.surface_format.format,
            r.depth_format == depth_format,
            r.images_in_flight@.len() == image_count,
            forall|i: int| 0 <= i < image_count ==> r.images_in_flight@[i] is None,
            r.current_frame == 0,
    {
        let mut images_in_flight: Vec<Option<usize>> = Vec::new();
        let mut i: usize = 0;
        while i < image_count
            invariant
                0 <= i <= image_count,
                images_in_flight@.len() == i,
                forall|j: int| 0 <= j < i ==> images_in_flight@[j] is None,
            decreases image_count - i,
        {
            images_in_flight.push(None);
            i = i + 1;
        }
        LveSwapchain {
            swapchain_extent: config.extent,
            image_format: config.surface_format.format,
            depth_format,
            images_in_flight,
            current_frame: 0,
        }
    }

    /// How many images the swapchain holds.
    pub fn image_count(&self) -> (r: usize)
        ensures
            r == self.images_in_flight@.len(),
    {
        self.images_in_flight.len()
    }

    pub fn width(&self) -> (r: u32)
        ensures
            r == self.swapchain_extent.width,
    {
        self.swapchain_extent.width
    }

    pub fn height(&self) -> (r: u32)
        ensures
            r == self.swapchain_extent.height,
    {
        self.swapchain_extent.height
    }

    /// Succeeds exactly when `other` uses the same color and depth formats,
    /// so that render passes built against this swapchain remain valid.
    pub fn compare_swap_formats(&self, other: &LveSwapchain) -> (r: Result<(), ()>)
        ensures
            r is Ok <==> other.image_format == self.image_format
                && other.depth_format == self.depth_format,
    {
        if other.image_format == self.image_format && other.depth_format == self.depth_format {
            Ok(())
        } else {
            Err(())
        }
    }

    /// The depth format to create depth buffers with: the first candidate,
    /// in priority order, that supports depth-stencil attachment with
    /// optimal tiling.  `props[i]` must be the properties the driver
    /// reports for the i-th candidate of `depth_format_candidates`.  The
    /// caller aborts on `None`, as a device without any usable depth format
    /// cannot run the engine.
    pub fn find_depth_format(props: &Vec<FormatProperties>) -> (r: Option<u32>)
        requires
            props@.len() == spec_depth_format_candidates().len(),
        ensures
            r == spec_first_supported(
                spec_depth_format_candidates(),
                props@,
                ImageTiling::Optimal,
                FORMAT_FEATURE_DEPTH_STENCIL_ATTACHMENT,
            ),
    {
        let candidates = depth_format_candidates();
        find_supported_format(
            &candidates,
            props,
            ImageTiling::Optimal,
            FORMAT_FEATURE_DEPTH_STENCIL_ATTACHMENT,
        )
    }

    /// The sync-object set to acquire the next image with: the caller waits
    /// on in-flight fence `frame`, then asks the driver for an image that
    /// signals image-available semaphore `frame`.
    pub fn acquire_next_image(&self) -> (frame: usize)
        requires
            self.wf(),
        ensures
            frame == self.current_frame,
            frame < MAX_FRAMES_IN_FLIGHT,
    {
        self.current_frame
    }

    /// Record the submission of `image_index` under the current frame's
    /// sync-object set and advance the frame cursor.  The returned
    /// instruction carries everything the driver-side submit needs, in
    /// order: wait on the in-flight fence of `wait_image_fence` if it is
    /// set, mark the image as guarded by frame `frame`'s fence, reset that
    /// fence, submit waiting on image-available semaphore `frame` and
    /// signaling render-finished semaphore `frame` and the fence, then
    /// present waiting on render-finished semaphore `frame`.
    pub fn submit_command_buffers(&mut self, image_index: usize) -> (r: SubmitInstruction)
        requires
            old(self).wf(),
            image_index < old(self).images_in_flight@.len(),
        ensures
            final(self).wf(),
            r.frame == old(self).current_frame,
            r.wait_image_fence == spec_submit_wait(old(self).images_in_flight@, image_index as int),
            final(self).images_in_flight@ == spec_images_after_submit(
                old(self).images_in_flight@,
                old(self).current_frame,
                image_index as int,
            ),
            final(self).current_frame == spec_next_frame(old(self).current_frame),
            final(self).swapchain_extent == old(self).swapchain_extent,
            final(self).image_format == old(self).image_format,
            final(self).depth_format == old(self).depth_format,
    {
        let wait_image_fence = self.images_in_flight[image_index];
        let frame = self.current_frame;
        self.images_in_flight.set(image_index, Some(frame));
        self.current_frame = (self.current_frame + 1) % MAX_FRAMES_IN_FLIGHT;
        SubmitInstruction { wait_image_fence, frame }
    }
}

/// One group of driver objects a swapchain owns, named for teardown.
#[derive(Clone, Copy, Debug, PartialEq, Eq, Structural)]
pub enum DestroyPhase {
    ImageViews,
    SwapchainHandle,
    DepthImageViews,
    DepthImages,
    DepthMemories,
    Framebuffers,
    RenderPass,
    RenderFinishedSemaphores,
    ImageAvailableSemaphores,
    InFlightFences,
}

/// The dependency order in which a swapchain's driver objects must be
/// released: attachments and the swapchain handle before the render pass,
/// and the sync objects last, since not-yet-retired submissions may still
/// reference them.
pub open spec fn spec_destroy_order() -> Seq<DestroyPhase> {
    seq![
        DestroyPhase::ImageViews,
        DestroyPhase::SwapchainHandle,
        DestroyPhase::DepthImageViews,
        DestroyPhase::DepthImages,
        DestroyPhase::DepthMemories,
        DestroyPhase::Framebuffers,
        DestroyPhase::RenderPass,
        DestroyPhase::RenderFinishedSemaphores,
        DestroyPhase::ImageAvailableSemaphores,
        DestroyPhase::InFlightFences,
    ]
}

impl LveSwapchain {
    /// The driver-side teardown this swapchain requires.  The caller must
    /// first wait for the device to go idle, then release each group in the
    /// returned order.
    pub fn destroy(&self) -> (r: Vec<DestroyPhase>)
        ensures
            r@ == spec_destroy_order(),
    {
        let mut order: Vec<DestroyPhase> = Vec::new();
        order.push(DestroyPhase::ImageViews);
        order.push(DestroyPhase::SwapchainHandle);
        order.push(DestroyPhase::DepthImageViews);
        order.push(DestroyPhase::DepthImages);
        order.push(DestroyPhase::DepthMemories);
        order.push(DestroyPhase::Framebuffers);
        order.push(DestroyPhase::RenderPass);
        order.push(DestroyPhase::RenderFinishedSemaphores);
        order.push(DestroyPhase::ImageAvailableSemaphores);
        order.push(DestroyPhase::InFlightFences);
        assert(order@ =~= spec_destroy_order());
        order
    }
}

/// The driver-side work one submission requires; see
/// `LveSwapchain::submit_command_buffers`.
#[derive(Clone, Copy, Debug, PartialEq, Eq)]
pub struct SubmitInstruction {
    /// The sync-object set whose in-flight fence must first be waited on
    /// because the image was submitted before and may still be in flight.
    pub wait_image_fence: Option<usize>,
    /// The sync-object set this submission uses.
    pub frame: usize,
}

/// The frame cursor after one submission.
pub open spec fn spec_next_frame(frame: usize) -> usize {
    (((frame + 1) as int) % (MAX_FRAMES_IN_FLIGHT as int)) as usize
}

/// The fence a submission of `image_index` must wait on: whatever frame
/// last submitted that image, if any.
pub open spec fn spec_submit_wait(images: Seq<Option<usize>>, image_index: int) -> Option<usize> {
    images[image_index]
}

/// The in-flight bookkeeping after frame `frame` submits `image_index`.
pub open spec fn spec_images_after_submit(
    images: Seq<Option<usize>>,
    frame: usize,
    image_index: int,
) -> Seq<Option<usize>> {
    images.update(image_index, Some(frame))
}

/// A swapchain image submitted a second time before the first submission's
/// fence was cleared: the second submission is told to wait on the fence
/// the first submission installed, so the image is never reused while still
/// in flight.
pub proof fn lemma_reused_image_must_wait(images: Seq<Option<usize>>, frame: usize, image_index: int)
    requires
        0 <= image_index < images.len(),
    ensures
        spec_submit_wait(
            spec_images_after_submit(images, frame, image_index),
            image_index,
        ) == Some(frame),
{
}

} // verus!
