//! The renderer's frame state machine: Idle or FrameInProgress, with the
//! acquire/record/submit protocol and window-resize handling decided here
//! and executed by the application layer.

use vstd::prelude::*;

use crate::surface::Extent2d;
use crate::swapchain::spec_images_after_submit;
use crate::swapchain::spec_next_frame;
use crate::swapchain::spec_submit_wait;
use crate::swapchain::LveSwapchain;
use crate::swapchain::SubmitInstruction;
use crate::swapchain::MAX_FRAMES_IN_FLIGHT;

verus! {

/// What the driver's image acquisition returned, reduced to the outcomes
/// the renderer distinguishes.  Any other driver error is fatal and must
/// abort before reaching the renderer.
#[derive(Clone, Copy, Debug, PartialEq, Eq)]
pub enum AcquireOutcome {
    /// An image was acquired; `suboptimal` marks a swapchain that still
    /// works but no longer matches the surface exactly.
    Acquired { image_index: usize, suboptimal: bool },
    /// The swapchain no longer matches the surface and must be recreated.
    OutOfDate,
}

/// What the caller must do after asking to begin a frame.
#[derive(Clone, Copy, Debug, PartialEq, Eq)]
pub enum BeginFrameAction {
    /// The window is minimized: render nothing and stay idle.
    SkipMinimized,
    /// The swapchain is out of date: recreate it, render nothing this
    /// frame, and stay idle.
    RecreateAndSkip,
    /// Record the frame into the command buffer at `command_buffer_index`.
    /// When `recreate` is set the swapchain is suboptimal: recreate it
    /// first, then still render this frame.
    Begin { command_buffer_index: usize, recreate: bool },
}

/// Everything the driver needs to begin the render pass for the current
/// frame.
#[derive(Clone, Copy, Debug, PartialEq, Eq)]
pub struct RenderPassBegin {
    /// Which framebuffer to render into: the acquired image's index.
    pub framebuffer_index: usize,
    /// The full-extent render area, also used for the viewport and scissor.
    pub render_area: Extent2d,
}

/// The renderer: owns the swapchain model and the frame cursor, and tracks
/// whether a frame is between `begin_frame` and `end_frame`.  The
/// application layer owns `MAX_FRAMES_IN_FLIGHT` command buffers, indexed
/// by the values handed out here.
pub struct LveRenderer {
    pub lve_swapchain: LveSwapchain,
    /// The swapchain image acquired for the frame in progress.
    pub current_image_index: usize,
    /// Which command buffer and sync-object set the next frame uses.
    pub current_frame_index: usize,
    /// FrameInProgress when set, Idle otherwise.
    pub is_frame_started: bool,
}

impl LveRenderer {
    /// Well-formedness: the swapchain is well-formed, the frame cursor is
    /// in range, and a frame in progress targets an existing image.
    pub open spec fn wf(&self) -> bool {
        &&& self.lve_swapchain.wf()
        &&& self.current_frame_index < MAX_FRAMES_IN_FLIGHT
        &&& (self.is_frame_started ==> self.current_image_index
            < self.lve_swapchain.images_in_flight@.len())
    }

    /// A fresh renderer over a newly created swapchain: idle, at frame
    /// index zero.
    pub fn new(lve_swapchain: LveSwapchain) -> (r: Self)
        requires
            lve_swapchain.wf(),
        ensures
            r.wf(),
            r.lve_swapchain == lve_swapchain,
            r.current_image_index == 0,
            r.current_frame_index == 0,
            !r.is_frame_started,
    {
        LveRenderer {
            lve_swapchain,
            current_image_index: 0,
            current_frame_index: 0,
            is_frame_started: false,
        }
    }

    /// The frame index of the frame in progress; calling this while idle is
    /// a programming error, ruled out by the precondition.
    pub fn get_frame_index(&self) -> (r: usize)
        requires
            self.is_frame_started,
        ensures
            r == self.current_frame_index,
    {
        self.current_frame_index
    }

    /// The index of the command buffer recording the frame in progress;
    /// calling this while idle is a programming error, ruled out by the
    /// precondition.
    pub fn get_current_command_buffer(&self) -> (r: usize)
        requires
            self.is_frame_started,
        ensures
            r == self.current_frame_index,
    {
        self.current_frame_index
    }

    /// Try to begin a frame.  The caller reads the window extent; when it
    /// is not minimized it acquires an image with the current frame's sync
    /// objects and passes the outcome, otherwise it passes `None`.  Only a
    /// successful acquisition starts a frame; a minimized window and an
    /// out-of-date swapchain leave the renderer unchanged.
    pub fn begin_frame(&mut self, window_extent: Extent2d, acquired: Option<AcquireOutcome>) -> (r:
        BeginFrameAction)
        requires
            old(self).wf(),
            !old(self).is_frame_started,
            acquired is Some <==> !window_extent.spec_is_minimized(),
            match acquired {
                Some(AcquireOutcome::Acquired { image_index, .. }) =>
                    image_index < old(self).lve_swapchain.images_in_flight@.len(),
                _ => true,
            },
        ensures
            final(self).wf(),
            final(self).lve_swapchain == old(self).lve_swapchain,
            final(self).current_frame_index == old(self).current_frame_index,
            match acquired {
                None => r == BeginFrameAction::SkipMinimized && *final(self) == *old(self),
                Some(AcquireOutcome::OutOfDate) => r == BeginFrameAction::RecreateAndSkip
                    && *final(self) == *old(self),
                Some(AcquireOutcome::Acquired { image_index, suboptimal }) => {
                    &&& final(self).is_frame_started
                    &&& final(self).current_image_index == image_index
                    &&& r == (BeginFrameAction::Begin {
                        command_buffer_index: old(self).current_frame_index,
                        recreate: suboptimal,
                    })
                },
            },
    {
        match acquired {
            None => BeginFrameAction::SkipMinimized,
            Some(AcquireOutcome::OutOfDate) => BeginFrameAction::RecreateAndSkip,
            Some(AcquireOutcome::Acquired { image_index, suboptimal }) => {
                self.is_frame_started = true;
                self.current_image_index = image_index;
                BeginFrameAction::Begin {
                    command_buffer_index: self.current_frame_index,
                    recreate: suboptimal,
                }
            },
        }
    }

    /// End the frame in progress: record the submission of the acquired
    /// image under the swapchain's current sync-object set, return to Idle,
    /// and advance the frame index modulo `MAX_FRAMES_IN_FLIGHT`.  The
    /// caller executes the returned instruction and then waits for the
    /// device to go idle.
    pub fn end_frame(&mut self) -> (r: SubmitInstruction)
        requires
            old(self).wf(),
            old(self).is_frame_started,
        ensures
            final(self).wf(),
            !final(self).is_frame_started,
            final(self).current_frame_index == spec_next_frame(old(self).current_frame_index),
            final(self).current_image_index == old(self).current_image_index,
            r.frame == old(self).lve_swapchain.current_frame,
            r.wait_image_fence == spec_submit_wait(
                old(self).lve_swapchain.images_in_flight@,
                old(self).current_image_index as int,
            ),
            final(self).lve_swapchain.images_in_flight@ == spec_images_after_submit(
                old(self).lve_swapchain.images_in_flight@,
                old(self).lve_swapchain.current_frame,
                old(self).current_image_index as int,
            ),
            final(self).lve_swapchain.current_frame == spec_next_frame(
                old(self).lve_swapchain.current_frame,
            ),
            final(self).lve_swapchain.swapchain_extent == old(self).lve_swapchain.swapchain_extent,
            final(self).lve_swapchain.image_format == old(self).lve_swapchain.image_format,
            final(self).lve_swapchain.depth_format == old(self).lve_swapchain.depth_format,
    {
        let instruction = self.lve_swapchain.submit_command_buffers(self.current_image_index);
        self.is_frame_started = false;
        self.current_frame_index = (self.current_frame_index + 1) % MAX_FRAMES_IN_FLIGHT;
        instruction
    }

    /// Begin the swapchain render pass for the frame in progress: render
    /// into the acquired image's framebuffer over the full extent, with the
    /// viewport and scissor set to the same extent.  The command buffer
    /// must be the one recording this frame; anything else is a
    /// programming error, ruled out by the precondition.
    pub fn begin_swapchain_render_pass(&self, command_buffer_index: usize) -> (r: RenderPassBegin)
        requires
            self.wf(),
            self.is_frame_started,
            command_buffer_index == self.current_frame_index,
        ensures
            r.framebuffer_index == self.current_image_index,
            r.framebuffer_index < self.lve_swapchain.images_in_flight@.len(),
            r.render_area == self.lve_swapchain.swapchain_extent,
    {
        RenderPassBegin {
            framebuffer_index: self.current_image_index,
            render_area: self.lve_swapchain.swapchain_extent,
        }
    }

    /// End the swapchain render pass for the frame in progress.  This only
    /// validates the sequencing; the command buffer must be the one
    /// recording this frame.
    pub fn end_swapchain_render_pass(&self, command_buffer_index: usize)
        requires
            self.is_frame_started,
            command_buffer_index == self.current_frame_index,
    {
    }

    /// Install a recreated swapchain.  The caller has already skipped
    /// recreation for a minimized window, waited for the device to go
    /// idle, created the new swapchain with the old one's handle as
    /// predecessor, checked `compare_swap_formats` (aborting on a
    /// mismatch), and torn the old swapchain down.
    pub fn recreate_swapchain(&mut self, new_swapchain: LveSwapchain)
        requires
            old(self).wf(),
            new_swapchain.wf(),
            new_swapchain.image_format == old(self).lve_swapchain.image_format,
            new_swapchain.depth_format == old(self).lve_swapchain.depth_format,
            old(self).is_frame_started ==> old(self).current_image_index
                < new_swapchain.images_in_flight@.len(),
        ensures
            final(self).wf(),
            final(self).lve_swapchain == new_swapchain,
            final(self).current_image_index == old(self).current_image_index,
            final(self).current_frame_index == old(self).current_frame_index,
            final(self).is_frame_started == old(self).is_frame_started,
    {
        self.lve_swapchain = new_swapchain;
    }
}

/// The frame index after `k` completed frames, starting from zero.
pub open spec fn spec_frame_index_after(k: nat) -> usize
    decreases k,
{
    if k == 0 {
        0
    } else {
        spec_next_frame(spec_frame_index_after((k - 1) as nat))
    }
}

/// Frame-index cycling: each completed frame advances the index by one
/// modulo `MAX_FRAMES_IN_FLIGHT`, so after `k` completed frames the index
/// equals `k` modulo `MAX_FRAMES_IN_FLIGHT`.
pub proof fn lemma_frame_index_cycles(k: nat)
    ensures
        spec_frame_index_after(k) == k % (MAX_FRAMES_IN_FLIGHT as nat),
    decreases k,
{
    if k > 0 {
        lemma_frame_index_cycles((k - 1) as nat);
    }
}

} // verus!
