//! Verified core of a small Vulkan rendering engine.
//!
//! The library models the presentation and synchronization protocol of the
//! engine on plain values: surface capabilities, swapchain planning, the
//! per-frame fence/semaphore bookkeeping, the renderer's frame state machine,
//! buffer alignment arithmetic, and mesh vertex deduplication.  Everything
//! that must talk to the GPU driver or the window system lives outside the
//! library and is driven by the decisions made here.

pub mod buffer;
pub mod device;
pub mod model;
pub mod renderer;
pub mod surface;
pub mod swapchain;
