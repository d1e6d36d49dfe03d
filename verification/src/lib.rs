//! Core of a windowed, real-time GPU rendering backend.
//!
//! The library holds the decision logic of the backend, verified: selecting a
//! physical device and a queue family that can both draw and present, deriving
//! the presentation parameters of a swapchain, planning the render pass and
//! the framebuffers that bind it to the swapchain's images, and the per-frame
//! state machine that chains GPU synchronization tokens across frames.
//!
//! The graphics driver itself is outside the library: an unverified shell
//! enumerates devices, creates the swapchain and submits command buffers, and
//! hands the library plain values (capabilities, acquire and flush outcomes).
//! The library answers with plans and next states whose contracts pin down
//! exactly what must be built and submitted.

pub mod device;
pub mod frame;
pub mod swapchain;
pub mod target;
