//! Double-buffered GPU bridge framework for video-effect plugins.
//!
//! A host application hands the plugin one video frame per call, in a 2D
//! graphics context. A native compute backend processes the frame and the
//! result is blitted back into the host's target. To hide cross-API
//! synchronization latency, the bridge keeps two texture-pair slots and
//! overlaps the backend's work on the current frame with the presentation
//! of the previous frame's result.
//!
//! This crate holds the verified core: the bridge state machine, the scaled
//! blit arithmetic, the staleness rules for pipelined results, per-thread
//! instance tracking and the per-frame orchestration. Driver calls (texture
//! allocation, GPU waits, the actual blits) happen outside; they report
//! their outcomes as plain values, and every decision taken on those values
//! is proved here.

pub mod blit;
pub mod bridge;
pub mod device;
pub mod drawing;
pub mod fences;
pub mod glsl;
pub mod host_api;
pub mod pixels;
pub mod plugin;
pub mod resolution;
pub mod timing;
pub mod validate_gl;
