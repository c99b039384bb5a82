//! The effect interface.
//!
//! An effect is handed the front input texture, already filled with the
//! host's frame at the processing resolution, and the front output texture
//! to write its result into. The handles are borrowed for the one call and
//! must not be retained; the effect may not resize or replace the textures,
//! only write pixels. The framework registers the synchronization token for
//! the submitted work itself, immediately after the call.

use vstd::prelude::*;

use crate::pixels::PixelTexture;

verus! {

/// A video effect driven by the per-frame orchestrator.
pub trait GpuPlugin {
    /// One-time initialization when the backend first becomes available:
    /// build pipelines and buffers. Returns `false` when the effect cannot
    /// initialize; the frame then degrades to pass-through and the next
    /// frame retries.
    fn gpu_init(&mut self) -> bool;

    /// Process one frame: read `input`, write the result into `output`.
    /// Both textures have the processing dimensions; `output` keeps its
    /// identity and dimensions — the effect only writes pixels.
    fn gpu_draw(&mut self, input: &PixelTexture, output: &mut PixelTexture, frame: u64)
        requires
            input.wf(),
            old(output).wf(),
            input.width == old(output).width,
            input.height == old(output).height,
        ensures
            final(output).wf(),
            final(output).id == old(output).id,
            final(output).width == old(output).width,
            final(output).height == old(output).height,
    ;
}

/// The identity effect: copies the input to the output unchanged. Used to
/// exercise the frame pipeline end to end — a frame pushed through an
/// identity dispatch must come back out exactly.
pub struct CopyPlugin {
}

impl GpuPlugin for CopyPlugin {
    fn gpu_init(&mut self) -> (r: bool)
        ensures
            r,
    {
        true
    }

    fn gpu_draw(&mut self, input: &PixelTexture, output: &mut PixelTexture, frame: u64)
        ensures
            final(output).pixels@ == input.pixels@,
    {
        output.pixels = PixelTexture::copy_pixels(&input.pixels);
    }
}

} // verus!
