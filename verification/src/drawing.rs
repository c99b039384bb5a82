//! Per-frame orchestration and per-thread instance tracking.
//!
//! The host may call several plugin instances from one thread; the tracker
//! releases the previous instance's resources when a different instance
//! takes the thread over. Each frame the orchestrator validates the
//! context, ensures the bridge matches the requested processing
//! resolution, presents the previous frame's result if it is still fresh,
//! feeds the current frame to the effect and registers its token. Any
//! failure degrades to pass-through for that frame only: the input is
//! copied to the target unchanged and the next frame retries.
//!
//! What only the driver can observe — whether the context is current and
//! error-free, whether the bridge's framebuffer objects still exist,
//! whether shared-surface allocation is available — arrives as a
//! [`FrameStatus`] of plain booleans; every decision taken on them is
//! proved here.

use vstd::prelude::*;

use crate::blit::{blit_scaled, lemma_scaled_view_identity, scaled_view};
use crate::bridge::PixelBridge;
use crate::pixels::{PixelTexture, MAX_TEXTURE_DIM};
use crate::plugin::GpuPlugin;
use crate::resolution::{processing_dims, processing_extent_spec, use_bilinear};

verus! {

/// What the driver reported for this frame.
pub struct FrameStatus {
    /// The graphics context is current and free of errors.
    pub context_current: bool,
    /// The bridge's framebuffer objects are still valid driver objects.
    pub bridge_valid: bool,
    /// Shared-surface allocation is available this frame.
    pub alloc_ok: bool,
}

/// What the orchestrator did with one frame.
pub struct FrameReport {
    /// The effect ran; `false` means the frame passed through unchanged.
    pub processed: bool,
    /// The previous frame's pipelined result was presented; `false` on a
    /// processed frame means the synchronous path presented the current
    /// result.
    pub used_pipelined: bool,
    /// Processing width used for this frame.
    pub proc_width: u32,
    /// Processing height used for this frame.
    pub proc_height: u32,
}

/// Per-thread state: which instance last used the thread, its bridge, and
/// whether the effect has initialized.
pub struct InstanceTracker {
    /// Identity of the instance that last drew on this thread.
    pub last_instance: Option<u64>,
    /// The bridge serving that instance, created lazily.
    pub bridge: Option<PixelBridge>,
    /// The effect's one-time initialization has run.
    pub gpu_initialized: bool,
}

impl InstanceTracker {
    /// Any held bridge is well formed.
    pub open spec fn wf(self) -> bool {
        self.bridge matches Some(b) ==> b.wf()
    }

    /// The state after `release_resources`: the bridge cleaned in place,
    /// initialization forgotten.
    pub open spec fn released(self) -> InstanceTracker {
        InstanceTracker {
            last_instance: self.last_instance,
            bridge: match self.bridge {
                Some(b) => Some(b.cleaned()),
                None => None,
            },
            gpu_initialized: false,
        }
    }

    /// The state after `ensure_instance_resources(instance_id)`.
    pub open spec fn after_instance(self, instance_id: u64) -> InstanceTracker {
        if self.last_instance == Some(instance_id) {
            self
        } else {
            InstanceTracker { last_instance: Some(instance_id), ..self.released() }
        }
    }

    /// The state after `validate_gl_state(context_current, bridge_valid)`.
    pub open spec fn after_validation(
        self,
        context_current: bool,
        bridge_valid: bool,
    ) -> InstanceTracker {
        if context_current && self.bridge is Some && !bridge_valid {
            InstanceTracker { last_instance: None, ..self.released() }
        } else {
            self
        }
    }

    /// A tracker for a thread no instance has drawn on yet.
    pub fn new() -> (r: InstanceTracker)
        ensures
            r.wf(),
            r.last_instance is None,
            r.bridge is None,
            !r.gpu_initialized,
    {
        InstanceTracker { last_instance: None, bridge: None, gpu_initialized: false }
    }

    /// Release the current instance's resources: drain and destroy the
    /// bridge's slots in place and forget the effect initialization. The
    /// bridge object itself is kept for the next frame's lazy setup.
    pub fn release_resources(&mut self)
        requires
            old(self).wf(),
        ensures
            final(self).wf(),
            *final(self) == old(self).released(),
    {
        match &mut self.bridge {
            Some(b) => {
                b.cleanup();
            },
            None => {
            },
        }
        self.gpu_initialized = false;
    }

    /// If a different plugin instance is now using this thread, release
    /// the previous instance's resources and record the new identity.
    pub fn ensure_instance_resources(&mut self, instance_id: u64)
        requires
            old(self).wf(),
        ensures
            final(self).wf(),
            *final(self) == old(self).after_instance(instance_id),
            final(self).last_instance == Some(instance_id),
    {
        let switch = match self.last_instance {
            Some(id) => id != instance_id,
            None => true,
        };
        if switch {
            self.release_resources();
            self.last_instance = Some(instance_id);
        }
    }

    /// Validate the driver state before drawing. Returns `false`, leaving
    /// the tracker unchanged, when the context is not current: the frame
    /// must be skipped. When the context is current but the bridge's
    /// framebuffer objects are stale — the context was recreated — the
    /// resources are released for lazy reinitialization and the frame goes
    /// on.
    pub fn validate_gl_state(&mut self, context_current: bool, bridge_valid: bool) -> (r: bool)
        requires
            old(self).wf(),
        ensures
            final(self).wf(),
            r == context_current,
            *final(self) == old(self).after_validation(context_current, bridge_valid),
    {
        if !context_current {
            return false;
        }
        if self.bridge.is_some() && !bridge_valid {
            self.release_resources();
            self.last_instance = None;
        }
        true
    }
}

/// If a different plugin instance is now using this thread, release the
/// previous instance's resources.
pub fn ensure_instance_gl_resources(tracker: &mut InstanceTracker, instance_id: u64)
    requires
        old(tracker).wf(),
    ensures
        final(tracker).wf(),
        *final(tracker) == old(tracker).after_instance(instance_id),
{
    tracker.ensure_instance_resources(instance_id);
}

/// Validate the driver state before drawing. Returns `false` if the
/// context is invalid and drawing should be skipped.
pub fn validate_gl_state_before_draw(
    tracker: &mut InstanceTracker,
    context_current: bool,
    bridge_valid: bool,
) -> (r: bool)
    requires
        old(tracker).wf(),
    ensures
        final(tracker).wf(),
        r == context_current,
        *final(tracker) == old(tracker).after_validation(context_current, bridge_valid),
{
    tracker.validate_gl_state(context_current, bridge_valid)
}

/// Copy the input to the target unchanged: the degraded-but-safe path
/// taken whenever validation, initialization or allocation fails.
pub fn passthrough(host_input: &PixelTexture, host_target: &mut PixelTexture)
    requires
        host_input.wf(),
        old(host_target).wf(),
        host_input.width == old(host_target).width,
        host_input.height == old(host_target).height,
    ensures
        final(host_target).wf(),
        final(host_target).id == old(host_target).id,
        final(host_target).width == old(host_target).width,
        final(host_target).height == old(host_target).height,
        final(host_target).pixels@ == host_input.pixels@,
    {
    let w = host_input.width;
    let h = host_input.height;
    proof {
        assert(h * w <= w * h) by (nonlinear_arith);
    }
    let pixels = blit_scaled(&host_input.pixels, w, w, h, w, h);
    proof {
        lemma_scaled_view_identity(host_input.pixels@, w as int, h as int);
    }
    host_target.pixels = pixels;
}

/// The bridge state that decides whether this frame presents a pipelined
/// result: the state after instance switch and validation, provided its
/// slots survive the dimension check and its token is still fresh.
pub open spec fn would_pipeline(
    tracker: InstanceTracker,
    instance_id: u64,
    status: FrameStatus,
    pw: u32,
    ph: u32,
    frame: u64,
    now_ms: u64,
) -> bool {
    let t2 = tracker.after_instance(instance_id).after_validation(status.context_current,
        status.bridge_valid);
    match t2.bridge {
        Some(b) => status.alloc_ok && b.keeps_slots(pw, ph) && b.result_ready(frame, now_ms),
        None => false,
    }
}

/// Drive one frame.
///
/// In order: release resources if another instance took the thread;
/// validate the driver state; compute the processing resolution; lazily
/// create the bridge and initialize the effect; match the bridge to the
/// processing resolution; present the previous frame's result if fresh,
/// after the mandatory wait; feed the host's frame to the effect; register
/// the new token; and, when no previous result existed, wait and present
/// the current result synchronously, so the first frame after
/// (re)selection is never blank. Every failure path copies the input to
/// the target unchanged and returns `processed == false`.
pub fn draw_gpu_effect<P: GpuPlugin>(
    tracker: &mut InstanceTracker,
    plugin: &mut P,
    instance_id: u64,
    host_input: &PixelTexture,
    host_target: &mut PixelTexture,
    frame_counter: u64,
    now_ms: u64,
    resolution_scale_milli: u32,
    filter_quality_milli: u32,
    status: &FrameStatus,
) -> (r: FrameReport)
    requires
        old(tracker).wf(),
        host_input.wf(),
        old(host_target).wf(),
        2 <= host_input.width <= MAX_TEXTURE_DIM,
        2 <= host_input.height <= MAX_TEXTURE_DIM,
        host_input.width == old(host_target).width,
        host_input.height == old(host_target).height,
    ensures
        final(tracker).wf(),
        final(host_target).wf(),
        final(host_target).id == old(host_target).id,
        final(host_target).width == old(host_target).width,
        final(host_target).height == old(host_target).height,
        r.proc_width == processing_extent_spec(host_input.width as int,
            resolution_scale_milli as int),
        r.proc_height == processing_extent_spec(host_input.height as int,
            resolution_scale_milli as int),
        // Failure of any step degrades to exact pass-through.
        !r.processed ==> final(host_target).pixels@ == host_input.pixels@,
        // A frame is processed exactly when the context is current, the
        // allocation is live, and the effect's one-time initialization has
        // succeeded — the only step the effect itself decides.
        r.processed == (status.context_current && status.alloc_ok && final(
            tracker).gpu_initialized),
        ({
            let t2 = old(tracker).after_instance(instance_id).after_validation(
                status.context_current, status.bridge_valid);
            &&& (t2.gpu_initialized && status.context_current ==> final(tracker).gpu_initialized)
            &&& final(tracker).last_instance == t2.last_instance
        }),
        // A processed frame leaves the bridge sized to the processing
        // resolution with a fresh token stamped with this frame and clock.
        r.processed ==> (final(tracker).bridge matches Some(b) && {
            &&& b.has_slots()
            &&& b.dimensions == (r.proc_width, r.proc_height)
            &&& b.pending
            &&& b.last_dispatch_frame == Some(frame_counter)
            &&& b.last_dispatch_time_ms == Some(now_ms)
        }),
        // The pipelined path is taken exactly when the surviving bridge
        // holds a fresh previous result.
        r.processed ==> r.used_pipelined == would_pipeline(*old(tracker), instance_id, *status,
            r.proc_width, r.proc_height, frame_counter, now_ms),
        r.used_pipelined ==> r.processed,
        // What was presented: the previous result on the pipelined path,
        // scaled from the processing to the host resolution —
        r.used_pipelined ==> {
            let t2 = old(tracker).after_instance(instance_id).after_validation(
                status.context_current, status.bridge_valid);
            final(host_target).pixels@ == scaled_view(t2.bridge->0.front_slot()->0.output.pixels@,
                r.proc_width as int, r.proc_width as int, r.proc_height as int,
                host_input.width as int, host_input.height as int)
        },
        // — or the result the effect just wrote, on the synchronous path.
        r.processed && !r.used_pipelined ==> final(host_target).pixels@ == scaled_view(
            final(tracker).bridge->0.front_slot()->0.output.pixels@, r.proc_width as int,
            r.proc_width as int, r.proc_height as int, host_input.width as int,
            host_input.height as int),
        // Presenting a pipelined result is what toggles the front index.
        r.used_pipelined ==> {
            let t2 = old(tracker).after_instance(instance_id).after_validation(
                status.context_current, status.bridge_valid);
            final(tracker).bridge->0.front == 1 - t2.bridge->0.front
        },
{
    let w = host_input.width;
    let h = host_input.height;
    let (pw, ph) = processing_dims(w, h, resolution_scale_milli);
    let bilinear = use_bilinear(filter_quality_milli);

    tracker.ensure_instance_resources(instance_id);
    let ok = tracker.validate_gl_state(status.context_current, status.bridge_valid);
    if !ok {
        passthrough(host_input, host_target);
        return FrameReport {
            processed: false,
            used_pipelined: false,
            proc_width: pw,
            proc_height: ph,
        };
    }
    let ghost t2 = *tracker;

    // Lazy setup: the bridge object and the effect's one-time init.
    if tracker.bridge.is_none() {
        tracker.bridge = Some(PixelBridge::new());
    }
    if !tracker.gpu_initialized {
        if plugin.gpu_init() {
            tracker.gpu_initialized = true;
        } else {
            passthrough(host_input, host_target);
            return FrameReport {
                processed: false,
                used_pipelined: false,
                proc_width: pw,
                proc_height: ph,
            };
        }
    }

    // Allocation failure: drain, drop to uninitialized, pass through; the
    // next frame retries from scratch.
    if !status.alloc_ok {
        match &mut tracker.bridge {
            Some(b) => {
                b.cleanup();
            },
            None => {
            },
        }
        passthrough(host_input, host_target);
        return FrameReport {
            processed: false,
            used_pipelined: false,
            proc_width: pw,
            proc_height: ph,
        };
    }

    match &mut tracker.bridge {
        Some(bridge) => {
            bridge.ensure_dimensions(pw, ph);
            let has_prev = bridge.has_result_ready(frame_counter, now_ms);
            // The mandatory wait before any slot is reused.
            bridge.wait_for_previous();
            if has_prev {
                bridge.swap();
                bridge.blit_back_output_to_target_scaled(host_target, pw, ph, w, h, bilinear);
            }
            bridge.blit_input_from_host_scaled(host_input, w, h, pw, ph, bilinear);
            bridge.dispatch_plugin(plugin, frame_counter);
            bridge.mark_dispatch(frame_counter, now_ms);
            if !has_prev {
                bridge.wait_for_pending();
                bridge.blit_output_to_target_scaled(host_target, pw, ph, w, h, bilinear);
            }
            FrameReport {
                processed: true,
                used_pipelined: has_prev,
                proc_width: pw,
                proc_height: ph,
            }
        },
        None => {
            proof {
                assert(false);
            }
            FrameReport {
                processed: false,
                used_pipelined: false,
                proc_width: pw,
                proc_height: ph,
            }
        },
    }
}

} // verus!
