//! The double-buffered bridge state machine.
//!
//! A bridge owns two texture-pair slots. Exactly one slot, the front, is
//! written during a frame; the other, the back, holds the most recently
//! completed result. At most one synchronization token is outstanding,
//! stamped with the frame counter and the clock at dispatch. A pipelined
//! result may be presented only while the token is fresh: the next frame
//! counter must follow the stamped one and the staleness bound must not
//! have elapsed.
//!
//! This bridge carries its textures as host-visible pixel buffers, the
//! backend variant that needs no cross-API registration, so every blit is
//! computed and proved here. Embeddings over a native compute API keep the
//! same state machine and perform the corresponding driver calls alongside
//! each transition.

use vstd::prelude::*;

use crate::blit::{blit_scaled, scaled_view};
use crate::pixels::{PixelTexture, TexturePair, MAX_TEXTURE_DIM};
use crate::timing::{is_fresh, next_frame};

verus! {

/// Double-buffered bridge over host-visible pixel textures.
pub struct PixelBridge {
    /// Buffering slot 0.
    pub slot0: Option<TexturePair>,
    /// Buffering slot 1.
    pub slot1: Option<TexturePair>,
    /// Index of the slot being written this frame; 0 or 1.
    pub front: u8,
    /// A synchronization token is outstanding.
    pub pending: bool,
    /// Frame counter stamped on the outstanding token.
    pub last_dispatch_frame: Option<u64>,
    /// Clock, in milliseconds, stamped on the outstanding token.
    pub last_dispatch_time_ms: Option<u64>,
    /// Dimensions both slots were allocated with; `(0, 0)` when empty.
    pub dimensions: (u32, u32),
    /// Source of handle identities for the next allocation.
    pub next_texture_id: u64,
}

/// All pixels zero: the content of a freshly allocated texture.
pub open spec fn zero_pixels(w: int, h: int) -> Seq<u32> {
    Seq::new((w * h) as nat, |i: int| 0u32)
}

impl PixelBridge {
    /// Structural invariant: the front index is 0 or 1, the slots are
    /// populated together, populated slots are well formed at the recorded
    /// dimensions, and an outstanding token carries both stamps.
    pub open spec fn wf(self) -> bool {
        &&& self.front <= 1
        &&& (self.slot0 is Some <==> self.slot1 is Some)
        &&& (self.slot0 is Some ==> {
            &&& self.slot0->0.wf()
            &&& self.slot1->0.wf()
            &&& self.slot0->0.dims() == self.dimensions
            &&& self.slot1->0.dims() == self.dimensions
        })
        &&& (self.slot0 is None ==> self.dimensions == (0u32, 0u32))
        &&& (self.pending ==> self.last_dispatch_frame is Some
            && self.last_dispatch_time_ms is Some)
    }

    /// Both slots are populated.
    pub open spec fn has_slots(self) -> bool {
        self.slot0 is Some && self.slot1 is Some
    }

    /// The slot being written this frame.
    pub open spec fn front_slot(self) -> Option<TexturePair> {
        if self.front == 0 {
            self.slot0
        } else {
            self.slot1
        }
    }

    /// The slot holding the most recently completed result.
    pub open spec fn back_slot(self) -> Option<TexturePair> {
        if self.front == 0 {
            self.slot1
        } else {
            self.slot0
        }
    }

    /// No resources held, no token outstanding, front reset.
    pub open spec fn is_uninitialized(self) -> bool {
        &&& self.slot0 is None
        &&& self.slot1 is None
        &&& self.front == 0
        &&& !self.pending
        &&& self.last_dispatch_frame is None
        &&& self.last_dispatch_time_ms is None
        &&& self.dimensions == (0u32, 0u32)
    }

    /// A pipelined result is ready for presentation at `current_frame` and
    /// `now_ms`: a token is outstanding, the frame counter follows the
    /// stamped frame, and the staleness bound has not elapsed.
    pub open spec fn result_ready(self, current_frame: u64, now_ms: u64) -> bool {
        &&& self.pending
        &&& self.last_dispatch_frame matches Some(f) && current_frame == next_frame(f)
        &&& self.last_dispatch_time_ms matches Some(t) && is_fresh(t, now_ms)
    }

    /// The state after `cleanup`: resources released, bookkeeping reset,
    /// only the identity counter carried over.
    pub open spec fn cleaned(self) -> PixelBridge {
        PixelBridge {
            slot0: None,
            slot1: None,
            front: 0,
            pending: false,
            last_dispatch_frame: None,
            last_dispatch_time_ms: None,
            dimensions: (0u32, 0u32),
            next_texture_id: self.next_texture_id,
        }
    }

    /// The state after `swap`: the front index toggled.
    pub open spec fn swapped(self) -> PixelBridge {
        PixelBridge { front: (1 - self.front) as u8, ..self }
    }

    /// The state after `mark_dispatch`: a fresh token stamped with the
    /// frame counter and the clock.
    pub open spec fn marked(self, frame: u64, now_ms: u64) -> PixelBridge {
        PixelBridge {
            pending: true,
            last_dispatch_frame: Some(frame),
            last_dispatch_time_ms: Some(now_ms),
            ..self
        }
    }

    /// The state after `wait_for_previous`: the token discarded, stamps
    /// kept.
    pub open spec fn drained(self) -> PixelBridge {
        PixelBridge { pending: false, ..self }
    }

    /// `ensure_dimensions(w, h)` leaves the bridge unchanged exactly when
    /// the dimensions already match and both slots are populated.
    pub open spec fn keeps_slots(self, width: u32, height: u32) -> bool {
        self.dimensions == (width, height) && self.has_slots()
    }

    /// A freshly allocated texture: the given identity and dimensions, all
    /// pixels zero.
    pub open spec fn is_fresh_texture(t: PixelTexture, id: u64, width: u32, height: u32) -> bool {
        &&& t.id == id
        &&& t.width == width
        &&& t.height == height
        &&& t.pixels@ == zero_pixels(width as int, height as int)
    }

    /// Both slots freshly reallocated at `(width, height)` with identities
    /// drawn in order from the old identity counter, and all bookkeeping
    /// reset.
    pub open spec fn reallocated(self, post: PixelBridge, width: u32, height: u32) -> bool {
        let base = self.next_texture_id;
        &&& post.slot0 matches Some(p0)
            && Self::is_fresh_texture(p0.input, base, width, height)
            && Self::is_fresh_texture(p0.output, base.wrapping_add(1), width, height)
        &&& post.slot1 matches Some(p1)
            && Self::is_fresh_texture(p1.input, base.wrapping_add(2), width, height)
            && Self::is_fresh_texture(p1.output, base.wrapping_add(3), width, height)
        &&& post.front == 0
        &&& !post.pending
        &&& post.last_dispatch_frame is None
        &&& post.last_dispatch_time_ms is None
        &&& post.dimensions == (width, height)
        &&& post.next_texture_id == self.next_texture_id.wrapping_add(4)
    }

    /// Create a bridge holding no resources. Call `ensure_dimensions`
    /// before use.
    pub fn new() -> (r: PixelBridge)
        ensures
            r.wf(),
            r.is_uninitialized(),
            r.next_texture_id == 0,
    {
        PixelBridge {
            slot0: None,
            slot1: None,
            front: 0,
            pending: false,
            last_dispatch_frame: None,
            last_dispatch_time_ms: None,
            dimensions: (0, 0),
            next_texture_id: 0,
        }
    }

    /// The dimensions both slots were allocated with; `(0, 0)` when empty.
    pub fn dimensions(&self) -> (r: (u32, u32))
        ensures
            r == self.dimensions,
    {
        self.dimensions
    }

    /// Reallocate both slots at `(width, height)` unless they already have
    /// those dimensions. A reallocation first drains any outstanding token
    /// — work submitted against the old slots completes before they are
    /// destroyed — and resets the front index and the dispatch bookkeeping.
    ///
    /// Host-visible pixel textures need no cross-API registration, so this
    /// backend cannot fail to allocate. Embeddings whose allocation can
    /// fail report that through the per-frame driver status and return the
    /// bridge to its uninitialized state instead.
    pub fn ensure_dimensions(&mut self, width: u32, height: u32)
        requires
            old(self).wf(),
            1 <= width <= MAX_TEXTURE_DIM,
            1 <= height <= MAX_TEXTURE_DIM,
        ensures
            final(self).wf(),
            old(self).keeps_slots(width, height) ==> *final(self) == *old(self),
            !old(self).keeps_slots(width, height) ==> old(self).reallocated(
                *final(self), width, height),
            final(self).dimensions == (width, height),
            final(self).has_slots(),
    {
        if self.dimensions.0 == width && self.dimensions.1 == height && self.slot0.is_some()
            && self.slot1.is_some() {
            return ;
        }
        // Dimension change: drain in-flight work before destroying slots.
        self.pending = false;
        let base = self.next_texture_id;
        let in0 = PixelTexture::new_filled(base, width, height, 0);
        let out0 = PixelTexture::new_filled(base.wrapping_add(1), width, height, 0);
        let in1 = PixelTexture::new_filled(base.wrapping_add(2), width, height, 0);
        let out1 = PixelTexture::new_filled(base.wrapping_add(3), width, height, 0);
        self.slot0 = Some(TexturePair { input: in0, output: out0 });
        self.slot1 = Some(TexturePair { input: in1, output: out1 });
        self.front = 0;
        self.last_dispatch_frame = None;
        self.last_dispatch_time_ms = None;
        self.dimensions = (width, height);
        self.next_texture_id = base.wrapping_add(4);
    }

    /// Copy the host's frame into the front input texture, scaled from a
    /// `src_w` by `src_h` rectangle of `host` onto the whole slot. Returns
    /// `false`, changing nothing, when the slots are not populated.
    /// `bilinear` chooses the filter on GPU embeddings; this backend
    /// always samples nearest, as the blit model states.
    pub fn blit_input_from_host_scaled(
        &mut self,
        host: &PixelTexture,
        src_w: u32,
        src_h: u32,
        dst_w: u32,
        dst_h: u32,
        bilinear: bool,
    ) -> (r: bool)
        requires
            old(self).wf(),
            host.wf(),
            1 <= src_w <= host.width,
            1 <= src_h <= host.height,
            old(self).has_slots() ==> dst_w == old(self).dimensions.0 && dst_h == old(
                self).dimensions.1,
        ensures
            final(self).wf(),
            r == old(self).has_slots(),
            !r ==> *final(self) == *old(self),
            r ==> {
                let pre = old(self).front_slot()->0;
                let post = final(self).front_slot()->0;
                &&& post.input.id == pre.input.id
                &&& post.input.width == pre.input.width
                &&& post.input.height == pre.input.height
                &&& post.input.pixels@ == scaled_view(host.pixels@, host.width as int,
                    src_w as int, src_h as int, dst_w as int, dst_h as int)
                &&& post.output == pre.output
                &&& final(self).back_slot() == old(self).back_slot()
                &&& final(self).front == old(self).front
                &&& final(self).pending == old(self).pending
                &&& final(self).last_dispatch_frame == old(self).last_dispatch_frame
                &&& final(self).last_dispatch_time_ms == old(self).last_dispatch_time_ms
                &&& final(self).dimensions == old(self).dimensions
                &&& final(self).next_texture_id == old(self).next_texture_id
            },
    {
        if self.slot0.is_none() || self.slot1.is_none() {
            return false;
        }
        proof {
            assert(src_h * host.width <= host.width * host.height) by (nonlinear_arith)
                requires
                    src_h <= host.height,
                    0 <= host.width,
            ;
        }
        let pixels = blit_scaled(&host.pixels, host.width, src_w, src_h, dst_w, dst_h);
        let slot = if self.front == 0 {
            &mut self.slot0
        } else {
            &mut self.slot1
        };
        match slot {
            Some(pair) => {
                pair.input.pixels = pixels;
            },
            None => {
            },
        }
        true
    }

    /// Copy the back output texture — the previous frame's completed result
    /// — into `target`, scaled from a `src_w` by `src_h` rectangle onto the
    /// whole target. Returns `false`, changing nothing, when the slots are
    /// not populated.
    pub fn blit_back_output_to_target_scaled(
        &mut self,
        target: &mut PixelTexture,
        src_w: u32,
        src_h: u32,
        dst_w: u32,
        dst_h: u32,
        bilinear: bool,
    ) -> (r: bool)
        requires
            old(self).wf(),
            old(target).wf(),
            old(self).has_slots() ==> 1 <= src_w <= old(self).dimensions.0 && 1 <= src_h <= old(
                self).dimensions.1,
            dst_w == old(target).width,
            dst_h == old(target).height,
        ensures
            *final(self) == *old(self),
            final(target).wf(),
            r == old(self).has_slots(),
            final(target).id == old(target).id,
            final(target).width == old(target).width,
            final(target).height == old(target).height,
            !r ==> *final(target) == *old(target),
            r ==> final(target).pixels@ == scaled_view(
                old(self).back_slot()->0.output.pixels@, old(self).dimensions.0 as int,
                src_w as int, src_h as int, dst_w as int, dst_h as int),
    {
        let slot = if self.front == 0 {
            &self.slot1
        } else {
            &self.slot0
        };
        match slot {
            Some(pair) => {
                proof {
                    assert(src_h * pair.output.width <= pair.output.width * pair.output.height)
                        by (nonlinear_arith)
                        requires
                            src_h <= pair.output.height,
                            0 <= pair.output.width,
                    ;
                }
                let pixels = blit_scaled(&pair.output.pixels, pair.output.width, src_w, src_h,
                    dst_w, dst_h);
                target.pixels = pixels;
                true
            },
            None => false,
        }
    }

    /// Copy the front output texture — the result just produced — into
    /// `target`, scaled the same way. Used on the synchronous path, when no
    /// previous result exists. Returns `false`, changing nothing, when the
    /// slots are not populated.
    pub fn blit_output_to_target_scaled(
        &mut self,
        target: &mut PixelTexture,
        src_w: u32,
        src_h: u32,
        dst_w: u32,
        dst_h: u32,
        bilinear: bool,
    ) -> (r: bool)
        requires
            old(self).wf(),
            old(target).wf(),
            old(self).has_slots() ==> 1 <= src_w <= old(self).dimensions.0 && 1 <= src_h <= old(
                self).dimensions.1,
            dst_w == old(target).width,
            dst_h == old(target).height,
        ensures
            *final(self) == *old(self),
            final(target).wf(),
            r == old(self).has_slots(),
            final(target).id == old(target).id,
            final(target).width == old(target).width,
            final(target).height == old(target).height,
            !r ==> *final(target) == *old(target),
            r ==> final(target).pixels@ == scaled_view(
                old(self).front_slot()->0.output.pixels@, old(self).dimensions.0 as int,
                src_w as int, src_h as int, dst_w as int, dst_h as int),
    {
        let slot = if self.front == 0 {
            &self.slot0
        } else {
            &self.slot1
        };
        match slot {
            Some(pair) => {
                proof {
                    assert(src_h * pair.output.width <= pair.output.width * pair.output.height)
                        by (nonlinear_arith)
                        requires
                            src_h <= pair.output.height,
                            0 <= pair.output.width,
                    ;
                }
                let pixels = blit_scaled(&pair.output.pixels, pair.output.width, src_w, src_h,
                    dst_w, dst_h);
                target.pixels = pixels;
                true
            },
            None => false,
        }
    }

    /// Run the effect against the front pair: it reads the front input and
    /// writes the front output in place. The slot keeps its identities and
    /// dimensions; only the front output's pixels change. Returns `false`,
    /// changing nothing, when the slots are not populated. The caller
    /// registers the synchronization token with `mark_dispatch` afterwards.
    pub fn dispatch_plugin<P: crate::plugin::GpuPlugin>(
        &mut self,
        plugin: &mut P,
        frame: u64,
    ) -> (r: bool)
        requires
            old(self).wf(),
        ensures
            final(self).wf(),
            r == old(self).has_slots(),
            !r ==> *final(self) == *old(self),
            r ==> {
                let pre = old(self).front_slot()->0;
                let post = final(self).front_slot()->0;
                &&& post.input == pre.input
                &&& post.output.id == pre.output.id
                &&& post.output.width == pre.output.width
                &&& post.output.height == pre.output.height
                &&& final(self).back_slot() == old(self).back_slot()
                &&& final(self).front == old(self).front
                &&& final(self).pending == old(self).pending
                &&& final(self).last_dispatch_frame == old(self).last_dispatch_frame
                &&& final(self).last_dispatch_time_ms == old(self).last_dispatch_time_ms
                &&& final(self).dimensions == old(self).dimensions
                &&& final(self).next_texture_id == old(self).next_texture_id
            },
    {
        if self.slot0.is_none() || self.slot1.is_none() {
            return false;
        }
        let slot = if self.front == 0 {
            &mut self.slot0
        } else {
            &mut self.slot1
        };
        match slot {
            Some(pair) => {
                plugin.gpu_draw(&pair.input, &mut pair.output, frame);
            },
            None => {
            },
        }
        true
    }

    /// A previous frame's result is ready for presentation at
    /// `current_frame` and `now_ms`.
    pub fn has_result_ready(&self, current_frame: u64, now_ms: u64) -> (r: bool)
        ensures
            r == self.result_ready(current_frame, now_ms),
    {
        if !self.pending {
            return false;
        }
        let frame_ok = match self.last_dispatch_frame {
            Some(f) => current_frame == crate::timing::successor_frame(f),
            None => false,
        };
        let time_ok = match self.last_dispatch_time_ms {
            Some(t) => crate::timing::dispatch_is_fresh(t, now_ms),
            None => false,
        };
        frame_ok && time_ok
    }

    /// Block until the outstanding work completes, then discard the token.
    /// The stamps stay for the staleness rule. On this backend completion
    /// is immediate; GPU embeddings poll the driver, bounded by the wait
    /// timeout, alongside this transition.
    pub fn wait_for_previous(&mut self)
        ensures
            *final(self) == old(self).drained(),
    {
        self.pending = false;
    }

    /// Block until the outstanding work completes without discarding the
    /// token — used to present the current frame synchronously when no
    /// previous result exists. On this backend a no-op.
    pub fn wait_for_pending(&mut self)
        ensures
            *final(self) == *old(self),
    {
    }

    /// Toggle which slot is the front.
    pub fn swap(&mut self)
        requires
            old(self).wf(),
        ensures
            final(self).wf(),
            *final(self) == old(self).swapped(),
    {
        self.front = 1 - self.front;
    }

    /// Record a fresh synchronization token for work just submitted,
    /// stamped with the frame counter and the clock.
    pub fn mark_dispatch(&mut self, frame: u64, now_ms: u64)
        requires
            old(self).wf(),
        ensures
            final(self).wf(),
            *final(self) == old(self).marked(frame, now_ms),
    {
        self.pending = true;
        self.last_dispatch_frame = Some(frame);
        self.last_dispatch_time_ms = Some(now_ms);
    }

    /// Drain any outstanding work, destroy all resources and reset the
    /// bookkeeping. Idempotent: from any state, and again from the result,
    /// the bridge ends uninitialized.
    pub fn cleanup(&mut self)
        ensures
            final(self).wf(),
            *final(self) == old(self).cleaned(),
            final(self).is_uninitialized(),
    {
        self.pending = false;
        self.slot0 = None;
        self.slot1 = None;
        self.front = 0;
        self.last_dispatch_frame = None;
        self.last_dispatch_time_ms = None;
        self.dimensions = (0, 0);
    }
}

/// Releasing a bridge is idempotent: `cleanup` leaves it uninitialized,
/// and a second `cleanup` from that state changes nothing.
pub proof fn lemma_cleanup_idempotent(b: PixelBridge)
    ensures
        b.cleaned().is_uninitialized(),
        b.cleaned().cleaned() == b.cleaned(),
{
}

/// The front index always stays in {0, 1}. `swap` strictly alternates it
/// — one swap moves to the other slot, a second returns — and no other
/// operation moves it: marking and draining keep it, while cleanup resets
/// it to 0, as a reallocation does.
pub proof fn lemma_front_alternation(b: PixelBridge, frame: u64, now_ms: u64)
    requires
        b.wf(),
    ensures
        b.swapped().front == 1 - b.front,
        b.swapped().front <= 1,
        b.swapped().swapped().front == b.front,
        b.marked(frame, now_ms).front == b.front,
        b.drained().front == b.front,
        b.cleaned().front == 0,
{
}

/// The staleness rule: after `mark_dispatch(f)` at time `t`, once the
/// staleness bound has elapsed, the result is not ready at frame `f + 1`
/// even though a token is outstanding and the frame-counter check alone
/// would pass.
pub proof fn lemma_stale_result_rejected(b: PixelBridge, f: u64, t: u64, now_ms: u64)
    requires
        t + crate::timing::STALENESS_BOUND_MS <= now_ms,
    ensures
        b.marked(f, t).pending,
        b.marked(f, t).last_dispatch_frame == Some(f),
        !b.marked(f, t).result_ready(next_frame(f), now_ms),
{
}

} // verus!
