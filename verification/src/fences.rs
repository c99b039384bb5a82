//! Synchronization-token bookkeeping for backends with per-slot fences.
//!
//! Some backends insert one driver fence per dispatch and rotate it with
//! the slots: the fence for the frame just submitted is pending; after a
//! swap it guards the back slot as the previous fence; a wait on it
//! retires it. A token is valid only until it is waited on once, then it
//! is discarded — these transitions say which token the driver must wait
//! on or delete, and prove that a retired token is no longer held.

use vstd::prelude::*;

verus! {

/// The at-most-two live synchronization tokens of a double-buffered
/// backend, named by identities the driver maps to its fence objects.
pub struct FenceSlots {
    /// Token for the work submitted this frame.
    pub pending: Option<u64>,
    /// Token rotated out by the last swap, guarding the back slot.
    pub previous: Option<u64>,
    /// Identity for the next token.
    pub next_token: u64,
}

impl FenceSlots {
    /// Tokens are drawn from the identity counter and the two slots never
    /// hold the same token.
    pub open spec fn wf(self) -> bool {
        &&& (self.pending matches Some(p) ==> p < self.next_token)
        &&& (self.previous matches Some(q) ==> q < self.next_token)
        &&& (self.pending is Some && self.previous is Some ==> self.pending->0
            != self.previous->0)
    }

    /// The token is held in one of the two slots.
    pub open spec fn holds(self, token: u64) -> bool {
        self.pending == Some(token) || self.previous == Some(token)
    }

    /// No tokens outstanding.
    pub fn new() -> (r: FenceSlots)
        ensures
            r.wf(),
            r.pending is None,
            r.previous is None,
            r.next_token == 0,
    {
        FenceSlots { pending: None, previous: None, next_token: 0 }
    }

    /// Record a fresh token for the work just submitted. Returns the
    /// replaced pending token, which the driver must delete, and the fresh
    /// token's identity for the fence it just inserted.
    pub fn mark_dispatch(&mut self) -> (r: (Option<u64>, u64))
        requires
            old(self).wf(),
            old(self).next_token < u64::MAX,
        ensures
            final(self).wf(),
            r.1 == old(self).next_token,
            r.0 == old(self).pending,
            final(self).pending == Some(r.1),
            final(self).previous == old(self).previous,
            final(self).next_token == old(self).next_token + 1,
            r.0 matches Some(t) ==> !final(self).holds(t),
    {
        let retired = self.pending;
        let fresh = self.next_token;
        self.pending = Some(fresh);
        self.next_token = fresh + 1;
        (retired, fresh)
    }

    /// Rotate with a slot swap: the old previous token is retired — the
    /// driver deletes it without waiting, its slot was already presented —
    /// and the pending token moves to guard the back slot.
    pub fn swap_rotate(&mut self) -> (r: Option<u64>)
        requires
            old(self).wf(),
        ensures
            final(self).wf(),
            r == old(self).previous,
            final(self).previous == old(self).pending,
            final(self).pending is None,
            final(self).next_token == old(self).next_token,
            r matches Some(t) ==> !final(self).holds(t),
    {
        let retired = self.previous;
        self.previous = self.pending;
        self.pending = None;
        retired
    }

    /// Retire the previous token: the driver waits on it, then deletes
    /// it. Once waited on, it is held nowhere — a token is valid only
    /// until waited on once.
    pub fn wait_for_previous(&mut self) -> (r: Option<u64>)
        requires
            old(self).wf(),
        ensures
            final(self).wf(),
            r == old(self).previous,
            final(self).previous is None,
            final(self).pending == old(self).pending,
            final(self).next_token == old(self).next_token,
            r matches Some(t) ==> !final(self).holds(t),
    {
        let retired = self.previous;
        self.previous = None;
        retired
    }

    /// The token to wait on without retiring it — the synchronous path
    /// still needs it for the next frame's freshness check.
    pub fn wait_for_pending(&self) -> (r: Option<u64>)
        ensures
            r == self.pending,
    {
        self.pending
    }

    /// Retire both tokens: the driver waits on what is outstanding and
    /// deletes both fences. Nothing is held afterwards.
    pub fn cleanup(&mut self) -> (r: (Option<u64>, Option<u64>))
        requires
            old(self).wf(),
        ensures
            final(self).wf(),
            r == (old(self).previous, old(self).pending),
            final(self).pending is None,
            final(self).previous is None,
            final(self).next_token == old(self).next_token,
            forall|t: u64| !final(self).holds(t),
    {
        let retired = (self.previous, self.pending);
        self.previous = None;
        self.pending = None;
        retired
    }
}

} // verus!
