use ffgl_gpu::bridge::PixelBridge;
use ffgl_gpu::timing::STALENESS_BOUND_MS;

fn slot_ids(b: &PixelBridge) -> (u64, u64, u64, u64) {
    let p0 = b.slot0.as_ref().expect("slot 0 populated");
    let p1 = b.slot1.as_ref().expect("slot 1 populated");
    (p0.input.id, p0.output.id, p1.input.id, p1.output.id)
}

#[test]
fn ensure_dimensions_populates_both_slots() {
    let mut b = PixelBridge::new();
    b.ensure_dimensions(4, 6);
    assert_eq!(b.dimensions(), (4, 6));
    let p0 = b.slot0.as_ref().expect("slot 0 populated");
    let p1 = b.slot1.as_ref().expect("slot 1 populated");
    assert_eq!((p0.input.width, p0.input.height), (4, 6));
    assert_eq!((p0.output.width, p0.output.height), (4, 6));
    assert_eq!((p1.input.width, p1.input.height), (4, 6));
    assert_eq!((p1.output.width, p1.output.height), (4, 6));
    assert_eq!(p0.input.pixels.len(), 24);
}

#[test]
fn ensure_dimensions_repeat_keeps_handles() {
    let mut b = PixelBridge::new();
    b.ensure_dimensions(8, 8);
    let before = slot_ids(&b);
    b.ensure_dimensions(8, 8);
    assert_eq!(slot_ids(&b), before, "repeat call must reallocate nothing");
}

#[test]
fn ensure_dimensions_change_reallocates() {
    let mut b = PixelBridge::new();
    b.ensure_dimensions(8, 8);
    assert_eq!(slot_ids(&b), (0, 1, 2, 3));
    b.ensure_dimensions(16, 8);
    assert_eq!(slot_ids(&b), (4, 5, 6, 7), "new dimensions allocate fresh textures");
    assert_eq!(b.dimensions(), (16, 8));
}

#[test]
fn ensure_dimensions_largest_extent() {
    let mut b = PixelBridge::new();
    b.ensure_dimensions(0xFFFF, 1);
    assert_eq!(b.dimensions(), (0xFFFF, 1));
    assert_eq!(b.slot0.as_ref().unwrap().input.pixels.len(), 0xFFFF);
}

#[test]
fn front_alternates_under_swap() {
    let mut b = PixelBridge::new();
    b.ensure_dimensions(2, 2);
    assert_eq!(b.front, 0);
    b.swap();
    assert_eq!(b.front, 1);
    b.swap();
    assert_eq!(b.front, 0);
    b.swap();
    assert_eq!(b.front, 1);
}

#[test]
fn cleanup_twice_yields_uninitialized_both_times() {
    let mut b = PixelBridge::new();
    b.ensure_dimensions(4, 4);
    b.mark_dispatch(1, 0);
    for _ in 0..2 {
        b.cleanup();
        assert!(b.slot0.is_none());
        assert!(b.slot1.is_none());
        assert_eq!(b.front, 0);
        assert!(!b.pending);
        assert!(b.last_dispatch_frame.is_none());
        assert!(b.last_dispatch_time_ms.is_none());
        assert_eq!(b.dimensions(), (0, 0));
    }
}

#[test]
fn result_ready_requires_consecutive_frame() {
    let mut b = PixelBridge::new();
    b.ensure_dimensions(2, 2);
    b.mark_dispatch(5, 1000);
    assert!(b.has_result_ready(6, 1010));
    assert!(!b.has_result_ready(5, 1010));
    assert!(!b.has_result_ready(7, 1010));
}

#[test]
fn result_stale_after_bound_despite_frame_match() {
    let mut b = PixelBridge::new();
    b.ensure_dimensions(2, 2);
    b.mark_dispatch(5, 1000);
    assert!(b.has_result_ready(6, 1000 + STALENESS_BOUND_MS - 1));
    assert!(
        !b.has_result_ready(6, 1000 + STALENESS_BOUND_MS),
        "the frame-counter check alone passes, but the result is stale"
    );
}

#[test]
fn result_not_ready_when_frame_repeats_or_skips() {
    let mut b = PixelBridge::new();
    b.ensure_dimensions(2, 2);
    b.mark_dispatch(9, 0);
    assert!(!b.has_result_ready(9, 10), "the same frame counter again is not the successor");
    assert!(!b.has_result_ready(11, 10), "a skipped counter means a gap");
    assert!(b.has_result_ready(10, 10));
}

#[test]
fn result_not_ready_without_dispatch_or_after_wait() {
    let mut b = PixelBridge::new();
    b.ensure_dimensions(2, 2);
    assert!(!b.has_result_ready(1, 0));
    b.mark_dispatch(1, 0);
    b.wait_for_previous();
    assert!(!b.has_result_ready(2, 10), "wait-and-clear discards the token");
}

#[test]
fn wait_for_pending_keeps_token() {
    let mut b = PixelBridge::new();
    b.ensure_dimensions(2, 2);
    b.mark_dispatch(1, 0);
    b.wait_for_pending();
    assert!(b.pending);
    assert!(b.has_result_ready(2, 10));
}

#[test]
fn resize_drains_outstanding_token_before_destroying_slots() {
    let mut b = PixelBridge::new();
    b.ensure_dimensions(100, 100);
    b.mark_dispatch(1, 0);
    assert!(b.pending);
    b.ensure_dimensions(200, 150);
    assert!(!b.pending, "in-flight work is drained before the old slots go away");
    assert_eq!(b.dimensions(), (200, 150));
    assert_eq!(slot_ids(&b), (4, 5, 6, 7));
    assert!(b.last_dispatch_frame.is_none());
}
