use ffgl_gpu::fences::FenceSlots;

#[test]
fn tokens_rotate_with_the_slots() {
    let mut f = FenceSlots::new();
    let (retired, t1) = f.mark_dispatch();
    assert_eq!(retired, None);
    assert_eq!(t1, 0);
    assert_eq!(f.swap_rotate(), None, "no previous token on the first swap");
    assert_eq!(f.previous, Some(t1), "the pending token now guards the back slot");
    let (retired, t2) = f.mark_dispatch();
    assert_eq!(retired, None);
    assert_eq!(t2, 1);
    assert_eq!(f.swap_rotate(), Some(t1), "the rotated-out token is retired unwaited");
    assert_eq!(f.previous, Some(t2));
}

#[test]
fn token_valid_until_waited_on_once() {
    let mut f = FenceSlots::new();
    let (_, t1) = f.mark_dispatch();
    f.swap_rotate();
    assert_eq!(f.wait_for_previous(), Some(t1));
    assert_eq!(f.wait_for_previous(), None, "a token is discarded after one wait");
}

#[test]
fn waiting_on_pending_keeps_it() {
    let mut f = FenceSlots::new();
    let (_, t1) = f.mark_dispatch();
    assert_eq!(f.wait_for_pending(), Some(t1));
    assert_eq!(f.wait_for_pending(), Some(t1), "the synchronous wait does not retire");
}

#[test]
fn redispatch_without_swap_replaces_pending() {
    let mut f = FenceSlots::new();
    let (_, t1) = f.mark_dispatch();
    let (retired, t2) = f.mark_dispatch();
    assert_eq!(retired, Some(t1), "an unrotated pending token is replaced and retired");
    assert_eq!(f.pending, Some(t2));
}

#[test]
fn cleanup_retires_everything() {
    let mut f = FenceSlots::new();
    let (_, t1) = f.mark_dispatch();
    f.swap_rotate();
    let (_, t2) = f.mark_dispatch();
    assert_eq!(f.cleanup(), (Some(t1), Some(t2)));
    assert_eq!(f.pending, None);
    assert_eq!(f.previous, None);
}
