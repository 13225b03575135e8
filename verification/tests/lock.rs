use latches::Latch;
use latches::LatchProbe;
use latches::LockLatch;

#[test]
fn lock_latch_starts_unfired() {
    let latch = LockLatch::new();
    assert!(!latch.probe());
}

#[test]
fn lock_latch_fires_on_set() {
    let latch = LockLatch::new();
    assert_eq!(latch.probe(), false);
    latch.set();
    assert_eq!(latch.probe(), true);
    latch.set();
    assert_eq!(latch.probe(), true);
}

#[test]
fn lock_latch_wait_returns_once_set() {
    let latch = LockLatch::new();
    latch.set();
    latch.wait();
    assert!(latch.probe());
}

#[test]
fn lock_latch_one_set_serves_every_wait() {
    let latch = LockLatch::new();
    latch.set();
    latch.wait();
    latch.wait();
    latch.wait();
    assert!(latch.probe());
}

#[test]
fn lock_latch_wait_and_reset_takes_the_flag_back() {
    let latch = LockLatch::new();
    latch.set();
    latch.wait_and_reset();
    assert_eq!(latch.probe(), false);
}

#[test]
fn lock_latch_can_be_used_again_after_reset() {
    let latch = LockLatch::new();
    latch.set();
    latch.wait_and_reset();
    assert!(!latch.probe());
    latch.set();
    assert!(latch.probe());
    latch.wait_and_reset();
    assert!(!latch.probe());
    latch.set();
    latch.wait();
    assert!(latch.probe());
}
