use latches::Latch;
use latches::LatchProbe;
use latches::SpinLatch;

#[test]
fn spin_latch_starts_unfired() {
    let latch = SpinLatch::new();
    assert!(!latch.probe());
    assert!(!latch.probe());
}

#[test]
fn spin_latch_fires_on_set() {
    let latch = SpinLatch::new();
    assert_eq!(latch.probe(), false);
    latch.set();
    assert_eq!(latch.probe(), true);
}

#[test]
fn spin_latch_stays_fired() {
    let latch = SpinLatch::new();
    latch.set();
    for _ in 0..5 {
        assert!(latch.probe());
    }
    latch.set();
    latch.set();
    assert!(latch.probe());
}

#[test]
fn spin_latches_are_independent() {
    let first = SpinLatch::new();
    let second = SpinLatch::new();
    first.set();
    assert!(first.probe());
    assert!(!second.probe());
}
