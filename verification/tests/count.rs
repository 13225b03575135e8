use latches::CountLatch;
use latches::Latch;
use latches::LatchProbe;

#[test]
fn count_latch_starts_unfired() {
    let latch = CountLatch::new();
    assert!(!latch.probe());
}

#[test]
fn count_latch_owner_alone_fires_it() {
    let latch = CountLatch::new();
    latch.set();
    assert!(latch.probe());
}

#[test]
fn count_latch_two_increments_three_sets() {
    let latch = CountLatch::new();
    latch.increment();
    latch.increment();
    assert_eq!(latch.probe(), false);
    latch.set();
    assert_eq!(latch.probe(), false);
    latch.set();
    assert_eq!(latch.probe(), false);
    latch.set();
    assert_eq!(latch.probe(), true);
}

#[test]
fn count_latch_needs_one_set_more_than_increments() {
    for k in 0..20usize {
        let latch = CountLatch::new();
        for _ in 0..k {
            latch.increment();
        }
        for _ in 0..k {
            assert!(!latch.probe());
            latch.set();
        }
        assert!(!latch.probe());
        latch.set();
        assert!(latch.probe());
    }
}

#[test]
fn count_latch_counts_in_any_order() {
    let latch = CountLatch::new();
    latch.increment();
    latch.set();
    assert!(!latch.probe());
    latch.increment();
    latch.increment();
    latch.set();
    latch.set();
    assert!(!latch.probe());
    latch.set();
    assert!(latch.probe());
}

#[test]
fn count_latch_stays_fired_while_probed() {
    let latch = CountLatch::new();
    latch.set();
    for _ in 0..5 {
        assert!(latch.probe());
    }
}

#[test]
fn count_latch_fires_at_zero_only() {
    assert_eq!(CountLatch::fires_at(0), true);
    assert_eq!(CountLatch::fires_at(1), false);
    assert_eq!(CountLatch::fires_at(2), false);
    assert_eq!(CountLatch::fires_at(usize::MAX), false);
}

#[test]
fn count_latch_formats_for_debugging() {
    let latch = CountLatch::new();
    let text = format!("{:?}", latch);
    assert!(text.contains("CountLatch"));
    assert!(text.contains("1"));
}

#[test]
fn count_latch_is_unfired_before_each_increment() {
    let latch = CountLatch::new();
    for _ in 0..4 {
        assert!(!latch.probe());
        latch.increment();
    }
    for _ in 0..4 {
        latch.set();
        assert!(!latch.probe());
    }
    latch.set();
    assert!(latch.probe());
}
