use latches::CountLatch;
use latches::Latch;
use latches::LatchProbe;
use latches::LockLatch;
use latches::SpinLatch;
use latches::TickleLatch;
use latches::WakeService;
use latches::WakeTarget;
use std::cell::RefCell;

/// A wake service that only writes down whom it was asked to wake.
struct Recorder {
    asked: RefCell<Vec<WakeTarget>>,
}

impl Recorder {
    fn new() -> Recorder {
        Recorder { asked: RefCell::new(Vec::new()) }
    }

    fn asked(&self) -> Vec<WakeTarget> {
        self.asked.borrow().clone()
    }
}

impl WakeService for Recorder {
    fn tickle(&self, target: WakeTarget) {
        self.asked.borrow_mut().push(target);
    }
}

/// A wake service that writes down, for each request, whether the latch it
/// watches had fired by then.
struct Watcher<'a> {
    latch: &'a SpinLatch,
    seen: RefCell<Vec<(WakeTarget, bool)>>,
}

impl<'a> WakeService for Watcher<'a> {
    fn tickle(&self, target: WakeTarget) {
        self.seen.borrow_mut().push((target, self.latch.probe()));
    }
}

#[test]
fn tickle_latch_set_fires_inner_and_wakes_all() {
    let service = Recorder::new();
    let latch = TickleLatch::new(SpinLatch::new(), &service);
    assert!(!latch.probe());
    assert_eq!(service.asked(), Vec::<WakeTarget>::new());
    latch.set();
    assert!(latch.probe());
    assert_eq!(service.asked(), vec![WakeTarget::All]);
}

#[test]
fn tickle_latch_probe_wakes_nobody() {
    let service = Recorder::new();
    let latch = TickleLatch::new(SpinLatch::new(), &service);
    assert!(!latch.probe());
    assert!(!latch.probe());
    assert!(service.asked().is_empty());
}

#[test]
fn tickle_latch_wakes_once_per_set() {
    let service = Recorder::new();
    let inner = CountLatch::new();
    inner.increment();
    inner.increment();
    let latch = TickleLatch::new(inner, &service);
    latch.set();
    assert!(!latch.probe());
    assert_eq!(service.asked(), vec![WakeTarget::All]);
    latch.set();
    assert!(!latch.probe());
    assert_eq!(service.asked(), vec![WakeTarget::All, WakeTarget::All]);
    latch.set();
    assert!(latch.probe());
    assert_eq!(service.asked(), vec![WakeTarget::All, WakeTarget::All, WakeTarget::All]);
}

#[test]
fn tickle_latch_probe_equals_inner_probe() {
    let service = Recorder::new();
    let inner = SpinLatch::new();
    let latch = TickleLatch::new(&inner, &service);
    assert_eq!(latch.probe(), inner.probe());
    inner.set();
    assert_eq!(inner.probe(), true);
    assert_eq!(latch.probe(), true);
    assert!(service.asked().is_empty());
}

#[test]
fn tickle_latch_sets_inner_before_it_wakes() {
    let inner = SpinLatch::new();
    let service = Watcher { latch: &inner, seen: RefCell::new(Vec::new()) };
    let latch = TickleLatch::new(&inner, &service);
    latch.set();
    assert_eq!(service.seen.borrow().clone(), vec![(WakeTarget::All, true)]);
}

#[test]
fn tickle_latch_wraps_a_lock_latch() {
    let service = Recorder::new();
    let latch = TickleLatch::new(LockLatch::new(), &service);
    assert!(!latch.probe());
    latch.set();
    assert!(latch.probe());
    assert_eq!(service.asked(), vec![WakeTarget::All]);
}

#[test]
fn tickle_latches_share_a_service() {
    let service = Recorder::new();
    let first = TickleLatch::new(SpinLatch::new(), &service);
    let second = TickleLatch::new(SpinLatch::new(), &service);
    first.set();
    assert!(first.probe());
    assert!(!second.probe());
    second.set();
    assert!(second.probe());
    assert_eq!(service.asked(), vec![WakeTarget::All, WakeTarget::All]);
}

#[test]
fn tickle_latch_in_a_tickle_latch_wakes_both_services() {
    let near = Recorder::new();
    let far = Recorder::new();
    let latch = TickleLatch::new(TickleLatch::new(SpinLatch::new(), &near), &far);
    latch.set();
    assert!(latch.probe());
    assert_eq!(near.asked(), vec![WakeTarget::All]);
    assert_eq!(far.asked(), vec![WakeTarget::All]);
}

#[test]
fn wake_targets_compare_by_what_they_name() {
    assert_eq!(WakeTarget::All, WakeTarget::All);
    assert_eq!(WakeTarget::Worker(3), WakeTarget::Worker(3));
    assert_ne!(WakeTarget::Worker(3), WakeTarget::Worker(4));
    assert_ne!(WakeTarget::Worker(usize::MAX), WakeTarget::All);
    let copy = WakeTarget::Worker(7);
    let same = copy;
    assert_eq!(copy, same);
}
