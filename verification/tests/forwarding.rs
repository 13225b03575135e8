use latches::CountLatch;
use latches::Latch;
use latches::LatchProbe;
use latches::LockLatch;
use latches::SpinLatch;
use latches::TickleLatch;
use latches::WakeService;
use latches::WakeTarget;
use std::cell::Cell;

fn fire<L: Latch>(latch: L) {
    latch.set();
}

fn ask<P: LatchProbe>(probe: P) -> bool {
    probe.probe()
}

struct Tally {
    all: Cell<usize>,
}

impl WakeService for Tally {
    fn tickle(&self, target: WakeTarget) {
        if target == WakeTarget::All {
            self.all.set(self.all.get() + 1);
        }
    }
}

#[test]
fn reference_to_spin_latch_forwards() {
    let latch = SpinLatch::new();
    assert_eq!(ask(&latch), false);
    assert_eq!(ask(&latch), latch.probe());
    fire(&latch);
    assert_eq!(latch.probe(), true);
    assert_eq!(ask(&latch), true);
}

#[test]
fn reference_to_reference_forwards() {
    let latch = SpinLatch::new();
    let once = &latch;
    assert_eq!(ask(&once), false);
    fire(&once);
    assert_eq!(ask(&once), true);
    assert_eq!(latch.probe(), true);
}

#[test]
fn reference_to_count_latch_forwards() {
    let owned = CountLatch::new();
    let borrowed = CountLatch::new();
    owned.increment();
    borrowed.increment();
    owned.set();
    fire(&borrowed);
    assert_eq!(ask(&borrowed), owned.probe());
    assert_eq!(ask(&borrowed), false);
    owned.set();
    fire(&borrowed);
    assert_eq!(ask(&borrowed), owned.probe());
    assert_eq!(borrowed.probe(), true);
}

#[test]
fn reference_to_lock_latch_forwards() {
    let latch = LockLatch::new();
    assert_eq!(ask(&latch), false);
    fire(&latch);
    assert_eq!(ask(&latch), true);
    latch.wait_and_reset();
    assert_eq!(ask(&latch), false);
}

#[test]
fn reference_to_tickle_latch_forwards() {
    let service = Tally { all: Cell::new(0) };
    let latch = TickleLatch::new(SpinLatch::new(), &service);
    assert_eq!(ask(&latch), false);
    fire(&latch);
    assert_eq!(service.all.get(), 1);
    assert_eq!(ask(&latch), true);
    assert_eq!(latch.probe(), true);
}
