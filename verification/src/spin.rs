//! The spin latch: one atomic flag, no blocking wait.
use crate::latch::after_sets;
use crate::latch::Latch;
use crate::latch::LatchProbe;
use std::sync::atomic::AtomicBool;
use std::sync::atomic::Ordering;
use vstd::prelude::*;

verus! {

/// The simplest latch: a flag that starts false and becomes true when `set`
/// is called. It offers no way to block; poll it with `probe`.
///
/// Both operations use sequentially consistent ordering. Release and acquire
/// would be enough for a `probe` that returns true to see what was written
/// before the `set`. They are not enough for a thread that probes while it
/// decides whether to go to sleep: it must not read a stale `false` once the
/// `set` has taken place, since nobody will signal it again.
pub struct SpinLatch {
    flag: AtomicBool,
}

impl SpinLatch {
    /// The state of a latch that `new` has just made.
    pub open spec fn fresh() -> bool {
        false
    }

    /// The atomic flag of the latch.
    pub closed spec fn flag(&self) -> AtomicBool {
        self.flag
    }

    /// Makes a latch that has not fired: its flag is an atomic made with the
    /// state of a fresh latch.
    #[inline]
    pub fn new() -> (latch: SpinLatch)
        ensures
            call_ensures(AtomicBool::new, (Self::fresh(),), latch.flag()),
    {
        SpinLatch { flag: AtomicBool::new(false) }
    }
}

impl LatchProbe for SpinLatch {
    /// The flag.
    type State = bool;

    open spec fn fired(state: bool) -> bool {
        state
    }

    /// What comes back is what a sequentially consistent load of the flag
    /// has read.
    #[inline]
    fn probe(&self) -> (fired: bool)
        ensures
            call_ensures(AtomicBool::load, (&self.flag(), Ordering::SeqCst), fired),
    {
        self.flag.load(Ordering::SeqCst)
    }
}

impl Latch for SpinLatch {
    open spec fn after_set(state: bool) -> bool {
        true
    }

    /// Stores `true` in the flag, with sequentially consistent ordering.
    #[inline]
    fn set(&self)
        ensures
            call_ensures(AtomicBool::store, (&self.flag(), true, Ordering::SeqCst), ()),
    {
        self.flag.store(true, Ordering::SeqCst);
    }
}

/// A fresh spin latch has not fired. One `set` fires it, whatever it held,
/// and it stays fired through every `set` that follows: a spin latch has no
/// operation that takes the flag back.
pub proof fn law_spin_fires_for_good(state: bool, later: nat)
    ensures
        !SpinLatch::fired(SpinLatch::fresh()),
        SpinLatch::fired(SpinLatch::after_set(state)),
        SpinLatch::fired(after_sets::<SpinLatch>(SpinLatch::after_set(state), later)),
    decreases later,
{
    if later > 0 {
        law_spin_fires_for_good(state, (later - 1) as nat);
    }
}

} // verus!
