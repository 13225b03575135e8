//! The count latch: an atomic counter that fires when it reaches zero.
use crate::latch::after_sets;
use crate::latch::Latch;
use crate::latch::LatchProbe;
use std::sync::atomic::AtomicUsize;
use std::sync::atomic::Ordering;
use vstd::prelude::*;

verus! {

/// A latch that joins several contributors. It holds a counter, which starts
/// at one: the share of whoever made the latch. `increment` adds a
/// contributor, and must be called before the latch has fired. `set` reports
/// one contributor as done, the owner among them; it does not by itself fire
/// the latch. The latch has fired once the counter is zero, that is once the
/// owner and every contributor that was added have called `set`.
///
/// Each `set` answers one unit of expected work: the counter is never taken
/// below zero. Neither rule is enforced when the program runs. The atomic
/// counter wraps around where a caller breaks one, and the model says so.
#[derive(Debug)]
pub struct CountLatch {
    counter: AtomicUsize,
}

impl CountLatch {
    /// The state of a latch that `new` has just made: the owner's share.
    pub open spec fn fresh() -> usize {
        1
    }

    /// What one `increment` makes of `state`: one more, and zero after the
    /// largest count, since the atomic addition wraps around.
    pub open spec fn after_increment(state: usize) -> usize {
        if state == usize::MAX {
            0
        } else {
            (state + 1) as usize
        }
    }

    /// What `n` calls of `increment`, one after another, make of `state`.
    pub open spec fn after_increments(state: usize, n: nat) -> usize
        decreases n,
    {
        if n == 0 {
            state
        } else {
            Self::after_increment(Self::after_increments(state, (n - 1) as nat))
        }
    }

    /// The atomic counter of the latch.
    pub closed spec fn counter(&self) -> AtomicUsize {
        self.counter
    }

    /// Makes a latch that waits for its owner alone: its counter is an
    /// atomic made with the state of a fresh latch, which is one.
    #[inline]
    pub fn new() -> (latch: CountLatch)
        ensures
            call_ensures(AtomicUsize::new, (Self::fresh(),), latch.counter()),
    {
        CountLatch { counter: AtomicUsize::new(1) }
    }

    /// Adds a contributor: adds one to the counter in one atomic step. The
    /// latch must not have fired yet.
    ///
    /// Relaxed ordering is enough: the addition only has to be counted
    /// before the contributor's own `set`, which the caller orders after it.
    #[inline]
    pub fn increment(&self)
        ensures
            exists|before: usize| #[trigger]
                call_ensures(
                    AtomicUsize::fetch_add,
                    (&self.counter(), 1usize, Ordering::Relaxed),
                    before,
                ),
    {
        let _before = self.counter.fetch_add(1, Ordering::Relaxed);
    }

    /// Whether a latch whose counter reads `counter` has fired.
    #[inline]
    pub fn fires_at(counter: usize) -> (fired: bool)
        ensures
            fired == Self::fired(counter),
    {
        counter == 0
    }
}

impl LatchProbe for CountLatch {
    /// The counter.
    type State = usize;

    open spec fn fired(state: usize) -> bool {
        state == 0
    }

    /// Reads the counter with a sequentially consistent load, and answers
    /// whether a latch with that count has fired.
    #[inline]
    fn probe(&self) -> (fired: bool)
        ensures
            exists|count: usize| #[trigger]
                call_ensures(AtomicUsize::load, (&self.counter(), Ordering::SeqCst), count)
                    && fired == Self::fired(count),
    {
        let count = self.counter.load(Ordering::SeqCst);
        CountLatch::fires_at(count)
    }
}

impl Latch for CountLatch {
    /// One less, and the largest count after zero, since the atomic
    /// subtraction wraps around.
    open spec fn after_set(state: usize) -> usize {
        if state == 0 {
            usize::MAX
        } else {
            (state - 1) as usize
        }
    }

    /// Reports one contributor as done: takes one from the counter in one
    /// atomic step, with sequentially consistent ordering.
    #[inline]
    fn set(&self)
        ensures
            exists|before: usize| #[trigger]
                call_ensures(
                    AtomicUsize::fetch_sub,
                    (&self.counter(), 1usize, Ordering::SeqCst),
                    before,
                ),
    {
        let _before = self.counter.fetch_sub(1, Ordering::SeqCst);
    }
}

/// One operation that changes the counter.
pub enum CountOp {
    /// A call of `increment`.
    Increment,
    /// A call of `set`, which takes one from the counter.
    Decrement,
}

/// What `op` makes of `state`.
pub open spec fn count_after(state: usize, op: CountOp) -> usize {
    match op {
        CountOp::Increment => CountLatch::after_increment(state),
        CountOp::Decrement => CountLatch::after_set(state),
    }
}

/// What the operations `ops`, in that order, make of `state`.
pub open spec fn count_run(state: usize, ops: Seq<CountOp>) -> usize
    decreases ops.len(),
{
    if ops.len() == 0 {
        state
    } else {
        count_after(count_run(state, ops.drop_last()), ops.last())
    }
}

/// The test for the operation `op`.
pub open spec fn is_op(op: CountOp) -> spec_fn(CountOp) -> bool {
    |o: CountOp| o == op
}

/// How many of `ops` are the operation `op`.
pub open spec fn count_of(ops: Seq<CountOp>, op: CountOp) -> nat {
    ops.filter(is_op(op)).len()
}

/// The callers keep to the rules: each operation of `ops` finds the latch
/// unfired, so that no contributor is added after it has fired and no `set`
/// comes without a unit of work that it answers.
pub open spec fn count_in_order(state: usize, ops: Seq<CountOp>) -> bool {
    forall|i: int| 0 <= i < ops.len() ==> !CountLatch::fired(#[trigger] count_run(state, ops.take(i)))
}

/// `n` increments add `n` to the counter, as long as the sum fits.
pub proof fn lemma_increments_add(state: usize, n: nat)
    requires
        state + n <= usize::MAX,
    ensures
        CountLatch::after_increments(state, n) == state + n,
    decreases n,
{
    if n > 0 {
        lemma_increments_add(state, (n - 1) as nat);
    }
}

/// `n` sets take `n` from the counter, as long as it holds that much.
pub proof fn lemma_sets_subtract(state: usize, n: nat)
    requires
        n <= state,
    ensures
        after_sets::<CountLatch>(state, n) == state - n,
    decreases n,
{
    if n > 0 {
        lemma_sets_subtract(state, (n - 1) as nat);
    }
}

/// A fresh count latch has not fired. After `k` increments it takes exactly
/// `k + 1` sets to fire it: any smaller number leaves it unfired.
///
/// The counter is a machine word, so `k` has to leave room for the owner's
/// share.
pub proof fn law_count_fires_at_last_set(k: nat, sets: nat)
    requires
        k < usize::MAX,
        sets <= k + 1,
    ensures
        !CountLatch::fired(CountLatch::fresh()),
        CountLatch::fired(
            after_sets::<CountLatch>(CountLatch::after_increments(CountLatch::fresh(), k), sets),
        ) <==> sets == k + 1,
{
    lemma_increments_add(CountLatch::fresh(), k);
    lemma_sets_subtract((k + 1) as usize, sets);
}

/// Counting `op` in a history that ends in `last`.
proof fn lemma_count_of_push(before: Seq<CountOp>, last: CountOp, op: CountOp)
    ensures
        count_of(before.push(last), op) == count_of(before, op) + if last == op {
            1nat
        } else {
            0nat
        },
{
    before.lemma_filter_push(last, is_op(op));
}

/// In whatever order the increments and sets of a fresh latch come, as long
/// as each finds the latch unfired: the counter is one more than the
/// increments less the sets. So it never falls below zero, there is never
/// more than one set for the owner and one for each contributor, and the
/// latch has fired exactly when all of those sets have been made.
pub proof fn law_count_balance(ops: Seq<CountOp>)
    requires
        count_in_order(CountLatch::fresh(), ops),
        count_of(ops, CountOp::Increment) < usize::MAX,
    ensures
        count_run(CountLatch::fresh(), ops) == 1 + count_of(ops, CountOp::Increment) - count_of(
            ops,
            CountOp::Decrement,
        ),
        count_of(ops, CountOp::Decrement) <= count_of(ops, CountOp::Increment) + 1,
        CountLatch::fired(count_run(CountLatch::fresh(), ops)) <==> count_of(ops, CountOp::Decrement)
            == count_of(ops, CountOp::Increment) + 1,
    decreases ops.len(),
{
    if ops.len() == 0 {
        ops.lemma_filter_len(is_op(CountOp::Increment));
        ops.lemma_filter_len(is_op(CountOp::Decrement));
    } else {
        let before = ops.drop_last();
        assert(ops == before.push(ops.last()));
        assert(ops.take(ops.len() - 1) == before);
        assert forall|i: int| 0 <= i < before.len() implies !CountLatch::fired(
            #[trigger] count_run(CountLatch::fresh(), before.take(i)),
        ) by {
            assert(before.take(i) == ops.take(i));
        }
        lemma_count_of_push(before, ops.last(), CountOp::Increment);
        lemma_count_of_push(before, ops.last(), CountOp::Decrement);
        law_count_balance(before);
    }
}

} // verus!
