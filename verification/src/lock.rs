//! The lock latch: a flag under a mutex, with a condition variable on which a
//! thread can block until the latch has fired.
use crate::latch::Latch;
use crate::latch::LatchProbe;
use std::sync::Condvar;
use std::sync::Mutex;
use std::sync::MutexGuard;
use vstd::prelude::*;

verus! {

/// `std::sync::Mutex`, of which the verifier sees nothing but the name.
#[verifier::external_type_specification]
#[verifier::external_body]
#[verifier::reject_recursive_types(T)]
pub struct ExMutex<T: ?Sized>(Mutex<T>);

/// `std::sync::MutexGuard`, of which the verifier sees nothing but the name.
#[verifier::external_type_specification]
#[verifier::external_body]
#[verifier::reject_recursive_types(T)]
pub struct ExMutexGuard<'a, T: ?Sized + 'a>(MutexGuard<'a, T>);

/// `std::sync::Condvar`, of which the verifier sees nothing but the name.
#[verifier::external_type_specification]
#[verifier::external_body]
pub struct ExCondvar(Condvar);

/// The flag that a guard gives access to. While a thread holds the guard no
/// other thread reads or writes the flag, so it changes only where the guard
/// itself is written through or handed to the condition variable.
pub uninterp spec fn guarded_flag(guard: &MutexGuard<bool>) -> bool;

/// `Mutex::new`. Nothing is claimed of the mutex that comes back.
pub assume_specification<T>[ Mutex::<T>::new ](value: T) -> (mutex: Mutex<T>);

/// `Condvar::new`. Nothing is claimed of the condition variable that comes
/// back.
pub assume_specification[ Condvar::new ]() -> (signal: Condvar);

/// `Condvar::notify_all`, which wakes every thread that is blocked on the
/// condition variable. It returns nothing, and nothing is claimed of it.
pub assume_specification[ Condvar::notify_all ](signal: &Condvar);

/// `Mutex::lock`: blocks until the mutex is free and returns its guard.
/// Nothing is claimed of the flag that the guard finds, which is whatever the
/// last holder left.
///
/// `lock` reports a poisoned mutex, and this function panics on that report.
/// A mutex is poisoned when a thread panics while it holds the guard; the
/// latch keeps its mutex to itself and does nothing under the guard that can
/// panic.
#[verifier::external_body]
fn acquire(mutex: &Mutex<bool>) -> (guard: MutexGuard<'_, bool>) {
    mutex.lock().unwrap()
}

/// Reading through a guard (`Deref`): returns the flag that it guards.
#[verifier::external_body]
fn read_flag(guard: &MutexGuard<bool>) -> (flag: bool)
    ensures
        flag == guarded_flag(guard),
{
    **guard
}

/// Writing through a guard (`DerefMut`): takes the guard, writes `flag`
/// through it and hands it back, so that the flag it guards is `flag`.
#[verifier::external_body]
fn write_flag<'a>(guard: MutexGuard<'a, bool>, flag: bool) -> (written: MutexGuard<'a, bool>)
    ensures
        guarded_flag(&written) == flag,
{
    let mut written = guard;
    *written = flag;
    written
}

/// `Condvar::wait_while` with the condition `must_wait`: gives the mutex up
/// and blocks while the flag is unset, testing it anew under the mutex after
/// each wake-up, and returns the guard once the test finds it set. So the
/// guard that comes back guards a set flag. It does not return before that,
/// however long that takes.
///
/// `wait_while` reports a poisoned mutex, and this function panics on that
/// report, as `acquire` does.
#[verifier::external_body]
fn hold_until_set<'a>(signal: &Condvar, guard: MutexGuard<'a, bool>) -> (woken: MutexGuard<
    'a,
    bool,
>)
    ensures
        guarded_flag(&woken),
{
    signal.wait_while(guard, |flag: &mut bool| must_wait(*flag)).unwrap()
}

/// Whether a thread that finds `flag` under the mutex has to go on waiting.
fn must_wait(flag: bool) -> (waiting: bool)
    ensures
        waiting == !LockLatch::fired(flag),
{
    !flag
}

/// A latch on which a thread can block until it has fired. The flag lives
/// under a mutex; a condition variable wakes the threads that wait for it.
///
/// `wait` leaves the latch fired, so a one-shot latch stays fired for good.
/// `wait_and_reset` takes the flag back as it returns, which makes the same
/// latch ready for the next rendezvous of the same threads.
///
/// Every operation takes the mutex first and gives it up as it returns. The
/// contracts follow the guard through the operation: the guard that taking
/// the mutex gave, and what the operation made of it before it let it go.
pub struct LockLatch {
    mutex: Mutex<bool>,
    signal: Condvar,
}

impl LockLatch {
    /// The state of a latch that `new` has just made.
    pub open spec fn fresh() -> bool {
        false
    }

    /// What `wait_and_reset` makes of `state` as it returns.
    pub open spec fn after_reset(state: bool) -> bool {
        false
    }

    /// The mutex of the latch, which holds the flag.
    pub closed spec fn mutex(&self) -> Mutex<bool> {
        self.mutex
    }

    /// The condition variable of the latch.
    pub closed spec fn signal(&self) -> Condvar {
        self.signal
    }

    /// `guard` is a guard that taking the mutex of the latch has given.
    pub closed spec fn entered(&self, guard: MutexGuard<bool>) -> bool {
        call_ensures(acquire, (&self.mutex,), guard)
    }

    /// `woken` is what a wait on the condition variable of the latch has
    /// made of `held`: the mutex was given up for as long as the flag was
    /// unset, and taken again when it was found set.
    pub closed spec fn waited(&self, held: MutexGuard<bool>, woken: MutexGuard<bool>) -> bool {
        call_ensures(hold_until_set, (&self.signal, held), woken)
    }

    /// `written` is the guard `held` once `flag` has been written through
    /// it.
    pub closed spec fn wrote(held: MutexGuard<bool>, flag: bool, written: MutexGuard<bool>) -> bool {
        call_ensures(write_flag, (held, flag), written)
    }

    /// Makes a latch that has not fired: its mutex is made around an unset
    /// flag.
    #[inline]
    pub fn new() -> (latch: LockLatch)
        ensures
            call_ensures(Mutex::<bool>::new, (Self::fresh(),), latch.mutex()),
            call_ensures(Condvar::new, (), latch.signal()),
    {
        LockLatch { mutex: Mutex::new(false), signal: Condvar::new() }
    }

    /// Blocks until the latch has fired, then takes the flag back, so that
    /// the latch can be waited on and set again. It does not return unless
    /// some thread calls `set`.
    ///
    /// It takes the mutex, waits until it holds it with the flag set,
    /// writes the flag of a fresh latch, and gives the mutex up.
    pub fn wait_and_reset(&self)
        ensures
            exists|held: MutexGuard<bool>, woken: MutexGuard<bool>, left: MutexGuard<bool>|
                {
                    &&& self.entered(held)
                    &&& #[trigger] self.waited(held, woken)
                    &&& lock_returns(guarded_flag(&woken), LockOp::WaitAndReset)
                    &&& #[trigger] Self::wrote(woken, Self::fresh(), left)
                    &&& guarded_flag(&left) == lock_after(
                        guarded_flag(&woken),
                        LockOp::WaitAndReset,
                    )
                },
    {
        let held = acquire(&self.mutex);
        let ghost found = held;
        let woken = hold_until_set(&self.signal, held);
        let ghost passed = woken;
        let left = write_flag(woken, false);
        assert(self.waited(found, passed) && Self::wrote(passed, Self::fresh(), left));
    }

    /// Blocks until the latch has fired. It does not return unless some
    /// thread calls `set`.
    ///
    /// It takes the mutex, waits until it holds it with the flag set, and
    /// gives it up without a write.
    pub fn wait(&self)
        ensures
            exists|held: MutexGuard<bool>, woken: MutexGuard<bool>|
                {
                    &&& self.entered(held)
                    &&& #[trigger] self.waited(held, woken)
                    &&& lock_returns(guarded_flag(&woken), LockOp::Wait)
                },
    {
        let held = acquire(&self.mutex);
        let ghost found = held;
        let woken = hold_until_set(&self.signal, held);
        assert(self.waited(found, woken));
    }
}

impl LatchProbe for LockLatch {
    /// The flag.
    type State = bool;

    open spec fn fired(state: bool) -> bool {
        state
    }

    /// Takes the mutex and answers with the flag that it finds under it. So
    /// it costs more than the probe of a spin latch: it is for the odd look
    /// at the latch, not for a polling loop.
    #[inline]
    fn probe(&self) -> (fired: bool)
        ensures
            exists|held: MutexGuard<bool>| #[trigger]
                self.entered(held) && fired == Self::fired(guarded_flag(&held)),
    {
        let held = acquire(&self.mutex);
        assert(self.entered(held));
        read_flag(&held)
    }
}

impl Latch for LockLatch {
    open spec fn after_set(state: bool) -> bool {
        true
    }

    /// Fires the latch and wakes every thread that waits on it: several may
    /// wait for the same rendezvous.
    ///
    /// It takes the mutex, sets the flag under it, and notifies all waiters
    /// of the condition variable before it gives the mutex up.
    #[inline]
    fn set(&self)
        ensures
            exists|held: MutexGuard<bool>, left: MutexGuard<bool>|
                {
                    &&& self.entered(held)
                    &&& #[trigger] Self::wrote(held, true, left)
                    &&& guarded_flag(&left) == lock_after(guarded_flag(&held), LockOp::Fire)
                },
            call_ensures(Condvar::notify_all, (&self.signal(),), ()),
    {
        let held = acquire(&self.mutex);
        let ghost found = held;
        let left = write_flag(held, true);
        assert(self.entered(found) && Self::wrote(found, true, left));
        self.signal.notify_all();
    }
}

/// One operation on a lock latch that has returned.
pub enum LockOp {
    /// A call of `set`.
    Fire,
    /// A call of `wait`.
    Wait,
    /// A call of `wait_and_reset`.
    WaitAndReset,
}

/// Whether `op` returns when it finds the latch in `state`. A wait that
/// finds the latch unfired blocks instead: it returns later, from a state
/// that some `set` has made.
pub open spec fn lock_returns(state: bool, op: LockOp) -> bool {
    match op {
        LockOp::Fire => true,
        LockOp::Wait => LockLatch::fired(state),
        LockOp::WaitAndReset => LockLatch::fired(state),
    }
}

/// What `op` makes of `state` as it returns.
pub open spec fn lock_after(state: bool, op: LockOp) -> bool {
    match op {
        LockOp::Fire => LockLatch::after_set(state),
        LockOp::Wait => state,
        LockOp::WaitAndReset => LockLatch::after_reset(state),
    }
}

/// What the operations `ops`, returning in that order, make of `state`.
pub open spec fn lock_run(state: bool, ops: Seq<LockOp>) -> bool
    decreases ops.len(),
{
    if ops.len() == 0 {
        state
    } else {
        lock_after(lock_run(state, ops.drop_last()), ops.last())
    }
}

/// Whether the operations `ops` can return in that order on a latch that
/// starts in `state`: each of them finds a state in which it returns.
pub open spec fn lock_completes(state: bool, ops: Seq<LockOp>) -> bool {
    forall|i: int| 0 <= i < ops.len() ==> lock_returns(#[trigger] lock_run(state, ops.take(i)), ops[i])
}

/// One `set` followed by `waiters` calls of `wait`.
pub open spec fn set_then_waits(waiters: nat) -> Seq<LockOp> {
    seq![LockOp::Fire] + Seq::new(waiters, |i: int| LockOp::Wait)
}

/// A fresh latch that is found fired has been set, and nothing has taken the
/// flag back since.
proof fn lemma_fired_by_a_set(ops: Seq<LockOp>)
    requires
        LockLatch::fired(lock_run(LockLatch::fresh(), ops)),
    ensures
        exists|j: int|
            0 <= j < ops.len() && ops[j] == LockOp::Fire && forall|k: int|
                j < k < ops.len() ==> ops[k] != LockOp::WaitAndReset,
    decreases ops.len(),
{
    if ops.len() > 0 {
        let before = ops.drop_last();
        match ops.last() {
            LockOp::Fire => {
                let j = ops.len() - 1;
                assert(ops[j] == LockOp::Fire);
            },
            LockOp::Wait => {
                lemma_fired_by_a_set(before);
                let j = choose|j: int|
                    0 <= j < before.len() && before[j] == LockOp::Fire && forall|k: int|
                        j < k < before.len() ==> before[k] != LockOp::WaitAndReset;
                assert(ops[j] == LockOp::Fire);
                assert forall|k: int| j < k < ops.len() implies ops[k] != LockOp::WaitAndReset by {
                    if k < before.len() {
                        assert(ops[k] == before[k]);
                    }
                }
            },
            LockOp::WaitAndReset => {},
        }
    }
}

/// The flag is set after the `set` and after each of the waits that follow.
proof fn lemma_set_then_waits_fired(state: bool, waiters: nat, passed: nat)
    requires
        passed <= waiters,
    ensures
        lock_run(state, set_then_waits(waiters).take(1 + passed as int)),
    decreases passed,
{
    let ops = set_then_waits(waiters);
    let prefix = ops.take(1 + passed as int);
    if passed == 0 {
        assert(prefix.drop_last() =~= Seq::<LockOp>::empty());
        assert(prefix.last() == LockOp::Fire);
    } else {
        lemma_set_then_waits_fired(state, waiters, (passed - 1) as nat);
        assert(prefix.drop_last() =~= ops.take(passed as int));
        assert(prefix.last() == LockOp::Wait);
    }
}

/// A wait returns only after a `set`: in every history of a fresh latch, a
/// `wait` or `wait_and_reset` that has returned has a `set` before it, with
/// no `wait_and_reset` between the two that would have taken the flag back.
pub proof fn law_wait_follows_set(ops: Seq<LockOp>, i: int)
    requires
        lock_completes(LockLatch::fresh(), ops),
        0 <= i < ops.len(),
        ops[i] != LockOp::Fire,
    ensures
        exists|j: int|
            0 <= j < i && ops[j] == LockOp::Fire && forall|k: int|
                j < k < i ==> ops[k] != LockOp::WaitAndReset,
{
    let before = ops.take(i);
    assert(lock_returns(lock_run(LockLatch::fresh(), before), ops[i]));
    lemma_fired_by_a_set(before);
    let j = choose|j: int|
        0 <= j < before.len() && before[j] == LockOp::Fire && forall|k: int|
            j < k < before.len() ==> before[k] != LockOp::WaitAndReset;
    assert(ops[j] == before[j]);
    assert forall|k: int| j < k < i implies ops[k] != LockOp::WaitAndReset by {
        assert(ops[k] == before[k]);
    }
}

/// One `set` releases every waiter: whatever the latch held, after a single
/// `set` any number of `wait` calls return, and they leave the latch fired.
pub proof fn law_set_releases_every_waiter(state: bool, waiters: nat)
    ensures
        lock_completes(state, set_then_waits(waiters)),
        LockLatch::fired(lock_run(state, set_then_waits(waiters))),
{
    let ops = set_then_waits(waiters);
    assert forall|i: int| 0 <= i < ops.len() implies lock_returns(
        #[trigger] lock_run(state, ops.take(i)),
        ops[i],
    ) by {
        if i > 0 {
            lemma_set_then_waits_fired(state, waiters, (i - 1) as nat);
        }
    }
    lemma_set_then_waits_fired(state, waiters, waiters);
    assert(ops.take(1 + waiters as int) =~= ops);
}

/// `wait_and_reset` leaves a fresh latch behind: whatever is done with the
/// latch after it has returned goes as it would on a latch that `new` has
/// just made. So the next rendezvous needs a `set` of its own.
pub proof fn law_reset_rearms(state: bool, ops: Seq<LockOp>)
    ensures
        lock_after(state, LockOp::WaitAndReset) == LockLatch::fresh(),
        !LockLatch::fired(lock_after(state, LockOp::WaitAndReset)),
        lock_completes(lock_after(state, LockOp::WaitAndReset), ops) == lock_completes(
            LockLatch::fresh(),
            ops,
        ),
        lock_run(lock_after(state, LockOp::WaitAndReset), ops) == lock_run(LockLatch::fresh(), ops),
{
}

} // verus!
