//! The tickle latch: any latch, with a wake-up of the parked workers added to
//! its `set`; and what it asks of the service that wakes them.
use crate::latch::after_sets;
use crate::latch::Latch;
use crate::latch::LatchProbe;
use vstd::prelude::*;

verus! {

/// Whom a wake service is asked to wake.
#[derive(Clone, Copy, Debug, PartialEq, Eq, Structural)]
pub enum WakeTarget {
    /// The one worker with this index.
    Worker(usize),
    /// Every parked worker.
    All,
}

/// The service that parks idle workers and wakes them on demand. The latches
/// only notify it; it belongs to whoever runs the workers.
pub trait WakeService {
    /// Asks the service to wake `target`, so that it looks for work again.
    /// The call must return without blocking, and must be safe to make from
    /// several threads at once. It reports nothing back.
    fn tickle(&self, target: WakeTarget);
}

/// One thing that a tickle latch does to the outside.
pub enum Effect {
    /// It called `set` on the latch that it wraps.
    InnerSet,
    /// It asked the wake service to wake this target.
    Wake(WakeTarget),
}

/// What a tickle latch holds, and what it has done so far. The latch has no
/// state of its own: `inner` is the state of the latch that it wraps. `done`
/// lists its effects, oldest first.
pub ghost struct TickleState<S> {
    pub inner: S,
    pub done: Seq<Effect>,
}

/// A latch that wraps another one and wakes the parked workers whenever it is
/// set. It is for work that one pool hands to another: the work may concern
/// any idle worker of that pool, so every one of them is woken.
///
/// The latch owns the latch that it wraps. The wake service is only borrowed,
/// and outlives the latch.
pub struct TickleLatch<'a, L: Latch, W: WakeService> {
    inner: L,
    service: &'a W,
}

impl<'a, L: Latch, W: WakeService> TickleLatch<'a, L, W> {
    /// The latch that this one wraps.
    pub closed spec fn wrapped(&self) -> L {
        self.inner
    }

    /// The wake service that this latch notifies.
    pub closed spec fn service(&self) -> &'a W {
        self.service
    }

    /// The state of a tickle latch that has just been made around a latch
    /// that holds `inner`: it has done nothing yet.
    pub open spec fn wrapping(inner: L::State) -> TickleState<L::State> {
        TickleState { inner, done: Seq::empty() }
    }

    /// Wraps `latch`, and binds it to the wake service `service`.
    #[inline]
    pub fn new(latch: L, service: &'a W) -> (tickle: Self)
        ensures
            tickle.wrapped() == latch,
            tickle.service() == service,
    {
        TickleLatch { inner: latch, service }
    }
}

impl<'a, L: Latch, W: WakeService> LatchProbe for TickleLatch<'a, L, W> {
    type State = TickleState<L::State>;

    open spec fn fired(state: TickleState<L::State>) -> bool {
        L::fired(state.inner)
    }

    /// Asks the wrapped latch: what comes back is an answer of its `probe`.
    #[inline]
    fn probe(&self) -> (fired: bool)
        ensures
            call_ensures(L::probe, (&self.wrapped(),), fired),
    {
        self.inner.probe()
    }
}

impl<'a, L: Latch, W: WakeService> Latch for TickleLatch<'a, L, W> {
    open spec fn after_set(state: TickleState<L::State>) -> TickleState<L::State> {
        TickleState {
            inner: L::after_set(state.inner),
            done: state.done + seq![Effect::InnerSet, Effect::Wake(WakeTarget::All)],
        }
    }

    /// Sets the wrapped latch, then asks the wake service to wake every
    /// parked worker. What the `set` of the wrapped latch promises holds
    /// afterwards, and what the service's `tickle` promises of a call with
    /// `WakeTarget::All`.
    #[inline]
    fn set(&self)
        ensures
            call_ensures(L::set, (&self.wrapped(),), ()),
            call_ensures(W::tickle, (self.service(), WakeTarget::All), ()),
    {
        self.inner.set();
        self.service.tickle(WakeTarget::All);
    }
}

/// The effects of `n` sets of a tickle latch: `n` times an inner set
/// followed by a wake-up of every worker.
pub open spec fn effects_of_sets(n: nat) -> Seq<Effect> {
    Seq::new(
        2 * n,
        |i: int|
            if i % 2 == 0 {
                Effect::InnerSet
            } else {
                Effect::Wake(WakeTarget::All)
            },
    )
}

/// Each `set` of a tickle latch sets the wrapped latch exactly once and then
/// wakes every worker exactly once, and does nothing else. So after `n` sets
/// the wrapped latch holds what `n` sets of its own make of its state, and
/// what the tickle latch has done besides is `effects_of_sets(n)`.
pub proof fn law_tickle_sets_then_wakes<'a, L: Latch, W: WakeService + 'a>(
    state: TickleState<L::State>,
    n: nat,
)
    ensures
        TickleLatch::<'a, L, W>::after_set(state).inner == L::after_set(state.inner),
        TickleLatch::<'a, L, W>::after_set(state).done == state.done + seq![
            Effect::InnerSet,
            Effect::Wake(WakeTarget::All),
        ],
        after_sets::<TickleLatch<'a, L, W>>(state, n).inner == after_sets::<L>(state.inner, n),
        after_sets::<TickleLatch<'a, L, W>>(state, n).done == state.done + effects_of_sets(n),
    decreases n,
{
    let after = after_sets::<TickleLatch<'a, L, W>>(state, n);
    if n == 0 {
        assert(after.done =~= state.done + effects_of_sets(n));
    } else {
        let before = after_sets::<TickleLatch<'a, L, W>>(state, (n - 1) as nat);
        law_tickle_sets_then_wakes::<L, W>(state, (n - 1) as nat);
        assert(after.done == before.done + seq![Effect::InnerSet, Effect::Wake(WakeTarget::All)]);
        assert(effects_of_sets(n) =~= effects_of_sets((n - 1) as nat) + seq![
            Effect::InnerSet,
            Effect::Wake(WakeTarget::All),
        ]);
        assert(after.done =~= state.done + effects_of_sets(n));
    }
}

/// A tickle latch has fired exactly when the latch that it wraps has: when
/// it is made, and after any number of sets.
pub proof fn law_tickle_probes_inner<'a, L: Latch, W: WakeService + 'a>(inner: L::State, n: nat)
    ensures
        TickleLatch::<'a, L, W>::fired(TickleLatch::<'a, L, W>::wrapping(inner)) == L::fired(inner),
        TickleLatch::<'a, L, W>::fired(
            after_sets::<TickleLatch<'a, L, W>>(TickleLatch::<'a, L, W>::wrapping(inner), n),
        ) == L::fired(after_sets::<L>(inner, n)),
{
    law_tickle_sets_then_wakes::<L, W>(TickleLatch::<'a, L, W>::wrapping(inner), n);
}

} // verus!
