//! The two capabilities that every latch offers, and their forwarding through
//! a shared reference.
//!
//! # What the contracts say
//!
//! A latch is shared between threads, so its operations take `&self`, and to
//! the verifier what stands behind a shared reference never changes. No
//! contract of such an operation can speak of a state before it and a state
//! after it. The contracts of the latches say two other things.
//!
//! They say which operation a function performs on the atomic or the mutex
//! of its latch, with which arguments, and what it makes of the answer. This
//! is written `call_ensures(f, args, r)`: `r` is what a call of `f` with
//! `args` has returned. The verifier accepts such a clause only from a body
//! that makes that call.
//!
//! And they say what those operations do to the latch, over a model. The
//! operations on one latch take place one after another, in the single order
//! that sequentially consistent atomics or a mutex give them. `State` is
//! what the latch holds between two of them; the specification functions of
//! the traits, and those beside each kind of latch, say what each operation
//! makes of it. The laws of each kind are proved of that model.
use vstd::prelude::*;

verus! {

/// The read-only half of a latch: has it fired?
pub trait LatchProbe {
    /// What a latch of this kind holds between two of its operations.
    type State;

    /// Whether a latch that holds `state` has fired.
    spec fn fired(state: Self::State) -> bool;

    /// Tests whether the latch has fired. Reads the state and changes
    /// nothing; any thread may call it any number of times.
    fn probe(&self) -> (fired: bool);
}

/// A latch: a probe that can also be set.
pub trait Latch: LatchProbe {
    /// What one `set` makes of `state`.
    spec fn after_set(state: Self::State) -> Self::State;

    /// Commits the latch towards the fired state. It is never undone.
    fn set(&self);
}

/// What `n` calls of `set`, one after another, make of `state`.
pub open spec fn after_sets<L: Latch>(state: L::State, n: nat) -> L::State
    decreases n,
{
    if n == 0 {
        state
    } else {
        L::after_set(after_sets::<L>(state, (n - 1) as nat))
    }
}

impl<'a, L: LatchProbe> LatchProbe for &'a L {
    type State = L::State;

    open spec fn fired(state: L::State) -> bool {
        L::fired(state)
    }

    /// Hands the call on to the latch behind the reference: what comes back
    /// is an answer of that latch's own `probe`.
    fn probe(&self) -> (fired: bool)
        ensures
            call_ensures(L::probe, (*self,), fired),
    {
        L::probe(self)
    }
}

impl<'a, L: Latch> Latch for &'a L {
    open spec fn after_set(state: L::State) -> L::State {
        L::after_set(state)
    }

    /// Hands the call on to the latch behind the reference: what that
    /// latch's own `set` promises holds afterwards.
    fn set(&self)
        ensures
            call_ensures(L::set, (*self,), ()),
    {
        L::set(self);
    }
}

/// A reference to a latch is a latch of the same kind: it has the states of
/// the latch behind it, has fired in exactly the same states, and a `set`
/// through it makes of each state what a `set` on the latch itself makes of
/// it, however many times it is called.
pub proof fn law_reference_forwards<L: Latch>(state: L::State, n: nat)
    ensures
        <&L as LatchProbe>::fired(state) == L::fired(state),
        <&L as Latch>::after_set(state) == L::after_set(state),
        after_sets::<&L>(state, n) == after_sets::<L>(state, n),
    decreases n,
{
    if n > 0 {
        law_reference_forwards::<L>(state, (n - 1) as nat);
    }
}

} // verus!
