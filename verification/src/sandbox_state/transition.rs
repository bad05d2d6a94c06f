//! The metadata that a transition between sandbox states takes.
use crate::sandbox_state::sandbox::Sandbox;
use core::marker::PhantomData;
use vstd::prelude::*;

verus! {

/// Metadata about an evolution or devolution: implementing it for a pair
/// of states says that the transition is possible and what it needs.
pub trait TransitionMetadata<Cur: Sandbox, Next: Sandbox> {

}

/// Transition metadata that contains and does nothing, for a transition
/// that needs no metadata. Construct one with `default()`.
pub struct Noop<Cur: Sandbox, Next: Sandbox> {
    cur_ph: PhantomData<Cur>,
    next_ph: PhantomData<Next>,
}

impl<Cur: Sandbox, Next: Sandbox> Default for Noop<Cur, Next> {
    fn default() -> (r: Self) {
        Self { cur_ph: PhantomData, next_ph: PhantomData }
    }
}

impl<Cur: Sandbox, Next: Sandbox> TransitionMetadata<Cur, Next> for Noop<Cur, Next> {

}

} // verus!
