//! The minimal functionality of a sandbox, and its transitions.
use crate::error::HyperlightError;
use crate::sandbox_state::transition::TransitionMetadata;
use vstd::prelude::*;

verus! {

/// The minimal functionality of a Hyperlight sandbox.
///
/// Sandboxes are ordered in a state machine: a sandbox may know how to
/// "evolve" into a next state, which in turn may know how to roll back to
/// the one before. These transitions are expressed as `EvolvableSandbox` and
/// `DevolvableSandbox` implementations.
pub trait Sandbox: Sized + core::fmt::Debug {
    /// Check that the current stack cookie matches the one that was selected
    /// when the stack was constructed: `Err` where the stack could not be
    /// inspected, `Ok(false)` where the guard does not match, `Ok(true)`
    /// where it does.
    fn check_stack_guard(&self) -> Result<bool, HyperlightError>;
}

/// A sandbox that can evolve from `Cur` into `Next` with metadata `T`.
pub trait EvolvableSandbox<Cur: Sandbox, Next: Sandbox, T: TransitionMetadata<Cur, Next>>:
    Sandbox {
    /// Evolve `self` into the next state.
    fn evolve(self, tsn: T) -> Result<Next, HyperlightError>;
}

/// A sandbox that can devolve from `Cur` back into `Prev` with metadata `T`.
pub trait DevolvableSandbox<Cur: Sandbox, Prev: Sandbox, T: TransitionMetadata<Cur, Prev>>:
    Sandbox {
    /// Devolve `self` into the previous state.
    fn devolve(self, tsn: T) -> Result<Prev, HyperlightError>;
}

} // verus!
