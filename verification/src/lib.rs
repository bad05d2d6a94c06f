//! Memory layout, guest memory, pointer arithmetic and sandbox-state logic
//! for running specially compiled guest binaries inside a lightweight
//! hypervisor partition.
use vstd::prelude::*;

pub mod error;
pub mod hypervisor;
pub mod mem;
mod random;
pub mod seccomp;
pub mod sandbox;
pub mod sandbox_state;

verus! {

/// Return `Some(val)` when `cond == true`. Otherwise, return `None`.
pub fn option_when<T>(val: T, cond: bool) -> (r: Option<T>)
    ensures
        r == (if cond { Some(val) } else { None::<T> }),
{
    match cond {
        true => Some(val),
        false => None,
    }
}

} // verus!
