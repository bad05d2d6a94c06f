//! Whether a sandbox is executing a guest call.
use crate::error::HyperlightError;
use std::sync::atomic::AtomicI32;
use std::sync::Arc;
use vstd::prelude::*;

verus! {

/// A container to atomically keep track of whether a sandbox is currently
/// executing a guest call, to prevent concurrent execution of guest calls.
///
/// 0 = not executing a guest call,
/// 1 = executing `execute_in_host`,
/// 2 = executing a `call_guest_function_by_name`.
///
/// Its clones share the value, which other threads may change at any time,
/// so what a load gives back cannot be stated.
#[derive(Clone, Debug)]
pub struct ExecutingGuestCall(Arc<AtomicI32>);

/// Calls `AtomicI32::compare_exchange` with sequentially consistent
/// ordering. As std documents, a success hands back the previous value, which
/// then equals `current`; whether it succeeds depends on what the atomic holds
/// at that moment, which other threads may change, and is left unsaid.
#[verifier::external_body]
fn atomic_compare_exchange(atomic: &AtomicI32, current: i32, new: i32) -> (r: Result<i32, i32>)
    ensures
        r matches Ok(v) ==> v == current,
{
    atomic.compare_exchange(
        current,
        new,
        std::sync::atomic::Ordering::SeqCst,
        std::sync::atomic::Ordering::SeqCst,
    )
}

impl ExecutingGuestCall {
    /// Create a new `ExecutingGuestCall` with the provided value.
    pub fn new(val: i32) -> (r: Self) {
        Self(Arc::new(AtomicI32::new(val)))
    }

    /// Load the value of the `ExecutingGuestCall`.
    pub fn load(&self) -> (r: i32) {
        self.0.load(std::sync::atomic::Ordering::SeqCst)
    }

    /// Store a value in the `ExecutingGuestCall`.
    pub fn store(&self, val: i32) {
        self.0.store(val, std::sync::atomic::Ordering::SeqCst);
    }

    /// Compare and exchange the value of the `ExecutingGuestCall`: where it
    /// is `current`, replace it with `new` and return the previous value,
    /// which is then `current`; otherwise fail. What it holds at that moment,
    /// which other threads may change, decides which.
    pub fn compare_exchange(&self, current: i32, new: i32) -> (r: Result<i32, HyperlightError>)
        ensures
            r matches Ok(v) ==> v == current,
            r matches Err(e) ==> e == HyperlightError::CompareExchangeFailed,
    {
        match atomic_compare_exchange(&self.0, current, new) {
            Ok(v) => Ok(v),
            Err(_) => Err(HyperlightError::CompareExchangeFailed),
        }
    }
}

} // verus!
