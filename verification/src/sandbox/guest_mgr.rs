//! The bookkeeping of guest calls that a sandbox keeps.
use crate::sandbox::mem_mgr::MemMgr;
use std::sync::atomic::AtomicI32;
use vstd::prelude::*;

verus! {

/// Whether a sandbox whose executing-call flag holds `flag` may have its
/// state reset for a new guest call: not while a guest function runs in the
/// host (the flag is 1); otherwise it may, also where a call is already in
/// progress.
pub fn may_enter(flag: i32) -> (r: bool)
    ensures
        r == (flag != 1),
{
    flag != 1
}

/// The bookkeeping of guest calls: the flag that says whether a guest call
/// runs, the number of runs, and whether the state needs a reset. Keeping it
/// leaves the sandbox's memory manager alone.
pub trait GuestMgr: MemMgr {
    /// The number of times guest functions have been called.
    spec fn runs(&self) -> i32;

    /// Whether the sandbox's state needs a reset.
    spec fn state_reset_needed(&self) -> bool;

    /// Get an immutable reference to the internally-stored
    /// `executing_guest_call` flag.
    fn get_executing_guest_call(&self) -> &AtomicI32;

    /// Get a mutable reference to the internally-stored
    /// `executing_guest_call` flag.
    /// What is done through the reference changes neither the number of
    /// runs, nor whether a state reset is needed, nor the memory manager.
    fn get_executing_guest_call_mut(&mut self) -> (r: &mut AtomicI32)
        ensures
            final(self).runs() == old(self).runs(),
            final(self).state_reset_needed() == old(self).state_reset_needed(),
            *final(self).mem_mgr() == *old(self).mem_mgr(),
    ;

    /// Increase the number of times guest funcs have been called.
    fn increase_num_runs(&mut self)
        requires
            old(self).runs() < i32::MAX,
        ensures
            final(self).runs() == old(self).runs() + 1,
            final(self).state_reset_needed() == old(self).state_reset_needed(),
            *final(self).mem_mgr() == *old(self).mem_mgr(),
    ;

    /// Get the number of times guest funcs have been called.
    fn get_num_runs(&self) -> (r: i32)
        ensures
            r == self.runs(),
    ;

    /// Checks if the sandbox needs state resetting.
    fn needs_state_reset(&self) -> (r: bool)
        ensures
            r == self.state_reset_needed(),
    ;

    /// Sets the sandbox's `needs_state_reset` property to provided value.
    fn set_needs_state_reset(&mut self, val: bool)
        ensures
            final(self).state_reset_needed() == val,
            final(self).runs() == old(self).runs(),
            *final(self).mem_mgr() == *old(self).mem_mgr(),
    ;

    /// Whether the sandbox's state may be reset for a new guest call, as
    /// `may_enter` decides on the flag's value at the moment it is read.
    /// Where it may, the flag moves from 0 to 2, marking a call in progress;
    /// where it is neither 0 nor 1, a call is already in progress and it
    /// stays as it is. Other threads may change the flag, so the value read,
    /// and with it the result, is not stated.
    fn enter_dynamic_method(&mut self) -> (r: bool)
        ensures
            final(self).runs() == old(self).runs(),
            final(self).state_reset_needed() == old(self).state_reset_needed(),
    {
        let executing_guest_function = self.get_executing_guest_call_mut();
        let flag = executing_guest_function.load(std::sync::atomic::Ordering::SeqCst);
        if !may_enter(flag) {
            return false;
        }
        let _previous = executing_guest_function.compare_exchange(
            0,
            2,
            std::sync::atomic::Ordering::SeqCst,
            std::sync::atomic::Ordering::SeqCst,
        );
        true
    }

    /// Mark that a guest function has finished executing: where
    /// `should_release`, clear the flag and ask for a state reset.
    fn exit_dynamic_method(&mut self, should_release: bool)
        ensures
            should_release ==> final(self).state_reset_needed(),
            final(self).runs() == old(self).runs(),
            !should_release ==> final(self).state_reset_needed() == old(self).state_reset_needed(),
    {
        if should_release {
            self.get_executing_guest_call_mut().store(0, std::sync::atomic::Ordering::SeqCst);
            self.set_needs_state_reset(true);
        }
    }
}

} // verus!
