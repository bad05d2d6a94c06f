//! Resetting the state of a sandbox between guest calls.
use crate::error::HyperlightError;
use crate::mem::mgr::SandboxMemoryManager;
use crate::mem::shared_mem::{spec_bounds, spec_write};
use crate::sandbox::guest_mgr::GuestMgr;
use crate::sandbox_state::sandbox::Sandbox;
use vstd::prelude::*;

verus! {

/// A sandbox whose state can be reset between guest calls.
pub trait RestoreSandbox: GuestMgr + Sandbox {
    /// Whether the sandbox may run more than one guest call.
    spec fn reusable(&self) -> bool;

    /// Whether the sandbox may run more than one guest call.
    fn is_reusable(&self) -> (r: bool)
        ensures
            r == self.reusable(),
    ;

    /// The memory manager, to change it. What is done through it changes
    /// neither the number of runs nor whether a state reset is needed.
    fn get_mem_mgr_mut(&mut self) -> (r: &mut SandboxMemoryManager)
        ensures
            *r == *old(self).mem_mgr(),
            *final(self).mem_mgr() == *final(r),
            final(self).runs() == old(self).runs(),
            final(self).state_reset_needed() == old(self).state_reset_needed(),
    ;

    /// Set the stack pointer of the sandbox's virtual CPU back to the one
    /// with which the guest started. Memory, the number of runs and whether
    /// a state reset is needed stay.
    fn reset_stack_pointer(&mut self) -> (r: Result<(), HyperlightError>)
        ensures
            *final(self).mem_mgr() == *old(self).mem_mgr(),
            final(self).runs() == old(self).runs(),
            final(self).state_reset_needed() == old(self).state_reset_needed(),
    ;

    /// Restore the sandbox's state where it needs a reset: memory from its
    /// snapshot, and, in a VM, the stack pointer; then no reset is needed
    /// any more. Where no reset is needed, nothing changes.
    fn restore_state(&mut self) -> (r: Result<(), HyperlightError>)
        ensures
            final(self).runs() == old(self).runs(),
            !old(self).state_reset_needed() ==> r is Ok && *final(self).mem_mgr()
                == *old(self).mem_mgr() && !final(self).state_reset_needed(),
            old(self).state_reset_needed() && old(self).mem_mgr().snapshot() is None ==> r
                == Err::<(), HyperlightError>(HyperlightError::NoMemorySnapshot),
            old(self).state_reset_needed() && r is Ok ==> {
                &&& !final(self).state_reset_needed()
                &&& old(self).mem_mgr().snapshot() matches Some(s)
                    && final(self).mem_mgr().mem_spec()@ == spec_write(
                    old(self).mem_mgr().mem_spec()@,
                    0,
                    s,
                )
                &&& final(self).mem_mgr().snapshot() == old(self).mem_mgr().snapshot()
                &&& final(self).mem_mgr().layout_spec() == old(self).mem_mgr().layout_spec()
            },
            old(self).state_reset_needed() && old(self).mem_mgr().snapshot() is Some && !old(
                self,
            ).mem_mgr().snapshot_fits() ==> r == spec_bounds(
                0,
                old(self).mem_mgr().snapshot()->Some_0.len() as int,
                old(self).mem_mgr().mem_spec()@.len() as int,
            ) && final(self).state_reset_needed(),
            old(self).state_reset_needed() && old(self).mem_mgr().spec_in_process()
                && old(self).mem_mgr().snapshot_fits() ==> r is Ok,
            old(self).state_reset_needed() && old(self).mem_mgr().snapshot_fits() && r is Err ==> {
                &&& final(self).state_reset_needed()
                &&& final(self).mem_mgr().mem_spec()@ == spec_write(
                    old(self).mem_mgr().mem_spec()@,
                    0,
                    old(self).mem_mgr().snapshot()->Some_0,
                )
                &&& final(self).mem_mgr().snapshot() == old(self).mem_mgr().snapshot()
            },
    {
        if self.needs_state_reset() {
            let in_process = {
                let mem_mgr = self.get_mem_mgr_mut();
                mem_mgr.restore_state()?;
                mem_mgr.is_in_process()
            };
            if !in_process {
                self.reset_stack_pointer()?;
            }
            self.set_needs_state_reset(false);
        }
        Ok(())
    }

    /// Reset the sandbox's state before a guest call: a sandbox that is not
    /// reusable may run only one call; a reusable one is restored first.
    /// Then the number of runs grows by one.
    fn reset_state(&mut self) -> (r: Result<(), HyperlightError>)
        requires
            old(self).runs() < i32::MAX,
        ensures
            old(self).runs() > 0 && !old(self).reusable() ==> r == Err::<(), HyperlightError>(
                HyperlightError::SandboxNotReusable,
            ) && final(self).runs() == old(self).runs(),
            old(self).runs() <= 0 && !old(self).reusable() ==> r is Ok,
            r is Ok ==> final(self).runs() == old(self).runs() + 1,
            r is Err ==> final(self).runs() == old(self).runs(),
            old(self).reusable() && (!old(self).state_reset_needed() || old(
                self,
            ).mem_mgr().spec_in_process() && old(self).mem_mgr().snapshot_fits()) ==> r is Ok,
    {
        if self.get_num_runs() > 0 && !self.is_reusable() {
            return Err(HyperlightError::SandboxNotReusable);
        }
        if self.is_reusable() {
            self.restore_state()?;
        }
        self.increase_num_runs();
        Ok(())
    }
}

} // verus!
