//! Sandboxes: their options, the hypervisor they run on, and the state they
//! keep between calls into the guest.
pub mod guest_call_exec;
pub mod guest_mgr;
pub mod mem_mgr;
pub mod hypervisor;
pub mod outb;
pub mod run_options;
pub mod snapshot;
pub mod uninitialized;
