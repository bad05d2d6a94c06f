//! How a sandbox runs its guest: in a hypervisor, or in process.
use vstd::prelude::*;

verus! {

/// Configuration options for setting up a new uninitialized sandbox and the
/// initialized sandboxes that come from it.
///
/// A `SandboxRunOptions` instance is either in-process or in-hypervisor
/// execution mode.
#[derive(Debug, Clone, Default, Eq, PartialEq)]
pub enum SandboxRunOptions {
    /// Run directly in a platform-appropriate hypervisor.
    #[default]
    RunInHypervisor,
    /// Run in-process, without a hypervisor, using the Windows LoadLibrary
    /// API to load the binary if the `bool` field is `true`. This offers no
    /// security guarantees and is meant for testing and debugging.
    RunInProcess(bool),
}

impl SandboxRunOptions {
    /// Returns true if the sandbox should be run in-process using the
    /// LoadLibrary API.
    pub fn use_loadlib(&self) -> (r: bool)
        ensures
            r == (*self == SandboxRunOptions::RunInProcess(true)),
    {
        match self {
            SandboxRunOptions::RunInProcess(true) => true,
            _ => false,
        }
    }

    /// Returns true if the sandbox should be run in-process.
    pub fn in_process(&self) -> (r: bool)
        ensures
            r == (*self is RunInProcess),
    {
        match self {
            SandboxRunOptions::RunInProcess(_) => true,
            _ => false,
        }
    }
}

} // verus!
