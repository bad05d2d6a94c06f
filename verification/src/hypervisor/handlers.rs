//! The handlers that the host gives a virtual CPU for what the guest does.
use crate::error::HyperlightError;
use vstd::prelude::*;

verus! {

/// The trait representing custom logic to handle the case when a
/// hypervisor's virtual CPU (vCPU) informs Hyperlight the guest has
/// initiated an outb operation.
pub trait OutBHandlerCaller: Sync + Send {
    /// Function that gets called when an outb operation has occurred.
    fn call(&mut self, port: u16, payload: u64) -> Result<(), HyperlightError>;
}

/// The trait representing custom logic to handle the case when a
/// hypervisor's virtual CPU (vCPU) informs Hyperlight a memory access
/// outside the designated address space has occurred.
pub trait MemAccessHandlerCaller: Send {
    /// Function that gets called when unexpected memory access has occurred.
    fn call(&mut self) -> Result<(), HyperlightError>;
}

} // verus!
