//! What the guest asks of the host when it writes to an I/O port.
use vstd::prelude::*;

verus! {

/// The port on which the guest sends log records.
pub const OUTB_LOG_PORT: u16 = 99;
/// The port on which the guest calls a host function.
pub const OUTB_CALL_FUNCTION_PORT: u16 = 101;
/// The port on which the guest aborts.
pub const OUTB_ABORT_PORT: u16 = 102;

/// What the guest asks of the host with an outb instruction.
#[derive(Debug, Clone, Copy, PartialEq, Eq)]
pub enum OutBAction {
    /// Log the record that the guest left in the output data buffer.
    Log,
    /// Call the host function whose call the guest left in the output data
    /// buffer.
    CallFunction,
    /// Abort.
    Abort,
}

impl OutBAction {
    /// The action of a write to `port`: ports other than those of a call and
    /// an abort log.
    pub fn from_port(port: u16) -> (r: Self)
        ensures
            port == OUTB_CALL_FUNCTION_PORT ==> r == OutBAction::CallFunction,
            port == OUTB_ABORT_PORT ==> r == OutBAction::Abort,
            port != OUTB_CALL_FUNCTION_PORT && port != OUTB_ABORT_PORT ==> r == OutBAction::Log,
    {
        match port {
            OUTB_LOG_PORT => OutBAction::Log,
            OUTB_CALL_FUNCTION_PORT => OutBAction::CallFunction,
            OUTB_ABORT_PORT => OutBAction::Abort,
            _ => OutBAction::Log,
        }
    }
}

} // verus!
