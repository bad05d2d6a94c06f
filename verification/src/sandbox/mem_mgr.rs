//! A sandbox's memory manager together with the stack cookie it guards the
//! stack with.
use crate::error::HyperlightError;
use crate::mem::layout::{
    is_layout_write_error, layout_write_fits, layout_written, SandboxMemoryLayout,
};
use crate::mem::mgr::{SandboxMemoryManager, STACK_COOKIE_LEN};
use vstd::prelude::*;

verus! {

/// The cookie written at the top of a sandbox's stack.
pub type StackCookie = [u8; STACK_COOKIE_LEN];

/// A sandbox that has a memory manager.
pub trait MemMgr {
    /// The memory manager of the sandbox.
    spec fn mem_mgr(&self) -> &SandboxMemoryManager;
}

/// Access to the memory manager wrapper of a sandbox.
pub trait MemMgrWrapperGetter {
    /// The memory manager wrapper.
    fn get_mem_mgr_wrapper(&self) -> &MemMgrWrapper;

    /// The memory manager wrapper, to change it.
    fn get_mem_mgr_wrapper_mut(&mut self) -> &mut MemMgrWrapper;
}

/// A memory manager and the stack cookie of its sandbox.
pub struct MemMgrWrapper {
    mgr: SandboxMemoryManager,
    cookie: StackCookie,
}

impl MemMgrWrapper {
    /// The memory manager.
    pub closed spec fn mgr_spec(&self) -> SandboxMemoryManager {
        self.mgr
    }

    /// The stack cookie.
    pub closed spec fn cookie_spec(&self) -> Seq<u8> {
        self.cookie@
    }

    /// Wrap `mgr` together with the cookie written at the top of its stack.
    pub fn new(mgr: SandboxMemoryManager, stack_cookie: StackCookie) -> (r: Self)
        ensures
            r.mgr_spec() == mgr,
            r.cookie_spec() == stack_cookie@,
    {
        Self { mgr, cookie: stack_cookie }
    }

    /// The stack cookie.
    pub fn get_stack_cookie(&self) -> (r: &StackCookie)
        ensures
            r@ == self.cookie_spec(),
    {
        &self.cookie
    }

    /// The memory manager.
    pub fn as_ref(&self) -> (r: &SandboxMemoryManager)
        ensures
            *r == self.mgr_spec(),
    {
        &self.mgr
    }

    /// The memory manager, to change it.
    pub fn as_mut(&mut self) -> (r: &mut SandboxMemoryManager)
        ensures
            *r == old(self).mgr_spec(),
            final(self).mgr_spec() == *final(r),
            final(self).cookie_spec() == old(self).cookie_spec(),
    {
        &mut self.mgr
    }

    /// Check the stack guard against the stored cookie: `Ok(true)` if the
    /// cookie at the top of the stack is intact, `Ok(false)` if not, and
    /// `Err` where it cannot be read.
    pub fn check_stack_guard(&self) -> (r: Result<bool, HyperlightError>)
        ensures
            ({
                let off = self.mgr_spec().layout_spec()@.guest_stack_buffer_offset as int;
                let m = self.mgr_spec().mem_spec()@;
                &&& off > usize::MAX ==> r == Err::<bool, HyperlightError>(
                    HyperlightError::ArithmeticOverflow,
                )
                &&& off + STACK_COOKIE_LEN <= m.len() ==> r == Ok::<bool, HyperlightError>(
                    m.subrange(off, off + STACK_COOKIE_LEN) == self.cookie_spec(),
                )
                &&& off <= usize::MAX && off + STACK_COOKIE_LEN > m.len() ==> r == Err::<
                    bool,
                    HyperlightError,
                >(
                    HyperlightError::BoundsCheckFailed(off as usize, STACK_COOKIE_LEN, m.len() as usize),
                )
            }),
    {
        self.mgr.check_stack_guard(self.cookie)
    }

    /// Write the layout of the sandbox's memory into the memory itself: its
    /// guest addresses start at the memory's host address when the sandbox
    /// runs in process, and at the base address of a VM otherwise.
    pub fn write_memory_layout(&mut self, run_from_process_memory: bool) -> (r: Result<
        (),
        HyperlightError,
    >)
        requires
            ({
                let l = old(self).mgr_spec().layout_spec()@;
                let size = old(self).mgr_spec().mem_spec()@.len();
                let guest_offset = if run_from_process_memory {
                    old(self).mgr_spec().mem_spec().spec_base_addr() as int
                } else {
                    SandboxMemoryLayout::BASE_ADDRESS as int
                };
                &&& size >= l.stack_size
                &&& guest_offset + (size - l.stack_size) <= usize::MAX
                &&& guest_offset + l.guest_stack_buffer_offset <= u64::MAX
            }),
        ensures
            ({
                let l = old(self).mgr_spec().layout_spec()@;
                let m0 = old(self).mgr_spec().mem_spec()@;
                let guest_offset = if run_from_process_memory {
                    old(self).mgr_spec().mem_spec().spec_base_addr() as int
                } else {
                    SandboxMemoryLayout::BASE_ADDRESS as int
                };
                &&& layout_write_fits(l, guest_offset, m0.len() as int) ==> (r is Ok || r
                    == Err::<(), HyperlightError>(HyperlightError::RandomSourceFailed))
                &&& !layout_write_fits(l, guest_offset, m0.len() as int) ==> r is Err
                &&& r matches Err(e) ==> (e == HyperlightError::RandomSourceFailed
                    || is_layout_write_error(e))
                &&& r is Ok ==> layout_write_fits(l, guest_offset, m0.len() as int)
                &&& r is Ok ==> layout_written(
                    m0,
                    final(self).mgr_spec().mem_spec()@,
                    l,
                    guest_offset,
                    m0.len() as int,
                )
            }),
            final(self).mgr_spec().mem_spec()@.len() == old(self).mgr_spec().mem_spec()@.len(),
            final(self).mgr_spec().layout_spec() == old(self).mgr_spec().layout_spec(),
            final(self).mgr_spec().mem_spec().spec_base_addr() == old(
                self,
            ).mgr_spec().mem_spec().spec_base_addr(),
            final(self).mgr_spec().snapshot() == old(self).mgr_spec().snapshot(),
            final(self).mgr_spec().spec_in_process() == old(self).mgr_spec().spec_in_process(),
            final(self).mgr_spec().load_addr_spec() == old(self).mgr_spec().load_addr_spec(),
            final(self).mgr_spec().entrypoint_offset_spec() == old(
                self,
            ).mgr_spec().entrypoint_offset_spec(),
            final(self).cookie_spec() == old(self).cookie_spec(),
    {
        let layout = self.mgr.get_layout();
        let shared_mem = self.mgr.get_shared_mem_mut();
        let mem_size = shared_mem.mem_size();
        let guest_offset = if run_from_process_memory {
            shared_mem.base_addr()
        } else {
            SandboxMemoryLayout::BASE_ADDRESS
        };
        layout.write(shared_mem, guest_offset, mem_size)
    }
}

/// What the host does when the guest accessed memory that it may not: where
/// the stack guard was overwritten, the guest's stack overflowed.
pub fn handle_mem_access_impl(wrapper: &MemMgrWrapper) -> (r: Result<(), HyperlightError>)
    ensures
        ({
            let off = wrapper.mgr_spec().layout_spec()@.guest_stack_buffer_offset as int;
            let m = wrapper.mgr_spec().mem_spec()@;
            &&& off + STACK_COOKIE_LEN <= m.len() ==> (r is Ok <==> m.subrange(
                off,
                off + STACK_COOKIE_LEN,
            ) == wrapper.cookie_spec())
            &&& off + STACK_COOKIE_LEN <= m.len() && r is Err ==> r == Err::<(), HyperlightError>(
                HyperlightError::StackOverflow,
            )
            &&& off > usize::MAX ==> r == Err::<(), HyperlightError>(
                HyperlightError::ArithmeticOverflow,
            )
            &&& off <= usize::MAX && off + STACK_COOKIE_LEN > m.len() ==> r == Err::<
                (),
                HyperlightError,
            >(HyperlightError::BoundsCheckFailed(off as usize, STACK_COOKIE_LEN, m.len() as usize))
        }),
{
    if !wrapper.check_stack_guard()? {
        return Err(HyperlightError::StackOverflow);
    }
    Ok(())
}

} // verus!
