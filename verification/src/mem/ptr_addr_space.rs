//! The address spaces in which a pointer can lie: the guest's and the host's.
use crate::error::HyperlightError;
use crate::mem::layout::SandboxMemoryLayout;
use crate::mem::ptr_offset::usize_to_u64;
use crate::mem::shared_mem::SharedMemory;
use vstd::prelude::*;

verus! {

/// A representation of a specific address space.
pub trait AddressSpace: core::cmp::Eq + Sized {
    /// The base address of this address space.
    spec fn spec_base(&self) -> u64;

    /// The base address for this address space.
    fn base(&self) -> (r: u64)
        ensures
            r == self.spec_base(),
    ;
}

/// The address space for the guest executable.
#[derive(Debug, Clone, Copy, Eq, PartialEq)]
pub struct GuestAddressSpace(u64);

impl GuestAddressSpace {
    /// Create a new instance of a `GuestAddressSpace`, whose base address is
    /// that of a sandbox's guest memory.
    pub fn new() -> (r: Result<Self, HyperlightError>)
        ensures
            r matches Ok(s) && s.spec_base() == SandboxMemoryLayout::BASE_ADDRESS,
    {
        let base_addr = usize_to_u64(SandboxMemoryLayout::BASE_ADDRESS);
        Ok(Self(base_addr))
    }
}

impl AddressSpace for GuestAddressSpace {
    closed spec fn spec_base(&self) -> u64 {
        self.0
    }

    fn base(&self) -> (r: u64) {
        self.0
    }
}

/// The address space for the host executable.
#[derive(Debug, Clone, Eq, PartialEq)]
pub struct HostAddressSpace(u64);

impl HostAddressSpace {
    /// Create a new instance of a `HostAddressSpace`, using the given
    /// `SharedMemory` as the base address.
    pub fn new(shared_mem: &SharedMemory) -> (r: Result<Self, HyperlightError>)
        ensures
            r matches Ok(s) && s.spec_base() == shared_mem.spec_base_addr(),
    {
        let base = usize_to_u64(shared_mem.base_addr());
        Ok(Self(base))
    }
}

impl AddressSpace for HostAddressSpace {
    closed spec fn spec_base(&self) -> u64 {
        self.0
    }

    fn base(&self) -> (r: u64) {
        self.0
    }
}

} // verus!
