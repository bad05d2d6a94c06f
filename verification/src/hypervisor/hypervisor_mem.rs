//! The addresses that a hypervisor driver is created with.
use crate::error::HyperlightError;
use crate::mem::ptr_offset::usize_to_u64;
use crate::mem::shared_mem::SharedMemory;
use vstd::prelude::*;

verus! {

/// The list of addresses that are required to create a new hypervisor driver.
#[derive(Default, Debug)]
pub struct HypervisorAddrs {
    /// The location of the first line of code in guest memory: the initial
    /// instruction pointer.
    pub entrypoint: u64,
    /// The number of page frames that should exist. One frame is 4 KiB.
    pub guest_pfn: u64,
    /// The location of the start of memory on the host.
    pub host_addr: u64,
    /// Total size of the memory that starts at `host_addr`.
    pub mem_size: u64,
}

impl HypervisorAddrs {
    /// Create a new instance of `HypervisorAddrs` given a `SharedMemory` and
    /// additional metadata: the host address is the base of `shared_mem`.
    pub fn for_shared_mem(
        shared_mem: &SharedMemory,
        region_mem_size: u64,
        entrypoint: u64,
        guest_pfn: u64,
    ) -> (r: Result<Self, HyperlightError>)
        ensures
            r matches Ok(a) && a.entrypoint == entrypoint && a.guest_pfn == guest_pfn && a.host_addr
                == shared_mem.spec_base_addr() && a.mem_size == region_mem_size,
    {
        Ok(Self {
            entrypoint,
            guest_pfn,
            host_addr: usize_to_u64(shared_mem.base_addr()),
            mem_size: region_mem_size,
        })
    }
}

/// The list of addresses that are required to create a new driver for the
/// Microsoft hypervisor on Linux.
#[derive(Default, Debug)]
pub struct HypervLinuxDriverAddrs {
    /// The location of the first line of code in guest memory: the initial
    /// instruction pointer.
    pub entrypoint: u64,
    /// The number of page frames that should exist. One frame is 4 KiB.
    pub guest_pfn: u64,
    /// The location of the start of memory on the host.
    pub host_addr: u64,
    /// Total size of the memory that starts at `host_addr`.
    pub mem_size: u64,
}

impl HypervLinuxDriverAddrs {
    /// Create a new instance of `HypervLinuxDriverAddrs` given a
    /// `SharedMemory` and additional metadata: the host address is the base
    /// of `shared_mem`.
    pub fn for_shared_mem(
        shared_mem: &SharedMemory,
        region_mem_size: u64,
        entrypoint: u64,
        guest_pfn: u64,
    ) -> (r: Result<Self, HyperlightError>)
        ensures
            r matches Ok(a) && a.entrypoint == entrypoint && a.guest_pfn == guest_pfn && a.host_addr
                == shared_mem.spec_base_addr() && a.mem_size == region_mem_size,
    {
        Ok(Self {
            entrypoint,
            guest_pfn,
            host_addr: usize_to_u64(shared_mem.base_addr()),
            mem_size: region_mem_size,
        })
    }
}

} // verus!
