//! Which hypervisor a sandbox runs on, and what creating its partition
//! takes.
use crate::error::HyperlightError;
use crate::hypervisor::hypervisor_mem::HypervisorAddrs;
use crate::hypervisor::{hyperv_linux, kvm};
use crate::mem::layout::SandboxMemoryLayout;
use crate::mem::mgr::SandboxMemoryManager;
use crate::mem::ptr::GuestPtr;
use crate::mem::ptr_offset::{usize_to_u64, Offset};
use vstd::prelude::*;

verus! {

/// The hypervisor types available for the current platform.
#[derive(PartialEq, Eq, Debug, Clone, Copy)]
pub enum HypervisorType {
    /// KVM.
    Kvm,
    /// The Microsoft hypervisor on Linux.
    Mshv,
}

/// The hypervisor to use where the Microsoft hypervisor is present or not,
/// and KVM is or not: the Microsoft one first, as both cannot be on one
/// machine.
pub fn choose_hypervisor(mshv_present: bool, kvm_present: bool) -> (r: Option<HypervisorType>)
    ensures
        mshv_present ==> r == Some(HypervisorType::Mshv),
        !mshv_present && kvm_present ==> r == Some(HypervisorType::Kvm),
        !mshv_present && !kvm_present ==> r is None,
{
    if mshv_present {
        Some(HypervisorType::Mshv)
    } else if kvm_present {
        Some(HypervisorType::Kvm)
    } else {
        None
    }
}

/// The hypervisor available on this machine, if any. KVM is probed only
/// where the Microsoft hypervisor is absent.
pub fn get_available_hypervisor() -> (r: Option<HypervisorType>) {
    let mshv_present = hyperv_linux::is_hypervisor_present();
    let kvm_present = if mshv_present {
        false
    } else {
        kvm::is_hypervisor_present()
    };
    choose_hypervisor(mshv_present, kvm_present)
}

/// Whether a suitable hypervisor is present: the Microsoft hypervisor or
/// KVM.
pub fn is_hypervisor_present() -> (r: bool) {
    hyperv_linux::is_hypervisor_present() || kvm::is_hypervisor_present()
}

/// What creating the partition of a sandbox takes on the chosen hypervisor.
#[derive(Debug)]
pub enum HypervisorPlan {
    /// Create a partition of the Microsoft hypervisor with these addresses,
    /// the CPU starting with the stack pointer that follows.
    Mshv(HypervisorAddrs, u64),
    /// Create a KVM partition with memory at `host_addr` of `mem_size`
    /// bytes, the PML4 at `pml4_addr`, and the CPU starting at `entrypoint`
    /// with stack pointer `rsp`.
    Kvm { host_addr: u64, pml4_addr: u64, mem_size: u64, entrypoint: u64, rsp: u64 },
}

/// The guest address at which a binary loaded at `load_addr` with entry
/// point offset `entry` starts, or `None` where it does not fit in a `u64`.
pub open spec fn guest_entrypoint(load_addr: u64, entry: u64) -> Option<u64> {
    if load_addr + entry <= u64::MAX {
        Some((load_addr + entry) as u64)
    } else {
        None
    }
}

/// Set up the page tables of the sandbox's memory and work out what
/// creating its partition takes on the hypervisor that is present: the
/// Microsoft hypervisor where `mshv_present`, else KVM where `kvm_present`.
pub fn plan_hypervisor_partition(
    mgr: &mut SandboxMemoryManager,
    mshv_present: bool,
    kvm_present: bool,
) -> (r: Result<HypervisorPlan, HyperlightError>)
    requires
        old(mgr).mem_spec()@.len() + SandboxMemoryLayout::BASE_ADDRESS <= u64::MAX,
        old(mgr).load_addr_spec()@ >= SandboxMemoryLayout::BASE_ADDRESS,
        old(mgr).load_addr_spec()@ - SandboxMemoryLayout::BASE_ADDRESS
            + old(mgr).entrypoint_offset_spec()@ <= u64::MAX,
    ensures
        ({
            let mem_size = old(mgr).mem_spec()@.len() as u64;
            let rsp = (mem_size + SandboxMemoryLayout::BASE_ADDRESS - 0x28) as u64;
            let entry = guest_entrypoint(
                old(mgr).load_addr_spec()@,
                old(mgr).entrypoint_offset_spec()@,
            );
            &&& SandboxMemoryLayout::PAGE_TABLE_SIZE > old(mgr).mem_spec()@.len() ==> r is Err
            &&& SandboxMemoryLayout::PAGE_TABLE_SIZE <= old(mgr).mem_spec()@.len() ==> match entry {
                None => r == Err::<HypervisorPlan, HyperlightError>(
                    HyperlightError::ArithmeticOverflow,
                ),
                Some(e) => if mshv_present {
                    r matches Ok(HypervisorPlan::Mshv(a, s)) && s == rsp && a.entrypoint == e && a.guest_pfn
                        == SandboxMemoryLayout::BASE_ADDRESS / 0x1000 && a.host_addr
                        == old(mgr).mem_spec().spec_base_addr() && a.mem_size == mem_size
                } else if kvm_present {
                    r matches Ok(HypervisorPlan::Kvm { host_addr, pml4_addr, mem_size: m, entrypoint, rsp: s })
                        && host_addr == old(mgr).mem_spec().spec_base_addr() && pml4_addr
                        == SandboxMemoryLayout::BASE_ADDRESS + SandboxMemoryLayout::PML4_OFFSET && m
                        == mem_size && entrypoint == e && s == rsp
                } else {
                    r == Err::<HypervisorPlan, HyperlightError>(HyperlightError::NoHypervisorFound)
                },
            }
        }),
        final(mgr).layout_spec() == old(mgr).layout_spec(),
        final(mgr).load_addr_spec() == old(mgr).load_addr_spec(),
        final(mgr).entrypoint_offset_spec() == old(mgr).entrypoint_offset_spec(),
        final(mgr).mem_spec().spec_base_addr() == old(mgr).mem_spec().spec_base_addr(),
{
    let mem_size = usize_to_u64(mgr.get_shared_mem().mem_size());
    let rsp = mgr.set_up_hypervisor_partition(mem_size)?;
    let base_addr = SandboxMemoryLayout::BASE_ADDRESS;
    let pml4_addr = base_addr + SandboxMemoryLayout::PML4_OFFSET;
    let load_offset_u64 = mgr.get_load_addr().as_u64() - usize_to_u64(SandboxMemoryLayout::BASE_ADDRESS);
    let total_offset = Offset::new(load_offset_u64).add_offset(mgr.get_entrypoint_offset());
    let entrypoint = GuestPtr::try_from_offset(total_offset)?;
    let entrypoint_addr = entrypoint.absolute()?;
    if mshv_present {
        proof {
            assert(0x200000usize >> 12usize == 0x200usize) by (bit_vector);
        }
        let guest_pfn = usize_to_u64(SandboxMemoryLayout::BASE_ADDRESS >> 12);
        let host_addr = usize_to_u64(mgr.get_shared_mem().base_addr());
        Ok(
            HypervisorPlan::Mshv(
                HypervisorAddrs { entrypoint: entrypoint_addr, guest_pfn, host_addr, mem_size },
                rsp,
            ),
        )
    } else if kvm_present {
        let host_addr = usize_to_u64(mgr.get_shared_mem().base_addr());
        Ok(HypervisorPlan::Kvm {
            host_addr,
            pml4_addr: usize_to_u64(pml4_addr),
            mem_size,
            entrypoint: entrypoint_addr,
            rsp,
        })
    } else {
        Err(HyperlightError::NoHypervisorFound)
    }
}

} // verus!
