//! KVM: whether it can run sandboxes, and the register values, memory slots
//! and exits of a KVM virtual CPU.
use crate::error::HyperlightError;
use crate::hypervisor::{
    access_violation, exit_for_memory_access, long_mode_registers, spec_long_mode_cr0,
    spec_long_mode_cr4, spec_long_mode_efer, EntryArguments, HyperlightExit, LongModeRegisters,
};
use crate::mem::memory_region::{MemoryRegion, MemoryRegionFlags, READ_BIT};
use crate::mem::ptr::{absolute_of, GuestPtr, RawPtr};
use crate::mem::ptr_addr_space::AddressSpace;
use kvm_ioctls::Kvm;
use vstd::prelude::*;

verus! {

/// A handle to `/dev/kvm`, of the `kvm-ioctls` crate.
#[verifier::external_type_specification]
#[verifier::external_body]
pub struct ExKvm(kvm_ioctls::Kvm);

/// The version of the KVM API that Hyperlight needs.
pub const KVM_API_VERSION: i32 = 12;

/// KVM's flag for a memory slot that the guest may only read.
pub const KVM_MEM_READONLY: u32 = 2;

/// Opens `/dev/kvm` with `kvm_ioctls::Kvm::new`; `None` where that fails.
/// Whether it succeeds depends on the machine, so nothing is claimed of it.
#[verifier::external_body]
fn open_kvm() -> (r: Option<Kvm>) {
    Kvm::new().ok()
}

/// The KVM API version, from `kvm_ioctls::Kvm::get_api_version`. It depends
/// on the machine, so nothing is claimed of it.
#[verifier::external_body]
fn kvm_api_version(kvm: &Kvm) -> (r: i32) {
    kvm.get_api_version()
}

/// Whether KVM has the user memory capability, from
/// `kvm_ioctls::Kvm::check_extension` with `Cap::UserMemory`. It depends on
/// the machine, so nothing is claimed of it.
#[verifier::external_body]
fn kvm_has_user_memory(kvm: &Kvm) -> (r: bool) {
    kvm.check_extension(kvm_ioctls::Cap::UserMemory)
}

/// Whether a KVM of API version `api_version`, with or without the user
/// memory capability, can run sandboxes: it must be version 12 and have the
/// capability.
pub fn kvm_is_usable(api_version: i32, has_user_memory: bool) -> (r: bool)
    ensures
        r == (api_version == KVM_API_VERSION && has_user_memory),
{
    api_version == KVM_API_VERSION && has_user_memory
}

/// Return `true` if the KVM API is available, version 12, and has the user
/// memory capability, or `false` otherwise.
pub fn is_hypervisor_present() -> (r: bool) {
    match open_kvm() {
        Some(kvm) => {
            let api_version = kvm_api_version(&kvm);
            if api_version != KVM_API_VERSION {
                return false;
            }
            kvm_is_usable(api_version, kvm_has_user_memory(&kvm))
        },
        None => false,
    }
}

/// The fields of a KVM user memory region: its slot, where it lies in guest
/// and in host memory, its size and its flags.
#[derive(Clone, Copy, Debug, PartialEq, Eq)]
pub struct KvmRegionFields {
    /// The slot number.
    pub slot: u32,
    /// The guest physical address of the region's start.
    pub guest_phys_addr: u64,
    /// The size of the region in bytes.
    pub memory_size: u64,
    /// The host address of the region's start.
    pub userspace_addr: u64,
    /// `KVM_MEM_READONLY` for a region that the guest may only read, else 0.
    pub flags: u32,
}

/// Whether the guest region of `r` does not end before it starts.
pub open spec fn region_well_formed(r: MemoryRegion) -> bool {
    r.guest_region.start <= r.guest_region.end
}

/// The KVM user memory region for `region` in slot `slot`.
pub open spec fn spec_kvm_region(slot: int, region: MemoryRegion) -> KvmRegionFields {
    KvmRegionFields {
        slot: slot as u32,
        guest_phys_addr: region.guest_region.start as u64,
        memory_size: (region.guest_region.end - region.guest_region.start) as u64,
        userspace_addr: region.host_region.start as u64,
        flags: if region.flags@ == READ_BIT {
            KVM_MEM_READONLY
        } else {
            0
        },
    }
}

/// The KVM user memory regions with which the regions `mem_regions` are
/// mapped, each in the slot of its index: a region that the guest may only
/// read is mapped read-only, every other one for reading, writing and
/// executing.
pub fn kvm_memory_regions(mem_regions: &[MemoryRegion]) -> (r: Vec<KvmRegionFields>)
    requires
        forall|i: int| 0 <= i < mem_regions@.len() ==> region_well_formed(#[trigger] mem_regions@[i]),
    ensures
        r@.len() == mem_regions@.len(),
        forall|i: int| 0 <= i < r@.len() ==> #[trigger] r@[i] == spec_kvm_region(i, mem_regions@[i]),
{
    let mut out: Vec<KvmRegionFields> = Vec::new();
    let mut i: usize = 0;
    while i < mem_regions.len()
        invariant
            i <= mem_regions@.len(),
            out@.len() == i,
            forall|k: int| 0 <= k < mem_regions@.len() ==> region_well_formed(#[trigger] mem_regions@[k]),
            forall|k: int| 0 <= k < i ==> #[trigger] out@[k] == spec_kvm_region(k, mem_regions@[k]),
        decreases mem_regions@.len() - i,
    {
        let region = &mem_regions[i];
        assert(region_well_formed(mem_regions@[i as int]));
        let flags = if region.flags.bits() == READ_BIT {
            KVM_MEM_READONLY
        } else {
            0
        };
        out.push(
            KvmRegionFields {
                slot: i as u32,
                guest_phys_addr: region.guest_region.start as u64,
                memory_size: (region.guest_region.end - region.guest_region.start) as u64,
                userspace_addr: region.host_region.start as u64,
                flags,
            },
        );
        i = i + 1;
    }
    out
}

/// The special registers that KVM sets up for a guest: the long-mode
/// control registers, and the code segment marked as a 64-bit one.
#[derive(Clone, Copy, Debug, PartialEq, Eq)]
pub struct KvmSpecialRegisters {
    /// CR0, CR3, CR4 and EFER.
    pub control: LongModeRegisters,
    /// The long-mode bit of the code segment.
    pub cs_l: u8,
}

/// Set up paging and IA-32e (64-bit) mode, with the page tables at
/// `pml4_addr`.
pub fn initial_sregs(pml4_addr: u64) -> (r: KvmSpecialRegisters)
    ensures
        r.control.cr3 == pml4_addr,
        r.control.cr0 == spec_long_mode_cr0(),
        r.control.cr4 == spec_long_mode_cr4(),
        r.control.efer == spec_long_mode_efer(),
        r.cs_l == 1,
{
    KvmSpecialRegisters { control: long_mode_registers(pml4_addr), cs_l: 1 }
}

/// The general purpose registers that Hyperlight sets on a KVM virtual CPU;
/// every other one is zero.
#[derive(Clone, Copy, Debug, PartialEq, Eq)]
pub struct KvmRegisters {
    /// The instruction pointer.
    pub rip: u64,
    /// The stack pointer.
    pub rsp: u64,
    /// RCX.
    pub rcx: u64,
    /// RDX.
    pub rdx: u64,
    /// R8.
    pub r8: u64,
    /// R9.
    pub r9: u64,
}

/// The registers with which the guest starts: at `entrypoint`, on the
/// stack at `orig_rsp`, with the entry point's arguments `args`. Fails
/// where the stack pointer's address overflows.
pub fn initial_regs(entrypoint: u64, orig_rsp: GuestPtr, args: EntryArguments) -> (r: Result<
    KvmRegisters,
    HyperlightError,
>)
    ensures
        match absolute_of(orig_rsp.space().spec_base(), orig_rsp.off()) {
            Some(rsp) => r == Ok::<KvmRegisters, HyperlightError>(
                KvmRegisters {
                    rip: entrypoint,
                    rsp,
                    rcx: args.rcx,
                    rdx: args.rdx,
                    r8: args.r8 as u64,
                    r9: args.r9 as u64,
                },
            ),
            None => r == Err::<KvmRegisters, HyperlightError>(HyperlightError::ArithmeticOverflow),
        },
{
    let rsp = orig_rsp.absolute()?;
    Ok(
        KvmRegisters {
            rip: entrypoint,
            rsp,
            rcx: args.rcx,
            rdx: args.rdx,
            r8: args.r8 as u64,
            r9: args.r9 as u64,
        },
    )
}

/// The registers with which a call from the host into the guest starts:
/// the general purpose registers are reset but for the stack pointer, and
/// the instruction pointer is the dispatch function's address.
pub fn dispatch_regs(dispatch_func_addr: RawPtr, rsp: u64) -> (r: KvmRegisters)
    ensures
        r == (KvmRegisters { rip: dispatch_func_addr@, rsp, rcx: 0, rdx: 0, r8: 0, r9: 0 }),
{
    KvmRegisters { rip: dispatch_func_addr.as_u64(), rsp, rcx: 0, rdx: 0, r8: 0, r9: 0 }
}

/// The payload of a write to a port that the guest made, as the outb
/// handler takes it (the first byte of the data), and the address of the
/// instruction after the write. Fails where no data came with the write.
pub fn io_exit_values(data: &[u8], rip: u64, instruction_length: u64) -> (r: Result<
    (u64, u64),
    HyperlightError,
>)
    requires
        rip + instruction_length <= u64::MAX,
    ensures
        data@.len() == 0 ==> r == Err::<(u64, u64), HyperlightError>(HyperlightError::NoIoData),
        data@.len() > 0 ==> r == Ok::<(u64, u64), HyperlightError>(
            (data@[0] as u64, (rip + instruction_length) as u64),
        ),
{
    if data.len() == 0 {
        return Err(HyperlightError::NoIoData);
    }
    Ok((data[0] as u64, rip + instruction_length))
}

/// What a run of a KVM virtual CPU reported, with the values that
/// Hyperlight reads of it.
pub enum KvmRunOutcome {
    /// The guest halted.
    Hlt,
    /// The guest wrote `data` to `port`; the instruction pointer was `rip`.
    IoOut(u16, Vec<u8>, u64),
    /// The guest read from an address that KVM could not serve.
    MmioRead(u64),
    /// The guest wrote to an address that KVM could not serve.
    MmioWrite(u64),
    /// Any other exit, by its description.
    Other(String),
    /// The run was interrupted by a signal.
    Interrupted,
    /// The run should be tried again.
    TryAgain,
    /// The run failed with this error number.
    Failed(i32),
}

/// The generic exit for what a run of a KVM virtual CPU reported, where
/// `mem_regions` are the guest's memory regions. A write to a port is taken
/// to be one byte long.
pub fn exit_for_kvm_run(outcome: KvmRunOutcome, mem_regions: &[MemoryRegion]) -> (r: Result<
    HyperlightExit,
    HyperlightError,
>)
    ensures
        match outcome {
            KvmRunOutcome::Hlt => r matches Ok(HyperlightExit::Halt()),
            KvmRunOutcome::IoOut(port, data, rip) => r matches Ok(
                HyperlightExit::IoOut(p, d, rp, len),
            ) && p == port && d == data && rp == rip && len == 1,
            KvmRunOutcome::MmioRead(addr) => match access_violation(
                mem_regions@,
                addr as usize,
                MemoryRegionFlags::read_spec(),
            ) {
                Some((a, t, p)) => r matches Ok(HyperlightExit::AccessViolation(a2, t2, p2)) && a2
                    == a && t2 == t && p2 == p,
                None => r matches Ok(HyperlightExit::Mmio(a)) && a == addr,
            },
            KvmRunOutcome::MmioWrite(addr) => match access_violation(
                mem_regions@,
                addr as usize,
                MemoryRegionFlags::write_spec(),
            ) {
                Some((a, t, p)) => r matches Ok(HyperlightExit::AccessViolation(a2, t2, p2)) && a2
                    == a && t2 == t && p2 == p,
                None => r matches Ok(HyperlightExit::Mmio(a)) && a == addr,
            },
            KvmRunOutcome::Other(reason) => r matches Ok(HyperlightExit::Unknown(s)) && s
                == reason,
            KvmRunOutcome::Interrupted => r matches Ok(HyperlightExit::Cancelled()),
            KvmRunOutcome::TryAgain => r matches Ok(HyperlightExit::Retry()),
            KvmRunOutcome::Failed(errno) => r == Err::<HyperlightExit, HyperlightError>(
                HyperlightError::VcpuRunFailed(errno),
            ),
        },
{
    match outcome {
        KvmRunOutcome::Hlt => Ok(HyperlightExit::Halt()),
        KvmRunOutcome::IoOut(port, data, rip) => Ok(HyperlightExit::IoOut(port, data, rip, 1)),
        KvmRunOutcome::MmioRead(addr) => Ok(
            exit_for_memory_access(addr, mem_regions, MemoryRegionFlags::read()),
        ),
        KvmRunOutcome::MmioWrite(addr) => Ok(
            exit_for_memory_access(addr, mem_regions, MemoryRegionFlags::write()),
        ),
        KvmRunOutcome::Other(reason) => Ok(HyperlightExit::Unknown(reason)),
        KvmRunOutcome::Interrupted => Ok(HyperlightExit::Cancelled()),
        KvmRunOutcome::TryAgain => Ok(HyperlightExit::Retry()),
        KvmRunOutcome::Failed(errno) => Err(HyperlightError::VcpuRunFailed(errno)),
    }
}

} // verus!
