//! The Microsoft hypervisor on Linux: whether it can run sandboxes, and the
//! register values and exits of its virtual CPU.
use crate::error::HyperlightError;
use crate::hypervisor::{
    access_violation, exit_for_memory_access, long_mode_registers, spec_long_mode_cr0,
    spec_long_mode_cr4, spec_long_mode_efer, HyperlightExit, LongModeRegisters,
};
use crate::mem::le_bytes::{encode_le, le_decode, le_encode, read_le};
use crate::mem::memory_region::{MemoryRegion, MemoryRegionFlags};
use crate::mem::ptr::{absolute_of, GuestPtr};
use crate::mem::ptr_addr_space::AddressSpace;
use vstd::prelude::*;

verus! {

/// Whether `/dev/mshv` can be opened, with `mshv_ioctls::Mshv::new`; the
/// handle is closed again at once. It depends on the machine, so nothing is
/// claimed of it.
#[verifier::external_body]
fn mshv_opens() -> (r: bool) {
    mshv_ioctls::Mshv::new().is_ok()
}

/// Determine whether the Microsoft hypervisor API for Linux is present and
/// functional.
pub fn is_hypervisor_present() -> (r: bool) {
    mshv_opens()
}

/// The upper half of the code segment register: a flat 64-bit code segment.
pub const CS_HIGH: u64 = 0xa09b_0008_ffff_ffff;

/// The registers with which a virtual CPU of the Microsoft hypervisor starts
/// a guest.
#[derive(Clone, Copy, Debug, PartialEq, Eq)]
pub struct MshvRegisters {
    /// RAX.
    pub rax: u64,
    /// RBX.
    pub rbx: u64,
    /// The flags register.
    pub rflags: u64,
    /// The instruction pointer.
    pub rip: u64,
    /// The stack pointer.
    pub rsp: u64,
    /// CR0, CR3, CR4 and EFER.
    pub control: LongModeRegisters,
    /// The lower half of the code segment register.
    pub cs_low: u64,
    /// The upper half of the code segment register.
    pub cs_high: u64,
}

/// The absolute address of the guest pointer `p`, where it fits.
pub open spec fn guest_address(p: GuestPtr) -> Option<u64> {
    absolute_of(p.space().spec_base(), p.off())
}

/// The registers with which the guest starts: at `entrypoint_ptr`, on the
/// stack at `rsp_ptr`, with the page tables at `pml4_ptr`, in 64-bit long
/// mode. Fails where one of the three addresses overflows.
pub fn initial_registers(entrypoint_ptr: GuestPtr, rsp_ptr: GuestPtr, pml4_ptr: GuestPtr) -> (r:
    Result<MshvRegisters, HyperlightError>)
    ensures
        (guest_address(entrypoint_ptr) is Some && guest_address(rsp_ptr) is Some && guest_address(
            pml4_ptr,
        ) is Some) ==> (r matches Ok(regs) && {
            &&& regs.rax == 2
            &&& regs.rbx == 2
            &&& regs.rflags == 2
            &&& regs.rip == guest_address(entrypoint_ptr)->Some_0
            &&& regs.rsp == guest_address(rsp_ptr)->Some_0
            &&& regs.control.cr3 == guest_address(pml4_ptr)->Some_0
            &&& regs.control.cr4 == spec_long_mode_cr4()
            &&& regs.control.cr0 == spec_long_mode_cr0()
            &&& regs.control.efer == spec_long_mode_efer()
            &&& regs.cs_low == 0
            &&& regs.cs_high == CS_HIGH
        }),
        !(guest_address(entrypoint_ptr) is Some && guest_address(rsp_ptr) is Some
            && guest_address(pml4_ptr) is Some) ==> r == Err::<MshvRegisters, HyperlightError>(
            HyperlightError::ArithmeticOverflow,
        ),
{
    let rip = entrypoint_ptr.absolute()?;
    let rsp = rsp_ptr.absolute()?;
    let cr3 = pml4_ptr.absolute()?;
    Ok(
        MshvRegisters {
            rax: 2,
            rbx: 2,
            rflags: 0x2,
            rip,
            rsp,
            control: long_mode_registers(cr3),
            cs_low: 0,
            cs_high: CS_HIGH,
        },
    )
}

/// The payload of a write to a port that the guest made, as the outb
/// handler takes it (the first eight bytes of the data, little-endian), and
/// the address of the instruction after the write.
pub fn io_exit_values(data: &[u8], rip: u64, instruction_length: u64) -> (r: (u64, u64))
    requires
        data@.len() >= 8,
        rip + instruction_length <= u64::MAX,
    ensures
        r.0 == le_decode(data@.subrange(0, 8)),
        r.1 == rip + instruction_length,
{
    (read_le(data, 0, 8), rip + instruction_length)
}

/// What a run of a virtual CPU of the Microsoft hypervisor reported, with
/// the values that Hyperlight reads of it.
pub enum MshvRunOutcome {
    /// The guest halted.
    Halt,
    /// The guest wrote RAX (the second value) to a port (the first), at the
    /// instruction pointer and with the instruction length that follow.
    IoPortIntercept(u16, u64, u64, u64),
    /// The guest accessed this unmapped guest physical address.
    UnmappedGpa(u64),
    /// An access of the given type to this guest physical address was
    /// intercepted.
    GpaIntercept(u64, u8),
    /// A message of another type.
    OtherMessage(u32),
    /// The run was interrupted by a signal.
    Interrupted,
    /// The run should be tried again.
    TryAgain,
    /// The run failed with this error number.
    Failed(i32),
}

/// The generic exit for what a run of a virtual CPU of the Microsoft
/// hypervisor reported, where `mem_regions` are the guest's memory regions.
pub fn exit_for_mshv_run(outcome: MshvRunOutcome, mem_regions: &[MemoryRegion]) -> (r: Result<
    HyperlightExit,
    HyperlightError,
>)
    ensures
        match outcome {
            MshvRunOutcome::Halt => r matches Ok(HyperlightExit::Halt()),
            MshvRunOutcome::IoPortIntercept(port, rax, rip, len) => r matches Ok(
                HyperlightExit::IoOut(p, d, rp, l),
            ) && p == port && d@ == le_encode(rax as nat, 8) && rp == rip && l == len,
            MshvRunOutcome::UnmappedGpa(gpa) => r matches Ok(HyperlightExit::Mmio(a)) && a == gpa,
            MshvRunOutcome::GpaIntercept(gpa, access_type) => if access_type > 2 {
                r == Err::<HyperlightExit, HyperlightError>(
                    HyperlightError::UnknownMemoryAccessType(access_type),
                )
            } else {
                match access_violation(
                    mem_regions@,
                    gpa as usize,
                    MemoryRegionFlags::access_type_spec(access_type),
                ) {
                    Some((a, t, p)) => r matches Ok(HyperlightExit::AccessViolation(a2, t2, p2)) && a2
                        == a && t2 == t && p2 == p,
                    None => r matches Ok(HyperlightExit::Mmio(a)) && a == gpa,
                }
            },
            MshvRunOutcome::OtherMessage(t) => r == Err::<HyperlightExit, HyperlightError>(
                HyperlightError::UnknownRunMessage(t),
            ),
            MshvRunOutcome::Interrupted => r matches Ok(HyperlightExit::Cancelled()),
            MshvRunOutcome::TryAgain => r matches Ok(HyperlightExit::Retry()),
            MshvRunOutcome::Failed(errno) => r == Err::<HyperlightExit, HyperlightError>(
                HyperlightError::VcpuRunFailed(errno),
            ),
        },
{
    match outcome {
        MshvRunOutcome::Halt => Ok(HyperlightExit::Halt()),
        MshvRunOutcome::IoPortIntercept(port, rax, rip, instruction_length) => Ok(
            HyperlightExit::IoOut(port, encode_le(rax, 8), rip, instruction_length),
        ),
        MshvRunOutcome::UnmappedGpa(gpa) => Ok(HyperlightExit::Mmio(gpa)),
        MshvRunOutcome::GpaIntercept(gpa, access_type) => {
            let access = MemoryRegionFlags::try_from_access_type(access_type)?;
            Ok(exit_for_memory_access(gpa, mem_regions, access))
        },
        MshvRunOutcome::OtherMessage(t) => Err(HyperlightError::UnknownRunMessage(t)),
        MshvRunOutcome::Interrupted => Ok(HyperlightExit::Cancelled()),
        MshvRunOutcome::TryAgain => Ok(HyperlightExit::Retry()),
        MshvRunOutcome::Failed(errno) => Err(HyperlightError::VcpuRunFailed(errno)),
    }
}

} // verus!
