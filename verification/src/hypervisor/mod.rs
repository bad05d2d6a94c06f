//! The hypervisor-independent part of running a guest: the exits of a
//! virtual CPU and what the host does about each.
use crate::error::HyperlightError;
use crate::mem::memory_region::{flags_contain, MemoryRegion, MemoryRegionFlags};
use crate::mem::ptr::RawPtr;
use vstd::prelude::*;

pub mod handlers;
pub mod hyperv_linux;
pub mod hypervisor_mem;
pub mod kvm;

verus! {

/// CR4: physical address extension.
pub const CR4_PAE: u64 = 0x20;
/// CR4: the operating system supports `FXSAVE` and `FXRSTOR`.
pub const CR4_OSFXSR: u64 = 0x200;
/// CR4: the operating system handles unmasked SIMD floating-point exceptions.
pub const CR4_OSXMMEXCPT: u64 = 0x400;
/// CR0: protected mode.
pub const CR0_PE: u64 = 0x1;
/// CR0: monitor coprocessor.
pub const CR0_MP: u64 = 0x2;
/// CR0: extension type.
pub const CR0_ET: u64 = 0x10;
/// CR0: numeric error.
pub const CR0_NE: u64 = 0x20;
/// CR0: write protect.
pub const CR0_WP: u64 = 0x1_0000;
/// CR0: alignment mask.
pub const CR0_AM: u64 = 0x4_0000;
/// CR0: paging.
pub const CR0_PG: u64 = 0x8000_0000;
/// EFER: long mode enable.
pub const EFER_LME: u64 = 0x100;
/// EFER: long mode active.
pub const EFER_LMA: u64 = 0x400;

/// The CR0 value with which a guest runs: protected mode with paging.
pub open spec fn spec_long_mode_cr0() -> u64 {
    CR0_PE | CR0_MP | CR0_ET | CR0_NE | CR0_WP | CR0_AM | CR0_PG
}

/// The CR4 value with which a guest runs.
pub open spec fn spec_long_mode_cr4() -> u64 {
    CR4_PAE | CR4_OSFXSR | CR4_OSXMMEXCPT
}

/// The EFER value with which a guest runs: 64-bit long mode.
pub open spec fn spec_long_mode_efer() -> u64 {
    EFER_LME | EFER_LMA
}

/// The control registers and EFER of a virtual CPU that runs a guest in
/// 64-bit long mode with paging.
#[derive(Clone, Copy, Debug, PartialEq, Eq)]
pub struct LongModeRegisters {
    /// CR0.
    pub cr0: u64,
    /// CR3: the address of the top-level page table.
    pub cr3: u64,
    /// CR4.
    pub cr4: u64,
    /// EFER.
    pub efer: u64,
}

/// The control registers and EFER that put a virtual CPU in long mode with
/// paging, with the page tables at `pml4_addr`.
pub fn long_mode_registers(pml4_addr: u64) -> (r: LongModeRegisters)
    ensures
        r.cr3 == pml4_addr,
        r.cr0 == spec_long_mode_cr0(),
        r.cr4 == spec_long_mode_cr4(),
        r.efer == spec_long_mode_efer(),
{
    LongModeRegisters {
        cr0: CR0_PE | CR0_MP | CR0_ET | CR0_NE | CR0_WP | CR0_AM | CR0_PG,
        cr3: pml4_addr,
        cr4: CR4_PAE | CR4_OSFXSR | CR4_OSXMMEXCPT,
        efer: EFER_LME | EFER_LMA,
    }
}

/// The arguments of the guest's entry point, in the registers of its calling
/// convention.
#[derive(Clone, Copy, Debug, PartialEq, Eq)]
pub struct EntryArguments {
    /// RCX: the address of the PEB.
    pub rcx: u64,
    /// RDX: the random seed.
    pub rdx: u64,
    /// R8: the size of a memory page.
    pub r8: u32,
    /// R9: the most detailed log level that the host records.
    pub r9: u32,
}

/// The registers with which the guest's entry point is called: the PEB's
/// address, the seed, the page size and the maximum log level, in that
/// order.
pub fn entry_arguments(peb_addr: RawPtr, seed: u64, page_size: u32, max_log_level: u32) -> (r:
    EntryArguments)
    ensures
        r.rcx == peb_addr@,
        r.rdx == seed,
        r.r8 == page_size,
        r.r9 == max_log_level,
{
    EntryArguments { rcx: peb_addr.as_u64(), rdx: seed, r8: page_size, r9: max_log_level }
}

/// The instruction after the one at `rip` of `instruction_length` bytes.
pub fn next_rip(rip: u64, instruction_length: u64) -> (r: u64)
    requires
        rip + instruction_length <= u64::MAX,
    ensures
        r == rip + instruction_length,
{
    rip + instruction_length
}

/// These are the generic exit reasons that we can handle from a hypervisor:
/// each hypervisor's run method maps its own exit reasons to these.
pub enum HyperlightExit {
    /// The vCPU has halted.
    Halt(),
    /// The vCPU has issued a write to the given port with the given value,
    /// at the given instruction pointer and instruction length.
    IoOut(u16, Vec<u8>, u64, u64),
    /// The vCPU has attempted to read or write from an unmapped address.
    Mmio(u64),
    /// The vCPU tried to access memory but was missing the required
    /// permissions (the address, the access tried and the region's flags).
    AccessViolation(u64, MemoryRegionFlags, MemoryRegionFlags),
    /// The vCPU execution has been cancelled.
    Cancelled(),
    /// The vCPU has exited for a reason that is not handled by Hyperlight.
    Unknown(String),
    /// The operation should be retried, for example this can happen on Linux
    /// where a call to run the CPU can return EAGAIN.
    Retry(),
}

/// Whether `region` holds guest physical address `gpa`.
pub open spec fn region_contains(region: MemoryRegion, gpa: usize) -> bool {
    region.guest_region.start <= gpa < region.guest_region.end
}

/// The first of the regions `s` from index `i` on that holds `gpa`.
pub open spec fn first_region_from(s: Seq<MemoryRegion>, gpa: usize, i: int) -> Option<MemoryRegion>
    decreases s.len() - i,
{
    if i < 0 || i >= s.len() {
        None
    } else if region_contains(s[i], gpa) {
        Some(s[i])
    } else {
        first_region_from(s, gpa, i + 1)
    }
}

/// The access violation, if any, of an access of kind `access` to `gpa` in
/// the regions `s`: where the first region that holds `gpa` lacks the
/// permissions of the access.
pub open spec fn access_violation(s: Seq<MemoryRegion>, gpa: usize, access: MemoryRegionFlags) -> Option<
    (u64, MemoryRegionFlags, MemoryRegionFlags),
> {
    match first_region_from(s, gpa, 0) {
        Some(region) => if !flags_contain(region.flags@, access@) {
            Some((gpa as u64, access, region.flags))
        } else {
            None
        },
        None => None,
    }
}

/// The region that an access to `gpa` is checked against is the first one
/// whose guest range holds `gpa`, whatever its place: the access violates
/// it exactly when the region's permission bits do not include all of the
/// access's, and then the violation names the address, the access and the
/// region's permissions. So a region with no permissions refuses every
/// access that asks for any. Where no region holds `gpa` there is no
/// violation.
pub proof fn lemma_access_violation_of_first_holding_region(
    s: Seq<MemoryRegion>,
    gpa: usize,
    access: MemoryRegionFlags,
)
    ensures
        forall|i: int|
            #![trigger s[i]]
            0 <= i < s.len() && s[i].guest_region.start <= gpa < s[i].guest_region.end && (forall|
                j: int,
            |
                #![trigger s[j]]
                0 <= j < i ==> !(s[j].guest_region.start <= gpa < s[j].guest_region.end))
                ==> access_violation(s, gpa, access) == (if s[i].flags@ & access@ != access@ {
                Some((gpa as u64, access, s[i].flags))
            } else {
                None
            }) && (s[i].flags@ == 0 && access@ != 0 ==> access_violation(s, gpa, access)
                == Some((gpa as u64, access, s[i].flags))),
        (forall|j: int|
            #![trigger s[j]]
            0 <= j < s.len() ==> !(s[j].guest_region.start <= gpa < s[j].guest_region.end))
            ==> access_violation(s, gpa, access) is None,
{
    assert forall|i: int|
        #![trigger s[i]]
        0 <= i < s.len() && s[i].guest_region.start <= gpa < s[i].guest_region.end && (forall|
            j: int,
        |
            #![trigger s[j]]
            0 <= j < i ==> !(s[j].guest_region.start <= gpa < s[j].guest_region.end))
            implies access_violation(s, gpa, access) == (if s[i].flags@ & access@ != access@ {
            Some((gpa as u64, access, s[i].flags))
        } else {
            None
        }) && (s[i].flags@ == 0 && access@ != 0 ==> access_violation(s, gpa, access) == Some(
            (gpa as u64, access, s[i].flags),
        )) by {
        lemma_first_region_skips_to(s, gpa, 0, i);
        let f = s[i].flags@;
        let a = access@;
        assert(f == 0 && a != 0 ==> f & a != a) by (bit_vector);
    }
    if forall|j: int|
        #![trigger s[j]]
        0 <= j < s.len() ==> !(s[j].guest_region.start <= gpa < s[j].guest_region.end) {
        lemma_first_region_skips_to(s, gpa, 0, s.len() as int);
    }
}

/// No region from `k` up to `i` holds `gpa`, so the search from `k` is the
/// search from `i`.
proof fn lemma_first_region_skips_to(s: Seq<MemoryRegion>, gpa: usize, k: int, i: int)
    requires
        0 <= k <= i <= s.len(),
        forall|j: int|
            #![trigger s[j]]
            k <= j < i ==> !(s[j].guest_region.start <= gpa < s[j].guest_region.end),
    ensures
        first_region_from(s, gpa, k) == first_region_from(s, gpa, i),
    decreases i - k,
{
    if k < i {
        lemma_first_region_skips_to(s, gpa, k + 1, i);
    }
}

/// Returns `Some(HyperlightExit::AccessViolation(..))` if the region of
/// `mem_regions` that holds `gpa` does not allow the access `access_info`.
/// Returns `None` otherwise, or if no region holds `gpa`.
pub fn get_memory_access_violation(
    gpa: usize,
    mem_regions: &[MemoryRegion],
    access_info: MemoryRegionFlags,
) -> (r: Option<HyperlightExit>)
    ensures
        match access_violation(mem_regions@, gpa, access_info) {
            Some((a, t, p)) => r matches Some(HyperlightExit::AccessViolation(a2, t2, p2)) && a2 == a
                && t2 == t && p2 == p,
            None => r is None,
        },
{
    let mut i: usize = 0;
    while i < mem_regions.len()
        invariant
            i <= mem_regions@.len(),
            first_region_from(mem_regions@, gpa, 0) == first_region_from(mem_regions@, gpa, i as int),
        decreases mem_regions@.len() - i,
    {
        let region = &mem_regions[i];
        if region.guest_region.start <= gpa && gpa < region.guest_region.end {
            if !region.flags.contains(access_info) {
                return Some(HyperlightExit::AccessViolation(gpa as u64, access_info, region.flags));
            }
            return None;
        }
        i = i + 1;
    }
    None
}

/// The exit for an access of kind `access` to `gpa` that the hypervisor
/// could not complete: an access violation where the region that holds
/// `gpa` lacks the permission, an access to unmapped memory otherwise.
pub fn exit_for_memory_access(gpa: u64, mem_regions: &[MemoryRegion], access: MemoryRegionFlags) -> (r:
    HyperlightExit)
    ensures
        match access_violation(mem_regions@, gpa as usize, access) {
            Some((a, t, p)) => r matches HyperlightExit::AccessViolation(a2, t2, p2) && a2 == a && t2
                == t && p2 == p,
            None => r matches HyperlightExit::Mmio(a) && a == gpa,
        },
{
    match get_memory_access_violation(gpa as usize, mem_regions, access) {
        Some(violation) => violation,
        None => HyperlightExit::Mmio(gpa),
    }
}

/// What the host does next while running a virtual CPU.
pub enum RunStep {
    /// The guest halted: the run is over and succeeded.
    Done,
    /// Handle the guest's write to a port (the port, the data, the
    /// instruction pointer and the instruction length), then run again.
    HandleIo(u16, Vec<u8>, u64, u64),
    /// Call the memory access handler, then fail with the error.
    CallMemAccessHandlerThenFail(HyperlightError),
    /// Record that the run was cancelled, then fail with the error.
    Cancel(HyperlightError),
    /// Fail with the error.
    Fail(HyperlightError),
    /// Run again.
    Continue,
}

/// What the host does next while it waits for a timed-out run of the
/// virtual CPU to be cancelled.
pub enum CancelAction {
    /// Signal the thread that runs the virtual CPU, wait a moment, then look
    /// again.
    SignalThenWait,
    /// Stop signalling.
    Stop,
}

/// How many times, at most, the host signals the virtual CPU's thread when
/// it may wait `wait_micros` microseconds for the run to be cancelled: once
/// for every 500 microseconds.
pub fn cancel_signal_limit(wait_micros: u128) -> (r: u128)
    ensures
        r == wait_micros / 500,
{
    wait_micros / 500
}

/// Whether the thread with id `thread_id` can be signalled: the id
/// `u64::MAX` stands for a thread whose id was never recorded.
pub fn check_signal_target(thread_id: u64) -> (r: Result<(), HyperlightError>)
    ensures
        thread_id == u64::MAX ==> r == Err::<(), HyperlightError>(
            HyperlightError::ThreadIdUnavailable,
        ),
        thread_id != u64::MAX ==> r is Ok,
{
    if thread_id == u64::MAX {
        Err(HyperlightError::ThreadIdUnavailable)
    } else {
        Ok(())
    }
}

/// One turn of the signalling loop: where the run is not cancelled yet,
/// count one more signal, and send it unless `limit` signals were sent
/// already. Returns the new count and what to do.
pub fn cancel_step(run_cancelled: bool, count: i32, limit: u128) -> (r: (i32, CancelAction))
    requires
        run_cancelled || (0 <= count < i32::MAX && limit <= i32::MAX),
    ensures
        run_cancelled ==> r.0 == count && r.1 is Stop,
        !run_cancelled && count + 1 > limit ==> r.0 == count + 1 && r.1 is Stop,
        !run_cancelled && count + 1 <= limit ==> r.0 == count + 1 && r.1 is SignalThenWait,
{
    if run_cancelled {
        return (count, CancelAction::Stop);
    }
    let count = count + 1;
    let limit_i32 = limit as i32;
    if count > limit_i32 {
        (count, CancelAction::Stop)
    } else {
        (count, CancelAction::SignalThenWait)
    }
}

/// Whether sending the signal went well, given what the call returned:
/// a negative value is an error, except `no_such_thread`, which means that
/// the thread has ended already.
pub fn check_signal_result(ret: i32, no_such_thread: i32) -> (r: Result<(), HyperlightError>)
    ensures
        ret < 0 && ret != no_such_thread ==> r == Err::<(), HyperlightError>(
            HyperlightError::SignalFailed(ret),
        ),
        !(ret < 0 && ret != no_such_thread) ==> r is Ok,
{
    if ret < 0 && ret != no_such_thread {
        Err(HyperlightError::SignalFailed(ret))
    } else {
        Ok(())
    }
}

/// The outcome of a cancellation once the host stopped signalling after
/// `count` signals: it succeeded where the run now reports itself
/// cancelled.
pub fn cancel_outcome(run_cancelled: bool, count: i32) -> (r: Result<(), HyperlightError>)
    ensures
        run_cancelled ==> r is Ok,
        !run_cancelled ==> r == Err::<(), HyperlightError>(
            HyperlightError::HostFailedToCancelGuestExecutionSendingSignals(count),
        ),
{
    if run_cancelled {
        Ok(())
    } else {
        Err(HyperlightError::HostFailedToCancelGuestExecutionSendingSignals(count))
    }
}

/// A virtual CPU that can be run until an exit occurs.
pub struct VirtualCPU {}

impl VirtualCPU {
    /// What to do before running the virtual CPU again: stop with a
    /// cancellation where the host asked for the run to end.
    pub fn before_run(termination_requested: bool) -> (r: Option<RunStep>)
        ensures
            termination_requested ==> (r matches Some(RunStep::Cancel(e)) && e
                == HyperlightError::ExecutionCanceledByHost),
            !termination_requested ==> r is None,
    {
        if termination_requested {
            Some(RunStep::Cancel(HyperlightError::ExecutionCanceledByHost))
        } else {
            None
        }
    }

    /// What to do after the virtual CPU exited with `exit`.
    pub fn after_exit(exit: HyperlightExit) -> (r: RunStep)
        ensures
            match exit {
                HyperlightExit::Halt() => r is Done,
                HyperlightExit::IoOut(port, data, rip, len) => r matches RunStep::HandleIo(
                    p2,
                    d2,
                    rip2,
                    len2,
                ) && p2 == port && d2 == data && rip2 == rip && len2 == len,
                HyperlightExit::Mmio(addr) => r matches RunStep::CallMemAccessHandlerThenFail(e) && e
                    == HyperlightError::MmioAccess(addr),
                HyperlightExit::AccessViolation(addr, tried, perm) => r matches RunStep::Fail(e) && e
                    == HyperlightError::MemoryAccessViolation(addr, tried, perm),
                HyperlightExit::Cancelled() => r matches RunStep::Cancel(e) && e
                    == HyperlightError::ExecutionCanceledByHost,
                HyperlightExit::Unknown(reason) => r matches RunStep::Fail(e) && e
                    == HyperlightError::UnexpectedVmExit(reason),
                HyperlightExit::Retry() => r is Continue,
            },
    {
        match exit {
            HyperlightExit::Halt() => RunStep::Done,
            HyperlightExit::IoOut(port, data, rip, instruction_length) => RunStep::HandleIo(
                port,
                data,
                rip,
                instruction_length,
            ),
            HyperlightExit::Mmio(addr) => RunStep::CallMemAccessHandlerThenFail(
                HyperlightError::MmioAccess(addr),
            ),
            HyperlightExit::AccessViolation(addr, tried, region_permission) => RunStep::Fail(
                HyperlightError::MemoryAccessViolation(addr, tried, region_permission),
            ),
            HyperlightExit::Cancelled() => RunStep::Cancel(HyperlightError::ExecutionCanceledByHost),
            HyperlightExit::Unknown(reason) => RunStep::Fail(HyperlightError::UnexpectedVmExit(reason)),
            HyperlightExit::Retry() => RunStep::Continue,
        }
    }
}

} // verus!
