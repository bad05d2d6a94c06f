//! The system calls that the thread which runs guest code may make, and the
//! `ioctl` requests among them.
use crate::error::HyperlightError;
use crate::sandbox::hypervisor::HypervisorType;
use vstd::prelude::*;

verus! {

/// The `ioctl` request that reads a terminal's settings.
pub const TCGETS: u64 = 0x5401;
/// The Microsoft hypervisor's `ioctl` request that unmaps guest memory.
pub const MSHV_UNMAP_GUEST_MEMORY: u64 = 0x4020_b803;
/// The Microsoft hypervisor's `ioctl` request that reads vCPU registers.
pub const MSHV_GET_VP_REGISTERS: u64 = 0xc010_b805;
/// The Microsoft hypervisor's `ioctl` request that writes vCPU registers.
pub const MSHV_SET_VP_REGISTERS: u64 = 0x4010_b806;
/// The Microsoft hypervisor's `ioctl` request that runs a vCPU.
pub const MSHV_RUN_VP: u64 = 0x8100_b807;
/// The Microsoft hypervisor's `ioctl` request that reads a vCPU's state.
pub const MSHV_GET_VP_STATE: u64 = 0xc010_b80a;
/// The Microsoft hypervisor's `ioctl` request that makes a hypercall.
pub const MSHV_ROOT_HVCALL: u64 = 0xc020_b835;
/// KVM's `ioctl` request that writes vCPU registers.
pub const KVM_SET_REGS: u64 = 0x4090_ae82;
/// KVM's `ioctl` request that writes the vCPU's floating-point state.
pub const KVM_SET_FPU: u64 = 0x41a0_ae8d;
/// KVM's `ioctl` request that runs a vCPU.
pub const KVM_RUN: u64 = 0xae80;
/// KVM's `ioctl` request that reads vCPU registers.
pub const KVM_GET_REGS: u64 = 0x8090_ae81;

/// The `ioctl` requests that the thread running guest code may make on
/// hypervisor `hv`: those of the hypervisor that running a vCPU needs,
/// then `TCGETS`; there are none to allow where no hypervisor is present.
pub open spec fn spec_ioctl_allowlist(hv: Option<HypervisorType>) -> Result<Seq<u64>, HyperlightError> {
    match hv {
        Some(HypervisorType::Kvm) => Ok(seq![KVM_SET_REGS, KVM_SET_FPU, KVM_RUN, KVM_GET_REGS, TCGETS]),
        Some(HypervisorType::Mshv) => Ok(
            seq![
                MSHV_UNMAP_GUEST_MEMORY,
                MSHV_GET_VP_REGISTERS,
                MSHV_SET_VP_REGISTERS,
                MSHV_RUN_VP,
                MSHV_GET_VP_STATE,
                MSHV_ROOT_HVCALL,
                TCGETS,
            ],
        ),
        None => Err(HyperlightError::NoHypervisorFound),
    }
}

/// The `ioctl` requests that the thread running guest code may make on the
/// hypervisor `hv`, each allowed where the request number is the call's
/// second argument.
pub fn ioctl_allowlist(hv: Option<HypervisorType>) -> (r: Result<Vec<u64>, HyperlightError>)
    ensures
        match spec_ioctl_allowlist(hv) {
            Ok(s) => r matches Ok(v) && v@ == s,
            Err(e) => r == Err::<Vec<u64>, HyperlightError>(e),
        },
{
    match hv {
        Some(HypervisorType::Kvm) => {
            let v = vec![KVM_SET_REGS, KVM_SET_FPU, KVM_RUN, KVM_GET_REGS, TCGETS];
            assert(v@ =~= seq![KVM_SET_REGS, KVM_SET_FPU, KVM_RUN, KVM_GET_REGS, TCGETS]);
            Ok(v)
        },
        Some(HypervisorType::Mshv) => {
            let v = vec![
                MSHV_UNMAP_GUEST_MEMORY,
                MSHV_GET_VP_REGISTERS,
                MSHV_SET_VP_REGISTERS,
                MSHV_RUN_VP,
                MSHV_GET_VP_STATE,
                MSHV_ROOT_HVCALL,
                TCGETS,
            ];
            assert(v@ =~= seq![
                MSHV_UNMAP_GUEST_MEMORY,
                MSHV_GET_VP_REGISTERS,
                MSHV_SET_VP_REGISTERS,
                MSHV_RUN_VP,
                MSHV_GET_VP_STATE,
                MSHV_ROOT_HVCALL,
                TCGETS,
            ]);
            Ok(v)
        },
        None => Err(HyperlightError::NoHypervisorFound),
    }
}

/// The `fcntl` command that reads a file descriptor's flags.
pub const F_GETFD: u64 = 1;

/// The system calls that the thread running guest code may make.
#[derive(Debug, Clone, Copy, PartialEq, Eq)]
pub enum Syscall {
    /// `mmap`.
    Mmap,
    /// `write`.
    Write,
    /// `close`.
    Close,
    /// `futex`.
    Futex,
    /// `rt_sigaction`.
    RtSigaction,
    /// `madvise`.
    Madvise,
    /// `ioctl`.
    Ioctl,
    /// `munmap`.
    Munmap,
    /// `mprotect`.
    Mprotect,
    /// `rt_sigprocmask`.
    RtSigprocmask,
    /// `sched_yield`.
    SchedYield,
    /// `sigaltstack`.
    Sigaltstack,
    /// `getrandom`.
    Getrandom,
    /// `exit`.
    Exit,
    /// `rt_sigreturn`.
    RtSigreturn,
    /// `clock_nanosleep`.
    ClockNanosleep,
    /// `fcntl`.
    Fcntl,
}

/// The system calls that the thread running guest code on hypervisor `hv`
/// may make, each with the values its second argument may take (any, where
/// there are none): `ioctl` only with the requests of
/// `spec_ioctl_allowlist`, and `fcntl` only to read a descriptor's flags.
pub open spec fn spec_syscalls_allowlist(hv: Option<HypervisorType>) -> Result<
    Seq<(Syscall, Seq<u64>)>,
    HyperlightError,
> {
    match spec_ioctl_allowlist(hv) {
        Err(e) => Err(e),
        Ok(ioctls) => Ok(
            seq![
                (Syscall::Mmap, Seq::empty()),
                (Syscall::Write, Seq::empty()),
                (Syscall::Close, Seq::empty()),
                (Syscall::Futex, Seq::empty()),
                (Syscall::RtSigaction, Seq::empty()),
                (Syscall::Madvise, Seq::empty()),
                (Syscall::Ioctl, ioctls),
                (Syscall::Munmap, Seq::empty()),
                (Syscall::Mprotect, Seq::empty()),
                (Syscall::RtSigprocmask, Seq::empty()),
                (Syscall::SchedYield, Seq::empty()),
                (Syscall::Sigaltstack, Seq::empty()),
                (Syscall::Getrandom, Seq::empty()),
                (Syscall::Exit, Seq::empty()),
                (Syscall::RtSigreturn, Seq::empty()),
                (Syscall::ClockNanosleep, Seq::empty()),
                (Syscall::Fcntl, seq![F_GETFD]),
            ],
        ),
    }
}

/// The system calls that the thread running guest code on hypervisor `hv`
/// may make, each with the values its second argument may take (any, where
/// there are none). Fails where no hypervisor is present.
pub fn syscalls_allowlist(hv: Option<HypervisorType>) -> (r: Result<
    Vec<(Syscall, Vec<u64>)>,
    HyperlightError,
>)
    ensures
        match spec_syscalls_allowlist(hv) {
            Ok(s) => r matches Ok(v) && v@.len() == s.len() && forall|i: int|
                0 <= i < s.len() ==> (#[trigger] v@[i]).0 == s[i].0 && v@[i].1@ == s[i].1,
            Err(e) => r == Err::<Vec<(Syscall, Vec<u64>)>, HyperlightError>(e),
        },
{
    let ioctls = ioctl_allowlist(hv)?;
    let ghost ioctls_spec = ioctls@;
    let mut v: Vec<(Syscall, Vec<u64>)> = Vec::new();
    v.push((Syscall::Mmap, Vec::new()));
    v.push((Syscall::Write, Vec::new()));
    v.push((Syscall::Close, Vec::new()));
    v.push((Syscall::Futex, Vec::new()));
    v.push((Syscall::RtSigaction, Vec::new()));
    v.push((Syscall::Madvise, Vec::new()));
    v.push((Syscall::Ioctl, ioctls));
    v.push((Syscall::Munmap, Vec::new()));
    v.push((Syscall::Mprotect, Vec::new()));
    v.push((Syscall::RtSigprocmask, Vec::new()));
    v.push((Syscall::SchedYield, Vec::new()));
    v.push((Syscall::Sigaltstack, Vec::new()));
    v.push((Syscall::Getrandom, Vec::new()));
    v.push((Syscall::Exit, Vec::new()));
    v.push((Syscall::RtSigreturn, Vec::new()));
    v.push((Syscall::ClockNanosleep, Vec::new()));
    let fcntl_args = vec![F_GETFD];
    v.push((Syscall::Fcntl, fcntl_args));
    proof {
        let s = spec_syscalls_allowlist(hv)->Ok_0;
        assert(v@[6].1@ == ioctls_spec);
        assert(v@[16].1@ =~= seq![F_GETFD]);
        assert forall|i: int| 0 <= i < s.len() implies (#[trigger] v@[i]).0 == s[i].0 && v@[i].1@
            == s[i].1 by {
            if i != 6 && i != 16 {
                assert(v@[i].1@ =~= Seq::<u64>::empty());
            }
        }
    }
    Ok(v)
}

/// Whether the allowlist `s` has an entry for the system call `c`.
pub open spec fn lists_call(s: Seq<(Syscall, Seq<u64>)>, c: Syscall) -> bool {
    exists|i: int| 0 <= i < s.len() && #[trigger] s[i].0 == c
}

/// The allowlist names every system call of `Syscall` exactly once, so a
/// write by the thread that runs the guest, like every other call listed
/// there, is allowed: `ioctl` with the requests of the hypervisor's ioctl
/// allowlist, `fcntl` only with `F_GETFD`, and every other call with any
/// argument. It exists exactly when the ioctl allowlist does.
pub proof fn lemma_syscalls_allowlist_names_each_call_once(hv: Option<HypervisorType>)
    ensures
        spec_syscalls_allowlist(hv) is Ok <==> spec_ioctl_allowlist(hv) is Ok,
        spec_syscalls_allowlist(hv) matches Ok(s) ==> {
            &&& s.len() == 17
            &&& forall|c: Syscall| #[trigger] lists_call(s, c)
            &&& forall|i: int, j: int|
                0 <= i < s.len() && 0 <= j < s.len() && i != j ==> #[trigger] s[i].0 != #[trigger] s[j].0
            &&& forall|i: int|
                0 <= i < s.len() ==> (#[trigger] s[i]).1 == (if s[i].0 == Syscall::Ioctl {
                    spec_ioctl_allowlist(hv)->Ok_0
                } else if s[i].0 == Syscall::Fcntl {
                    seq![F_GETFD]
                } else {
                    Seq::<u64>::empty()
                })
        },
{
    if let Ok(s) = spec_syscalls_allowlist(hv) {
        assert forall|c: Syscall| #[trigger] lists_call(s, c) by {
            match c {
                Syscall::Mmap => assert(s[0].0 == c),
                Syscall::Write => assert(s[1].0 == c),
                Syscall::Close => assert(s[2].0 == c),
                Syscall::Futex => assert(s[3].0 == c),
                Syscall::RtSigaction => assert(s[4].0 == c),
                Syscall::Madvise => assert(s[5].0 == c),
                Syscall::Ioctl => assert(s[6].0 == c),
                Syscall::Munmap => assert(s[7].0 == c),
                Syscall::Mprotect => assert(s[8].0 == c),
                Syscall::RtSigprocmask => assert(s[9].0 == c),
                Syscall::SchedYield => assert(s[10].0 == c),
                Syscall::Sigaltstack => assert(s[11].0 == c),
                Syscall::Getrandom => assert(s[12].0 == c),
                Syscall::Exit => assert(s[13].0 == c),
                Syscall::RtSigreturn => assert(s[14].0 == c),
                Syscall::ClockNanosleep => assert(s[15].0 == c),
                Syscall::Fcntl => assert(s[16].0 == c),
            }
        }
    }
}

/// The ioctl allowlist names no request twice, always allows `TCGETS`, and
/// allows running the virtual CPU of the hypervisor it is for: `KVM_RUN`
/// for KVM, `MSHV_RUN_VP` for the Microsoft hypervisor. Without a
/// hypervisor there is none.
pub proof fn lemma_ioctl_allowlist_runs_the_vcpu(hv: Option<HypervisorType>)
    ensures
        hv is None <==> spec_ioctl_allowlist(hv) is Err,
        spec_ioctl_allowlist(hv) matches Ok(s) ==> {
            &&& s.contains(TCGETS)
            &&& forall|i: int, j: int|
                0 <= i < s.len() && 0 <= j < s.len() && i != j ==> #[trigger] s[i] != #[trigger] s[j]
        },
        hv == Some(HypervisorType::Kvm) ==> spec_ioctl_allowlist(hv)->Ok_0.contains(KVM_RUN),
        hv == Some(HypervisorType::Mshv) ==> spec_ioctl_allowlist(hv)->Ok_0.contains(MSHV_RUN_VP),
{
    if let Ok(s) = spec_ioctl_allowlist(hv) {
        assert(s[s.len() - 1] == TCGETS);
        match hv {
            Some(HypervisorType::Kvm) => assert(s[2] == KVM_RUN),
            Some(HypervisorType::Mshv) => assert(s[3] == MSHV_RUN_VP),
            None => {},
        }
    }
}

} // verus!
