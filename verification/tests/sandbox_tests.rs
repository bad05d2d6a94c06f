use hyperlight_host::error::HyperlightError;
use hyperlight_host::mem::config::SandboxMemoryConfiguration;
use hyperlight_host::mem::layout::SandboxMemoryLayout;
use hyperlight_host::mem::mgr::{SandboxMemoryManager, STACK_COOKIE_LEN};
use hyperlight_host::mem::ptr::RawPtr;
use hyperlight_host::mem::ptr_offset::Offset;
use hyperlight_host::mem::shared_mem::SharedMemory;
use hyperlight_host::option_when;
use hyperlight_host::sandbox::guest_call_exec::ExecutingGuestCall;
use hyperlight_host::sandbox::hypervisor::{plan_hypervisor_partition, HypervisorPlan};
use hyperlight_host::sandbox::mem_mgr::{handle_mem_access_impl, MemMgrWrapper};
use hyperlight_host::sandbox::outb::OutBAction;
use hyperlight_host::sandbox::run_options::SandboxRunOptions;
use hyperlight_host::sandbox::snapshot::Snapshot;

#[test]
fn run_options() {
    assert_eq!(SandboxRunOptions::default(), SandboxRunOptions::RunInHypervisor);
    assert!(!SandboxRunOptions::RunInHypervisor.in_process());
    assert!(!SandboxRunOptions::RunInHypervisor.use_loadlib());
    assert!(SandboxRunOptions::RunInProcess(false).in_process());
    assert!(!SandboxRunOptions::RunInProcess(false).use_loadlib());
    assert!(SandboxRunOptions::RunInProcess(true).use_loadlib());
}

#[test]
fn snapshot_holds_memory() {
    let s = Snapshot::new(vec![1, 2, 3]);
    assert_eq!(s.get_mem(), &vec![1, 2, 3]);
}

#[test]
fn executing_guest_call() {
    let e = ExecutingGuestCall::new(0);
    assert_eq!(e.load(), 0);
    e.store(1);
    assert_eq!(e.load(), 1);
    assert_eq!(e.compare_exchange(1, 2), Ok(1));
    assert_eq!(e.compare_exchange(1, 0), Err(HyperlightError::CompareExchangeFailed));
    let shared = e.clone();
    shared.store(0);
    assert_eq!(e.load(), 0);
}

#[test]
fn outb_actions() {
    assert_eq!(OutBAction::from_port(99), OutBAction::Log);
    assert_eq!(OutBAction::from_port(101), OutBAction::CallFunction);
    assert_eq!(OutBAction::from_port(102), OutBAction::Abort);
    assert_eq!(OutBAction::from_port(7), OutBAction::Log);
}

#[test]
fn option_when_works() {
    assert_eq!(option_when(3, true), Some(3));
    assert_eq!(option_when(3, false), None);
}

fn mgr() -> SandboxMemoryManager {
    let cfg = SandboxMemoryConfiguration::default();
    let layout = SandboxMemoryLayout::new(cfg, 0x1000, 0x1000, 0x1000).unwrap();
    let size = layout.get_memory_size().unwrap();
    let shared_mem = SharedMemory::new(size).unwrap();
    SandboxMemoryManager::new(
        layout,
        shared_mem,
        false,
        RawPtr::from(SandboxMemoryLayout::GUEST_CODE_ADDRESS as u64),
        Offset::from(0x40),
    )
}

#[test]
fn partition_plans() {
    let mut m = mgr();
    let size = m.get_shared_mem().mem_size() as u64;
    let base = m.get_shared_mem().base_addr() as u64;
    match plan_hypervisor_partition(&mut m, true, true).unwrap() {
        HypervisorPlan::Mshv(a, rsp) => {
            assert_eq!(rsp, size + SandboxMemoryLayout::BASE_ADDRESS as u64 - 0x28);
            assert_eq!(a.entrypoint, 0x203040);
            assert_eq!(a.guest_pfn, 0x200);
            assert_eq!(a.host_addr, base);
            assert_eq!(a.mem_size, size);
        }
        _ => panic!("expected the Microsoft hypervisor"),
    }
    match plan_hypervisor_partition(&mut m, false, true).unwrap() {
        HypervisorPlan::Kvm { host_addr, pml4_addr, mem_size, entrypoint, rsp } => {
            assert_eq!(host_addr, base);
            assert_eq!(pml4_addr, 0x200000);
            assert_eq!(mem_size, size);
            assert_eq!(entrypoint, 0x203040);
            assert_eq!(rsp, size + 0x200000 - 0x28);
        }
        _ => panic!("expected KVM"),
    }
    assert!(matches!(
        plan_hypervisor_partition(&mut m, false, false),
        Err(HyperlightError::NoHypervisorFound)
    ));
}

#[test]
fn mem_mgr_wrapper_guards_the_stack() {
    let cookie: [u8; STACK_COOKIE_LEN] = [0x5a; STACK_COOKIE_LEN];
    let mut m = mgr();
    m.set_stack_guard(&cookie).unwrap();
    let mut w = MemMgrWrapper::new(m, cookie);
    assert_eq!(w.get_stack_cookie(), &cookie);
    assert_eq!(w.check_stack_guard(), Ok(true));
    assert_eq!(handle_mem_access_impl(&w), Ok(()));

    // the guest overwrites the cookie
    let top = w.as_ref().get_layout().get_top_of_stack_offset().as_u64() as usize;
    w.as_mut().get_shared_mem_mut().write_u8(top, 0).unwrap();
    assert_eq!(w.check_stack_guard(), Ok(false));
    assert_eq!(handle_mem_access_impl(&w), Err(HyperlightError::StackOverflow));
}

#[test]
fn mem_mgr_wrapper_writes_the_layout() {
    let m = mgr();
    let size = m.get_shared_mem().mem_size();
    let mut w = MemMgrWrapper::new(m, [1; 16]);
    w.write_memory_layout(false).unwrap();
    let layout = w.as_ref().get_layout();
    let mem = w.as_ref().get_shared_mem();
    // the PEB records where the guest's stack ends, in guest addresses
    let min_stack = layout.get_min_guest_stack_address_offset().as_u64() as usize;
    assert_eq!(
        mem.read_u64(min_stack).unwrap(),
        (SandboxMemoryLayout::BASE_ADDRESS + size - layout.get_stack_size()) as u64
    );
    assert_eq!(w.as_ref().get_shared_mem().mem_size(), size);
}
