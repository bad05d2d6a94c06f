use hyperlight_host::error::HyperlightError;
use hyperlight_host::mem::config::SandboxMemoryConfiguration;
use hyperlight_host::mem::layout::SandboxMemoryLayout;
use hyperlight_host::mem::mgr::SandboxMemoryManager;
use hyperlight_host::mem::ptr::RawPtr;
use hyperlight_host::mem::ptr_offset::Offset;
use hyperlight_host::mem::shared_mem::SharedMemory;
use hyperlight_host::sandbox::guest_mgr::{may_enter, GuestMgr};
use hyperlight_host::sandbox::mem_mgr::MemMgr;
use hyperlight_host::sandbox_state::reset::RestoreSandbox;
use hyperlight_host::sandbox_state::sandbox::Sandbox;
use std::sync::atomic::{AtomicI32, Ordering};

struct CountingSandbox {
    flag: AtomicI32,
    runs: i32,
    needs_reset: bool,
    reusable: bool,
    rsp_resets: u32,
    mgr: SandboxMemoryManager,
}

impl std::fmt::Debug for CountingSandbox {
    fn fmt(&self, f: &mut std::fmt::Formatter<'_>) -> std::fmt::Result {
        f.write_str("CountingSandbox")
    }
}

fn new_mgr(in_process: bool) -> SandboxMemoryManager {
    let cfg = SandboxMemoryConfiguration::default();
    let layout = SandboxMemoryLayout::new(cfg, 0x1000, 0x1000, 0x1000).unwrap();
    let shared_mem = SharedMemory::new(layout.get_memory_size().unwrap()).unwrap();
    SandboxMemoryManager::new(layout, shared_mem, in_process, RawPtr::from(0), Offset::from(0))
}

impl CountingSandbox {
    fn new(reusable: bool, in_process: bool) -> Self {
        CountingSandbox {
            flag: AtomicI32::new(0),
            runs: 0,
            needs_reset: false,
            reusable,
            rsp_resets: 0,
            mgr: new_mgr(in_process),
        }
    }
}

impl Sandbox for CountingSandbox {
    fn check_stack_guard(&self) -> Result<bool, HyperlightError> {
        Ok(true)
    }
}

impl MemMgr for CountingSandbox {
    fn mem_mgr(&self) -> &SandboxMemoryManager {
        &self.mgr
    }
}

impl GuestMgr for CountingSandbox {
    fn runs(&self) -> i32 {
        self.runs
    }
    fn state_reset_needed(&self) -> bool {
        self.needs_reset
    }
    fn get_executing_guest_call(&self) -> &AtomicI32 {
        &self.flag
    }
    fn get_executing_guest_call_mut(&mut self) -> &mut AtomicI32 {
        &mut self.flag
    }
    fn increase_num_runs(&mut self) {
        self.runs += 1;
    }
    fn get_num_runs(&self) -> i32 {
        self.runs
    }
    fn needs_state_reset(&self) -> bool {
        self.needs_reset
    }
    fn set_needs_state_reset(&mut self, val: bool) {
        self.needs_reset = val;
    }
}

impl RestoreSandbox for CountingSandbox {
    fn reusable(&self) -> bool {
        self.reusable
    }
    fn is_reusable(&self) -> bool {
        self.reusable
    }
    fn get_mem_mgr_mut(&mut self) -> &mut SandboxMemoryManager {
        &mut self.mgr
    }
    fn reset_stack_pointer(&mut self) -> Result<(), HyperlightError> {
        self.rsp_resets += 1;
        Ok(())
    }
}

#[test]
fn single_use_sandbox_runs_once() {
    let mut sbox = CountingSandbox::new(false, false);
    assert_eq!(sbox.reset_state(), Ok(()));
    assert_eq!(sbox.get_num_runs(), 1);
    assert_eq!(sbox.reset_state(), Err(HyperlightError::SandboxNotReusable));
    assert_eq!(sbox.get_num_runs(), 1);
    assert_eq!(sbox.rsp_resets, 0);
}

#[test]
fn reusable_sandbox_restores_memory_when_needed() {
    let mut sbox = CountingSandbox::new(true, false);
    sbox.mgr.shared_mem.write_u8(100, 7).unwrap();
    sbox.mgr.snapshot_state().unwrap();
    sbox.mgr.shared_mem.write_u8(100, 9).unwrap();
    // no reset needed: memory stays as it is
    assert_eq!(sbox.reset_state(), Ok(()));
    assert_eq!(sbox.mgr.shared_mem.read_u8(100), Ok(9));
    assert_eq!(sbox.rsp_resets, 0);
    // reset needed: memory goes back to the snapshot, the stack pointer is reset
    sbox.set_needs_state_reset(true);
    assert_eq!(sbox.reset_state(), Ok(()));
    assert_eq!(sbox.mgr.shared_mem.read_u8(100), Ok(7));
    assert_eq!(sbox.rsp_resets, 1);
    assert!(!sbox.needs_state_reset());
    assert_eq!(sbox.get_num_runs(), 2);
}

#[test]
fn restore_without_snapshot_fails() {
    let mut sbox = CountingSandbox::new(true, true);
    sbox.set_needs_state_reset(true);
    assert_eq!(sbox.restore_state(), Err(HyperlightError::NoMemorySnapshot));
    assert!(sbox.needs_state_reset());
    sbox.mgr.snapshot_state().unwrap();
    assert_eq!(sbox.restore_state(), Ok(()));
    // in process there is no virtual CPU whose stack pointer is reset
    assert_eq!(sbox.rsp_resets, 0);
    assert!(!sbox.needs_state_reset());
}

#[test]
fn dynamic_method_enter_and_exit() {
    let mut sbox = CountingSandbox::new(true, false);
    assert!(sbox.enter_dynamic_method());
    assert_eq!(sbox.flag.load(Ordering::SeqCst), 2);
    sbox.exit_dynamic_method(true);
    assert_eq!(sbox.flag.load(Ordering::SeqCst), 0);
    assert!(sbox.needs_state_reset());
    sbox.flag.store(1, Ordering::SeqCst);
    assert!(!sbox.enter_dynamic_method());
    sbox.set_needs_state_reset(false);
    sbox.exit_dynamic_method(false);
    assert!(!sbox.needs_state_reset());
    assert_eq!(sbox.flag.load(Ordering::SeqCst), 1);
}

#[test]
fn may_enter_unless_a_host_call_runs() {
    assert!(may_enter(0));
    assert!(!may_enter(1));
    assert!(may_enter(2));
}

#[test]
fn reusable_sandbox_without_a_snapshot_fails_to_reset() {
    let mut sbox = CountingSandbox::new(true, true);
    sbox.set_needs_state_reset(true);
    assert_eq!(sbox.reset_state(), Err(HyperlightError::NoMemorySnapshot));
    assert_eq!(sbox.get_num_runs(), 0);
    assert!(sbox.needs_state_reset());
}
