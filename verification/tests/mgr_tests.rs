use hyperlight_host::error::HyperlightError;
use hyperlight_host::mem::config::SandboxMemoryConfiguration;
use hyperlight_host::mem::layout::SandboxMemoryLayout;
use hyperlight_host::mem::mgr::{SandboxMemoryManager, STACK_COOKIE_LEN};
use hyperlight_host::mem::ptr::RawPtr;
use hyperlight_host::mem::ptr_offset::Offset;
use hyperlight_host::mem::shared_mem::SharedMemory;

fn new_mgr(in_process: bool) -> SandboxMemoryManager {
    let cfg = SandboxMemoryConfiguration::default();
    let layout = SandboxMemoryLayout::new(cfg, 0x10000, 0x10000, 0x10000).unwrap();
    let mut shared_mem = SharedMemory::new(layout.get_memory_size().unwrap()).unwrap();
    let mem_size = shared_mem.mem_size();
    layout
        .write(&mut shared_mem, SandboxMemoryLayout::BASE_ADDRESS, mem_size)
        .unwrap();
    SandboxMemoryManager::new(layout, shared_mem, in_process, RawPtr::from(0), Offset::from(0))
}

#[test]
fn get_host_error_none() {
    let mgr = new_mgr(false);
    assert_eq!(None, mgr.get_host_error().unwrap());
}

#[test]
fn round_trip_host_error() {
    let mut mgr = new_mgr(false);
    let mut err = serde_json::Map::new();
    err.insert(
        "message".to_string(),
        serde_json::Value::String("test message".to_string()),
    );
    err.insert("source".to_string(), serde_json::Value::String("rust test".to_string()));
    let err = serde_json::Value::Object(err);
    let err_json_bytes = serde_json::to_vec(&err).unwrap();
    let err_json_msg = "test error message".to_string().into_bytes();
    mgr.write_outb_error(&err_json_msg, &err_json_bytes).unwrap();

    let host_err_opt = mgr.get_host_error().expect("get_host_err should return an Ok");
    assert!(host_err_opt.is_some());
    let back: serde_json::Value = serde_json::from_slice(&host_err_opt.unwrap()).unwrap();
    assert_eq!(err, back);
    assert!(mgr.has_host_error().unwrap());
    assert_eq!(mgr.get_host_error_length().unwrap(), err_json_bytes.len() as i32);
}

#[test]
fn outb_error_too_large() {
    let mut mgr = new_mgr(false);
    let too_long = vec![b'x'; 0x101];
    assert_eq!(
        mgr.write_outb_error(&too_long, b"x"),
        Err(HyperlightError::GuestErrorTooLarge(0x101, 0x100))
    );
    let data = vec![b'y'; 0x4000];
    assert_eq!(
        mgr.write_outb_error(b"e", &data),
        Err(HyperlightError::ExceptionMessageTooBig(0x4000, 0x4000 - 4))
    );
    // The guest error was written before the host exception was refused.
    let ge = mgr.get_guest_error().unwrap();
    assert_eq!(ge.len(), 0x100);
    assert_eq!(ge[0], b'e');
}

#[test]
fn host_error_data_length_must_match() {
    let mut mgr = new_mgr(false);
    mgr.write_outb_error(b"e", b"abc").unwrap();
    let mut wrong = vec![0u8; 2];
    assert_eq!(
        mgr.get_host_error_data(&mut wrong),
        Err(HyperlightError::ExceptionDataLengthIncorrect(3, 2))
    );
    let mut right = vec![0u8; 3];
    mgr.get_host_error_data(&mut right).unwrap();
    assert_eq!(right, b"abc".to_vec());
}

#[test]
fn stack_guard_round_trip() {
    let mut mgr = new_mgr(false);
    let cookie: [u8; STACK_COOKIE_LEN] = [7u8; STACK_COOKIE_LEN];
    mgr.set_stack_guard(&cookie).unwrap();
    assert!(mgr.check_stack_guard(cookie).unwrap());
    let other: [u8; STACK_COOKIE_LEN] = [8u8; STACK_COOKIE_LEN];
    assert!(!mgr.check_stack_guard(other).unwrap());
}

#[test]
fn restore_after_snapshot() {
    let mut mgr = new_mgr(false);
    assert_eq!(mgr.restore_state(), Err(HyperlightError::NoMemorySnapshot));
    mgr.set_outb_address(0x1111).unwrap();
    mgr.snapshot_state().unwrap();
    mgr.set_outb_address(0x2222).unwrap();
    let outb = u64::from(mgr.get_layout().get_outb_pointer_offset()) as usize;
    assert_eq!(mgr.get_shared_mem().read_u64(outb).unwrap(), 0x2222);
    mgr.restore_state().unwrap();
    assert_eq!(mgr.get_shared_mem().read_u64(outb).unwrap(), 0x1111);
    // Retaking the snapshot replaces it.
    mgr.set_outb_address(0x3333).unwrap();
    mgr.snapshot_state().unwrap();
    mgr.set_outb_address(0x4444).unwrap();
    mgr.restore_state().unwrap();
    assert_eq!(mgr.get_shared_mem().read_u64(outb).unwrap(), 0x3333);
}

#[test]
fn page_tables_after_setup() {
    let mut mgr = new_mgr(false);
    let mem_size = mgr.get_shared_mem().mem_size() as u64;
    let rsp = mgr.set_up_hypervisor_partition(mem_size).unwrap();
    assert_eq!(rsp, mem_size + 0x200000 - 0x28);
    let mem = mgr.get_shared_mem();
    assert_eq!(mem.read_u64(0).unwrap(), 0x201007);
    assert_eq!(mem.read_u64(0x1000).unwrap(), 0x202007);
    assert_eq!(mem.read_u64(0x2000).unwrap(), 0x87);
    assert_eq!(mem.read_u64(0x2008).unwrap(), 0x200087);
    assert_eq!(mem.read_u64(0x2000 + 8 * 511).unwrap(), 511 * 0x200000 + 0x87);
    assert_eq!(mem.read_u64(8).unwrap(), 0);
}

#[test]
fn partition_setup_needs_page_table_room() {
    let cfg = SandboxMemoryConfiguration::default();
    let layout = SandboxMemoryLayout::new(cfg, 0x1000, 0x1000, 0x1000).unwrap();
    let shared_mem = SharedMemory::new(0x2000).unwrap();
    let mut mgr =
        SandboxMemoryManager::new(layout, shared_mem, false, RawPtr::from(0), Offset::from(0));
    assert!(matches!(
        mgr.set_up_hypervisor_partition(0x2000),
        Err(HyperlightError::BoundsCheckFailed(_, 8, 0x2000))
    ));
}

#[test]
fn peb_address_in_process_and_in_vm() {
    let mgr = new_mgr(true);
    let peb = u64::from(mgr.get_layout().get_in_process_peb_offset());
    assert_eq!(mgr.get_peb_address(0x1000).unwrap(), 0x1000 + peb);
    let mgr = new_mgr(false);
    assert_eq!(
        mgr.get_peb_address(0x1000).unwrap(),
        mgr.get_layout().get_peb_address() as u64
    );
}

#[test]
fn dispatch_function_pointer_is_checked() {
    let mut mgr = new_mgr(false);
    // Nothing written: the pointer is zero, below guest memory.
    assert_eq!(
        mgr.get_pointer_to_dispatch_function(),
        Err(HyperlightError::PointerBelowBase(0, 0x200000))
    );
    let off = u64::from(mgr.get_layout().get_dispatch_function_pointer_offset()) as usize;
    mgr.get_shared_mem_mut().write_u64(off, 0x20_1234).unwrap();
    assert_eq!(mgr.get_pointer_to_dispatch_function(), Ok(0x20_1234));
}

#[test]
fn function_call_buffers() {
    let mut mgr = new_mgr(false);
    let call = vec![4u8, 0, 0, 0, 1, 2, 3, 4];
    mgr.write_guest_function_call(&call).unwrap();
    assert_eq!(mgr.get_guest_function_call().unwrap(), call);
    let too_big = vec![0u8; 0x4001];
    assert_eq!(
        mgr.write_guest_function_call(&too_big),
        Err(HyperlightError::BufferTooLarge(0x4001, 0x4000))
    );
    mgr.write_response_from_host_method_call(&[2, 0, 0, 0, 9, 9]).unwrap();
    assert_eq!(mgr.get_guest_function_call().unwrap(), vec![2, 0, 0, 0, 9, 9]);
    // The output buffer starts with its stack pointer, 8.
    assert_eq!(mgr.get_function_call_result().unwrap().len(), 12);
    assert_eq!(mgr.read_guest_log_data().unwrap().len(), 12);
    assert_eq!(mgr.get_return_value().unwrap(), 8);
}
