use hyperlight_host::error::HyperlightError;
use hyperlight_host::hypervisor::hyperv_linux::{
    exit_for_mshv_run, initial_registers, io_exit_values as mshv_io_exit_values, MshvRunOutcome,
    CS_HIGH,
};
use hyperlight_host::hypervisor::kvm::{
    dispatch_regs, exit_for_kvm_run, initial_regs, initial_sregs, io_exit_values as kvm_io_exit_values,
    kvm_memory_regions, KvmRegisters, KvmRunOutcome, KVM_MEM_READONLY,
};
use hyperlight_host::hypervisor::{
    cancel_outcome, cancel_signal_limit, cancel_step, check_signal_result, check_signal_target,
    entry_arguments, long_mode_registers, next_rip, CancelAction, HyperlightExit,
};
use hyperlight_host::mem::memory_region::{
    MemoryRegion, MemoryRegionFlags, MemoryRegionType, MemoryRegionVecBuilder,
};
use hyperlight_host::mem::ptr::{GuestPtr, RawPtr};
use hyperlight_host::mem::ptr_offset::Offset;

fn guest_regions() -> Vec<MemoryRegion> {
    let rw = MemoryRegionFlags::read().union(MemoryRegionFlags::write());
    let rx = MemoryRegionFlags::read().union(MemoryRegionFlags::execute());
    let mut b = MemoryRegionVecBuilder::new(0x200000, 0x7000_0000);
    b.push_page_aligned(0x3000, rw, MemoryRegionType::PageTables);
    b.push_page_aligned(0x1000, rx, MemoryRegionType::Code);
    b.push_page_aligned(0x1000, MemoryRegionFlags::read(), MemoryRegionType::Peb);
    b.build()
}

#[test]
fn long_mode_control_register_values() {
    let r = long_mode_registers(0x201000);
    assert_eq!(r.cr3, 0x201000);
    assert_eq!(r.cr0, 0x8005_0033);
    assert_eq!(r.cr4, 0x620);
    assert_eq!(r.efer, 0x500);
    let s = initial_sregs(0x201000);
    assert_eq!(s.control, r);
    assert_eq!(s.cs_l, 1);
}

#[test]
fn entry_point_arguments_and_registers() {
    let args = entry_arguments(RawPtr::from(0x230000), 1234567890, 4096, 3);
    assert_eq!((args.rcx, args.rdx, args.r8, args.r9), (0x230000, 1234567890, 4096, 3));
    let rsp = GuestPtr::try_from_raw_ptr(RawPtr::from(0x20_5000)).unwrap();
    let regs = initial_regs(0x203040, rsp, args).unwrap();
    assert_eq!(
        regs,
        KvmRegisters { rip: 0x203040, rsp: 0x20_5000, rcx: 0x230000, rdx: 1234567890, r8: 4096, r9: 3 }
    );
    let too_far = GuestPtr::try_from_offset(Offset::new(u64::MAX)).unwrap();
    assert_eq!(initial_regs(0x203040, too_far, args), Err(HyperlightError::ArithmeticOverflow));
    assert_eq!(
        dispatch_regs(RawPtr::from(0x203100), 0x20_4ff0),
        KvmRegisters { rip: 0x203100, rsp: 0x20_4ff0, rcx: 0, rdx: 0, r8: 0, r9: 0 }
    );
    assert_eq!(next_rip(0x203040, 2), 0x203042);
}

#[test]
fn mshv_initial_registers() {
    let entry = GuestPtr::try_from_raw_ptr(RawPtr::from(0x203040)).unwrap();
    let rsp = GuestPtr::try_from_raw_ptr(RawPtr::from(0x20_5000)).unwrap();
    let pml4 = GuestPtr::try_from_raw_ptr(RawPtr::from(0x200000)).unwrap();
    let regs = initial_registers(entry, rsp, pml4).unwrap();
    assert_eq!((regs.rax, regs.rbx, regs.rflags), (2, 2, 2));
    assert_eq!((regs.rip, regs.rsp), (0x203040, 0x20_5000));
    assert_eq!(regs.control, long_mode_registers(0x200000));
    assert_eq!((regs.cs_low, regs.cs_high), (0, 0xa09b0008ffffffff));
    assert_eq!(CS_HIGH, 0xa09b0008ffffffff);
    let too_far = GuestPtr::try_from_offset(Offset::new(u64::MAX)).unwrap();
    assert_eq!(initial_registers(entry, too_far, pml4), Err(HyperlightError::ArithmeticOverflow));
}

#[test]
fn io_exit_payloads_and_next_instruction() {
    assert_eq!(kvm_io_exit_values(&[0x2a, 0x01], 0x203040, 1), Ok((0x2a, 0x203041)));
    assert_eq!(kvm_io_exit_values(&[], 0x203040, 1), Err(HyperlightError::NoIoData));
    let data = 0x0102_0304_0506_0708_u64.to_le_bytes();
    assert_eq!(mshv_io_exit_values(&data, 0x100, 2), (0x0102_0304_0506_0708, 0x102));
}

#[test]
fn kvm_memory_slots() {
    let rs = guest_regions();
    let slots = kvm_memory_regions(&rs);
    assert_eq!(slots.len(), 3);
    assert_eq!(slots[0].slot, 0);
    assert_eq!(slots[0].guest_phys_addr, 0x200000);
    assert_eq!(slots[0].memory_size, 0x3000);
    assert_eq!(slots[0].userspace_addr, 0x7000_0000);
    assert_eq!(slots[0].flags, 0);
    assert_eq!(slots[1].slot, 1);
    assert_eq!(slots[1].flags, 0);
    assert_eq!(slots[2].slot, 2);
    assert_eq!(slots[2].guest_phys_addr, 0x204000);
    assert_eq!(slots[2].userspace_addr, 0x7000_4000);
    assert_eq!(slots[2].flags, KVM_MEM_READONLY);
    assert_eq!(KVM_MEM_READONLY, 2);
}

#[test]
fn kvm_exits() {
    let rs = guest_regions();
    assert!(matches!(exit_for_kvm_run(KvmRunOutcome::Hlt, &rs), Ok(HyperlightExit::Halt())));
    match exit_for_kvm_run(KvmRunOutcome::IoOut(99, vec![7], 0x203040), &rs) {
        Ok(HyperlightExit::IoOut(port, data, rip, len)) => {
            assert_eq!((port, data, rip, len), (99, vec![7], 0x203040, 1));
        }
        _ => panic!("expected an IO exit"),
    }
    // reading the code is allowed, so the exit is a plain MMIO one
    assert!(matches!(
        exit_for_kvm_run(KvmRunOutcome::MmioRead(0x203010), &rs),
        Ok(HyperlightExit::Mmio(0x203010))
    ));
    // writing to the code is not
    match exit_for_kvm_run(KvmRunOutcome::MmioWrite(0x203010), &rs) {
        Ok(HyperlightExit::AccessViolation(addr, tried, perm)) => {
            assert_eq!(addr, 0x203010);
            assert_eq!(tried, MemoryRegionFlags::write());
            assert_eq!(perm, MemoryRegionFlags::read().union(MemoryRegionFlags::execute()));
        }
        _ => panic!("expected an access violation"),
    }
    // outside every region
    assert!(matches!(
        exit_for_kvm_run(KvmRunOutcome::MmioWrite(0x900000), &rs),
        Ok(HyperlightExit::Mmio(0x900000))
    ));
    match exit_for_kvm_run(KvmRunOutcome::Other("Shutdown".to_string()), &rs) {
        Ok(HyperlightExit::Unknown(s)) => assert_eq!(s, "Shutdown"),
        _ => panic!("expected an unknown exit"),
    }
    assert!(matches!(exit_for_kvm_run(KvmRunOutcome::Interrupted, &rs), Ok(HyperlightExit::Cancelled())));
    assert!(matches!(exit_for_kvm_run(KvmRunOutcome::TryAgain, &rs), Ok(HyperlightExit::Retry())));
    assert!(matches!(
        exit_for_kvm_run(KvmRunOutcome::Failed(5), &rs),
        Err(HyperlightError::VcpuRunFailed(5))
    ));
}

#[test]
fn mshv_exits() {
    let rs = guest_regions();
    assert!(matches!(exit_for_mshv_run(MshvRunOutcome::Halt, &rs), Ok(HyperlightExit::Halt())));
    match exit_for_mshv_run(MshvRunOutcome::IoPortIntercept(101, 0x1122, 0x203040, 2), &rs) {
        Ok(HyperlightExit::IoOut(port, data, rip, len)) => {
            assert_eq!(port, 101);
            assert_eq!(data, vec![0x22, 0x11, 0, 0, 0, 0, 0, 0]);
            assert_eq!((rip, len), (0x203040, 2));
        }
        _ => panic!("expected an IO exit"),
    }
    assert!(matches!(
        exit_for_mshv_run(MshvRunOutcome::UnmappedGpa(0x900000), &rs),
        Ok(HyperlightExit::Mmio(0x900000))
    ));
    // a write (access type 1) to the read-only PEB page
    match exit_for_mshv_run(MshvRunOutcome::GpaIntercept(0x204008, 1), &rs) {
        Ok(HyperlightExit::AccessViolation(addr, tried, perm)) => {
            assert_eq!(addr, 0x204008);
            assert_eq!(tried, MemoryRegionFlags::write());
            assert_eq!(perm, MemoryRegionFlags::read());
        }
        _ => panic!("expected an access violation"),
    }
    // an execution (access type 2) of the code is allowed
    assert!(matches!(
        exit_for_mshv_run(MshvRunOutcome::GpaIntercept(0x203000, 2), &rs),
        Ok(HyperlightExit::Mmio(0x203000))
    ));
    assert!(matches!(
        exit_for_mshv_run(MshvRunOutcome::GpaIntercept(0x203000, 7), &rs),
        Err(HyperlightError::UnknownMemoryAccessType(7))
    ));
    assert!(matches!(
        exit_for_mshv_run(MshvRunOutcome::OtherMessage(0x8001_0001), &rs),
        Err(HyperlightError::UnknownRunMessage(0x8001_0001))
    ));
    assert!(matches!(exit_for_mshv_run(MshvRunOutcome::Interrupted, &rs), Ok(HyperlightExit::Cancelled())));
    assert!(matches!(exit_for_mshv_run(MshvRunOutcome::TryAgain, &rs), Ok(HyperlightExit::Retry())));
    assert!(matches!(
        exit_for_mshv_run(MshvRunOutcome::Failed(22), &rs),
        Err(HyperlightError::VcpuRunFailed(22))
    ));
}

#[test]
fn cancelling_a_run_signals_up_to_the_limit() {
    assert_eq!(cancel_signal_limit(1_000_000), 2000);
    assert_eq!(cancel_signal_limit(499), 0);
    assert_eq!(check_signal_target(u64::MAX), Err(HyperlightError::ThreadIdUnavailable));
    assert_eq!(check_signal_target(17), Ok(()));

    // the run never stops: signals are sent `limit` times, then the host gives up
    let limit = cancel_signal_limit(1500);
    let mut count = 0;
    let mut signals = 0;
    loop {
        let (c, action) = cancel_step(false, count, limit);
        count = c;
        match action {
            CancelAction::SignalThenWait => signals += 1,
            CancelAction::Stop => break,
        }
    }
    assert_eq!(signals, 3);
    assert_eq!(count, 4);
    assert_eq!(
        cancel_outcome(false, count),
        Err(HyperlightError::HostFailedToCancelGuestExecutionSendingSignals(4))
    );

    // a run that is cancelled already needs no signal
    assert!(matches!(cancel_step(true, 0, limit), (0, CancelAction::Stop)));
    assert_eq!(cancel_outcome(true, 0), Ok(()));

    assert_eq!(check_signal_result(0, 3), Ok(()));
    assert_eq!(check_signal_result(-3, -3), Ok(()));
    assert_eq!(check_signal_result(-1, 3), Err(HyperlightError::SignalFailed(-1)));
}
