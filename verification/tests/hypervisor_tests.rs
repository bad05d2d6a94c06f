use hyperlight_host::error::HyperlightError;
use hyperlight_host::hypervisor::hypervisor_mem::{HypervLinuxDriverAddrs, HypervisorAddrs};
use hyperlight_host::hypervisor::kvm::kvm_is_usable;
use hyperlight_host::hypervisor::{
    get_memory_access_violation, hyperv_linux, HyperlightExit, RunStep, VirtualCPU,
};
use hyperlight_host::mem::memory_region::{
    MemoryRegion, MemoryRegionFlags, MemoryRegionType, MemoryRegionVecBuilder,
};
use hyperlight_host::mem::shared_mem::SharedMemory;
use hyperlight_host::sandbox::hypervisor::{choose_hypervisor, is_hypervisor_present as any_hypervisor_present, HypervisorType};

#[test]
fn is_hypervisor_present() {
    // No Microsoft hypervisor is expected unless the environment says so.
    let result = hyperv_linux::is_hypervisor_present();
    assert_eq!(result, false);
}

#[test]
fn test_is_hypervisor_present() {
    // Neither hypervisor is expected unless the environment says so.
    assert!(!any_hypervisor_present());
}

#[test]
fn kvm_needs_version_12_and_user_memory() {
    assert!(kvm_is_usable(12, true));
    assert!(!kvm_is_usable(12, false));
    assert!(!kvm_is_usable(11, true));
}

#[test]
fn hypervisor_choice_prefers_mshv() {
    assert_eq!(choose_hypervisor(true, true), Some(HypervisorType::Mshv));
    assert_eq!(choose_hypervisor(false, true), Some(HypervisorType::Kvm));
    assert_eq!(choose_hypervisor(false, false), None);
}

#[test]
fn addrs_for_shared_mem() {
    let gm = SharedMemory::new(0x1000).unwrap();
    let a = HypervisorAddrs::for_shared_mem(&gm, 0x1000, 0x203040, 0x200).unwrap();
    assert_eq!(a.host_addr, gm.base_addr() as u64);
    assert_eq!(a.mem_size, 0x1000);
    assert_eq!(a.entrypoint, 0x203040);
    assert_eq!(a.guest_pfn, 0x200);
    let b = HypervLinuxDriverAddrs::for_shared_mem(&gm, 0x2000, 1, 2).unwrap();
    assert_eq!(b.host_addr, gm.base_addr() as u64);
    assert_eq!(b.mem_size, 0x2000);
    assert_eq!(b.entrypoint, 1);
    assert_eq!(b.guest_pfn, 2);
}

fn regions() -> Vec<MemoryRegion> {
    let mut b = MemoryRegionVecBuilder::new(0x200000, 0x7000_0000);
    assert_eq!(
        b.push_page_aligned(0x3000, MemoryRegionFlags::read().union(MemoryRegionFlags::write()), MemoryRegionType::PageTables),
        0x3000
    );
    assert_eq!(
        b.push_page_aligned(0x10, MemoryRegionFlags::read().union(MemoryRegionFlags::execute()), MemoryRegionType::Code),
        0x4000
    );
    assert_eq!(b.push(0x1000, MemoryRegionFlags::none(), MemoryRegionType::GuardPage), 0x5000);
    b.build()
}

#[test]
fn region_builder_lays_regions_end_to_end() {
    let rs = regions();
    assert_eq!(rs.len(), 3);
    assert_eq!(rs[0].guest_region, 0x200000..0x203000);
    assert_eq!(rs[0].host_region, 0x7000_0000..0x7000_3000);
    assert_eq!(rs[1].guest_region, 0x203000..0x204000);
    assert_eq!(rs[2].guest_region, 0x204000..0x205000);
    assert_eq!(rs[2].host_region, 0x7000_4000..0x7000_5000);
    for w in rs.windows(2) {
        assert_eq!(w[0].guest_region.end, w[1].guest_region.start);
        assert_eq!(w[0].host_region.end, w[1].host_region.start);
    }
}

#[test]
fn memory_access_violations() {
    let rs = regions();
    assert!(get_memory_access_violation(0x200010, &rs, MemoryRegionFlags::write()).is_none());
    match get_memory_access_violation(0x203010, &rs, MemoryRegionFlags::write()) {
        Some(HyperlightExit::AccessViolation(addr, tried, perm)) => {
            assert_eq!(addr, 0x203010);
            assert_eq!(tried, MemoryRegionFlags::write());
            assert_eq!(perm.bits(), 5);
        }
        _ => panic!("expected an access violation"),
    }
    assert!(get_memory_access_violation(0x300000, &rs, MemoryRegionFlags::read()).is_none());
}

#[test]
fn flags_text_and_bits() {
    let rwx = MemoryRegionFlags::read()
        .union(MemoryRegionFlags::write())
        .union(MemoryRegionFlags::execute());
    assert_eq!(rwx.to_string(), "READ | WRITE | EXECUTE");
    assert_eq!(MemoryRegionFlags::none().to_string(), "NONE");
    assert_eq!(
        MemoryRegionFlags::read().union(MemoryRegionFlags::execute()).to_string(),
        "READ | EXECUTE"
    );
    assert!(rwx.contains(MemoryRegionFlags::write()));
    assert!(!MemoryRegionFlags::read().contains(MemoryRegionFlags::write()));
    assert!(MemoryRegionFlags::none().is_empty());
    assert_eq!(rwx.hv_map_gpa_flags(), 1 | 2 | 12);
    assert_eq!(
        MemoryRegionFlags::try_from_access_type(1).unwrap(),
        MemoryRegionFlags::write()
    );
    assert_eq!(
        MemoryRegionFlags::try_from_access_type(7).err(),
        Some(HyperlightError::UnknownMemoryAccessType(7))
    );
}

#[test]
fn mshv_region_fields() {
    let rs = regions();
    let f = rs[1].mshv_fields();
    assert_eq!(f.size, 0x1000);
    assert_eq!(f.guest_pfn, 0x203);
    assert_eq!(f.userspace_addr, 0x7000_3000);
    assert_eq!(f.flags, 1 | 12);
    assert_eq!(f.mem_flags, 2);
    let p = rs[0].mshv_fields();
    assert_eq!(p.flags, 1 | 2);
    assert_eq!(p.mem_flags, 1);
    assert_eq!(rs[2].mshv_fields().mem_flags, 0);
}

#[test]
fn run_steps() {
    assert!(VirtualCPU::before_run(false).is_none());
    assert!(matches!(
        VirtualCPU::before_run(true),
        Some(RunStep::Cancel(HyperlightError::ExecutionCanceledByHost))
    ));
    assert!(matches!(VirtualCPU::after_exit(HyperlightExit::Halt()), RunStep::Done));
    assert!(matches!(VirtualCPU::after_exit(HyperlightExit::Retry()), RunStep::Continue));
    assert!(matches!(
        VirtualCPU::after_exit(HyperlightExit::IoOut(99, vec![1], 0x10, 2)),
        RunStep::HandleIo(99, _, 0x10, 2)
    ));
    assert!(matches!(
        VirtualCPU::after_exit(HyperlightExit::Mmio(0x1234)),
        RunStep::CallMemAccessHandlerThenFail(HyperlightError::MmioAccess(0x1234))
    ));
    assert!(matches!(
        VirtualCPU::after_exit(HyperlightExit::Cancelled()),
        RunStep::Cancel(HyperlightError::ExecutionCanceledByHost)
    ));
    assert!(matches!(
        VirtualCPU::after_exit(HyperlightExit::Unknown("x".to_string())),
        RunStep::Fail(HyperlightError::UnexpectedVmExit(_))
    ));
    assert!(matches!(
        VirtualCPU::after_exit(HyperlightExit::AccessViolation(
            1,
            MemoryRegionFlags::write(),
            MemoryRegionFlags::read()
        )),
        RunStep::Fail(HyperlightError::MemoryAccessViolation(1, _, _))
    ));
}
