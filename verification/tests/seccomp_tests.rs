use hyperlight_host::error::HyperlightError;
use hyperlight_host::sandbox::hypervisor::HypervisorType;
use hyperlight_host::seccomp::{ioctl_allowlist, syscalls_allowlist, Syscall, F_GETFD, TCGETS};

#[test]
fn ioctl_requests_per_hypervisor() {
    assert_eq!(
        ioctl_allowlist(Some(HypervisorType::Kvm)).unwrap(),
        vec![0x4090_ae82, 0x41a0_ae8d, 0xae80, 0x8090_ae81, TCGETS]
    );
    assert_eq!(
        ioctl_allowlist(Some(HypervisorType::Mshv)).unwrap(),
        vec![0x4020_b803, 0xc010_b805, 0x4010_b806, 0x8100_b807, 0xc010_b80a, 0xc020_b835, 0x5401]
    );
    assert_eq!(ioctl_allowlist(None), Err(HyperlightError::NoHypervisorFound));
}

#[test]
fn syscalls_of_the_handler_thread() {
    let list = syscalls_allowlist(Some(HypervisorType::Kvm)).unwrap();
    assert_eq!(list.len(), 17);
    assert_eq!(list[0], (Syscall::Mmap, vec![]));
    assert_eq!(list[6], (Syscall::Ioctl, ioctl_allowlist(Some(HypervisorType::Kvm)).unwrap()));
    assert_eq!(list[16], (Syscall::Fcntl, vec![F_GETFD]));
    assert_eq!(F_GETFD, 1);
    // every other call is allowed with any arguments
    for (i, (_, args)) in list.iter().enumerate() {
        if i != 6 && i != 16 {
            assert!(args.is_empty());
        }
    }
    let mshv = syscalls_allowlist(Some(HypervisorType::Mshv)).unwrap();
    assert_eq!(mshv[6].1.len(), 7);
    assert_eq!(syscalls_allowlist(None), Err(HyperlightError::NoHypervisorFound));
}
