use hyperlight_host::error::HyperlightError;
use hyperlight_host::mem::layout::SandboxMemoryLayout;
use hyperlight_host::mem::ptr::{GuestPtr, HostPtr, RawPtr};
use hyperlight_host::mem::ptr_addr_space::{AddressSpace, GuestAddressSpace, HostAddressSpace};
use hyperlight_host::mem::ptr_offset::Offset;
use hyperlight_host::mem::shared_mem::SharedMemory;

const OFFSET: u64 = 1;

#[test]
fn host_addr_space_base() {
    let gm = SharedMemory::new(10).unwrap();
    let space = HostAddressSpace::new(&gm).unwrap();
    assert_eq!(gm.base_addr() as u64, space.base());
}

#[test]
fn guest_addr_space_base() {
    let space = GuestAddressSpace::new().unwrap();
    assert_eq!(SandboxMemoryLayout::BASE_ADDRESS as u64, space.base());
}

#[test]
fn ptr_basic_ops() {
    {
        let gm = SharedMemory::new(10).unwrap();
        let raw_host_ptr = RawPtr::from(OFFSET + gm.base_addr() as u64);
        let host_ptr = HostPtr::try_from_raw_ptr_and_mem(raw_host_ptr, &gm).unwrap();
        assert_eq!(OFFSET + gm.base_addr() as u64, host_ptr.absolute().unwrap());
    }
    {
        let raw_guest_ptr = RawPtr::from(OFFSET + SandboxMemoryLayout::BASE_ADDRESS as u64);
        let guest_ptr = GuestPtr::try_from_raw_ptr(raw_guest_ptr).unwrap();
        assert_eq!(
            OFFSET + SandboxMemoryLayout::BASE_ADDRESS as u64,
            guest_ptr.absolute().unwrap()
        );
    }
}

#[test]
fn ptr_fail() {
    {
        let gm = SharedMemory::new(10).unwrap();
        let raw_host_ptr = RawPtr::from(gm.base_addr() as u64 - 1);
        let host_ptr = HostPtr::try_from_raw_ptr_and_mem(raw_host_ptr, &gm);
        assert!(host_ptr.is_err());
    }
    {
        let raw_guest_ptr = RawPtr::from(SandboxMemoryLayout::BASE_ADDRESS as u64 - 1);
        let guest_ptr = GuestPtr::try_from_raw_ptr(raw_guest_ptr);
        assert!(guest_ptr.is_err());
        assert_eq!(
            guest_ptr.err(),
            Some(HyperlightError::PointerBelowBase(
                SandboxMemoryLayout::BASE_ADDRESS as u64 - 1,
                SandboxMemoryLayout::BASE_ADDRESS as u64
            ))
        );
    }
}

#[test]
fn round_trip() {
    let gm = SharedMemory::new(10).unwrap();
    let raw_host_ptr = RawPtr::from(gm.base_addr() as u64 + OFFSET);

    let host_ptr = {
        let hp = HostPtr::try_from_raw_ptr_and_mem(raw_host_ptr, &gm);
        assert!(hp.is_ok());
        let host_ptr = hp.unwrap();
        assert_eq!(OFFSET, u64::from(host_ptr.offset()));
        host_ptr
    };

    let guest_ptr = {
        let gp_res = host_ptr.to_foreign_ptr(GuestAddressSpace::new().unwrap());
        assert!(gp_res.is_ok());
        gp_res.unwrap()
    };
    assert_eq!(OFFSET, u64::from(guest_ptr.offset()));
    assert_eq!(
        OFFSET + SandboxMemoryLayout::BASE_ADDRESS as u64,
        guest_ptr.absolute().unwrap()
    );

    let ret_host_ptr = {
        let gp = guest_ptr.to_foreign_ptr(HostAddressSpace::new(&gm).unwrap());
        assert!(gp.is_ok());
        gp.unwrap()
    };
    assert_eq!(host_ptr.absolute().unwrap(), ret_host_ptr.absolute().unwrap());
}

#[test]
fn test_round_trip() {
    for offset in [1_u64, 2, 17, 999] {
        for guest_mem_size in [10_usize, 50, 99] {
            let shared_mem = SharedMemory::new(guest_mem_size).unwrap();
            let raw_host_ptr = RawPtr::from(shared_mem.base_addr() as u64 + offset);
            let host_ptr = HostPtr::try_from_raw_ptr_and_mem(raw_host_ptr, &shared_mem).unwrap();
            assert_eq!(offset, u64::from(host_ptr.offset()));
            let guest_ptr = host_ptr.to_foreign_ptr(GuestAddressSpace::new().unwrap()).unwrap();
            assert_eq!(offset, u64::from(guest_ptr.offset()));
            assert_eq!(
                offset + SandboxMemoryLayout::BASE_ADDRESS as u64,
                guest_ptr.absolute().unwrap()
            );
            let ret_host_ptr = guest_ptr
                .to_foreign_ptr(HostAddressSpace::new(&shared_mem).unwrap())
                .unwrap();
            assert_eq!(host_ptr.absolute().unwrap(), ret_host_ptr.absolute().unwrap());
            assert_eq!(host_ptr, ret_host_ptr);
        }
    }
}

#[test]
fn absolute_overflow_and_usize_conversion() {
    let p = GuestPtr::try_from_offset(Offset::new(u64::MAX)).unwrap();
    assert_eq!(p.absolute(), Err(HyperlightError::ArithmeticOverflow));
    assert_eq!(p.to_usize(), Err(HyperlightError::ArithmeticOverflow));
    let q = GuestPtr::try_from_offset(Offset::new(0x10)).unwrap();
    assert_eq!(q.to_usize(), Ok(SandboxMemoryLayout::BASE_ADDRESS + 0x10));
    let r = q.add(Offset::new(0x20));
    assert_eq!(r.absolute(), Ok(SandboxMemoryLayout::BASE_ADDRESS as u64 + 0x30));
}

#[test]
fn raw_ptr_conversions() {
    let p = RawPtr::try_from_usize(0x1234).unwrap();
    assert_eq!(u64::from(p.clone()), 0x1234);
    assert_eq!(p.try_to_usize(), Ok(0x1234));
    assert_eq!(p.add_offset(Offset::new(0x10)).as_u64(), 0x1244);
}

#[test]
fn offset_conversions_and_arithmetic() {
    assert_eq!(u64::from(Offset::zero()), 0);
    assert_eq!(Offset::default(), Offset::zero());
    assert_eq!(Offset::try_from_i64(-1), Err(HyperlightError::ArithmeticOverflow));
    assert_eq!(u64::from(Offset::try_from_i64(5).unwrap()), 5);
    assert_eq!(Offset::new(u64::MAX).try_to_i64(), Err(HyperlightError::ArithmeticOverflow));
    assert_eq!(Offset::new(7).try_to_i64(), Ok(7));
    assert_eq!(u64::from(Offset::new(3).add_usize(4)), 7);
    assert_eq!(u64::from(Offset::new(3).add_u64(4)), 7);
    assert_eq!(u64::from(Offset::new(3).add_offset(Offset::new(4))), 7);
    assert!(Offset::new(3).eq_usize(3));
    assert!(!Offset::new(3).eq_u64(4));
    assert_eq!(Offset::new(3).partial_cmp_usize(4), Some(std::cmp::Ordering::Less));
    assert_eq!(Offset::new(5).partial_cmp_u64(4), Some(std::cmp::Ordering::Greater));
    assert_eq!(u64::from(Offset::new(0x1001).round_up_to(0x1000)), 0x2000);
    assert_eq!(u64::from(Offset::new(0x2000).round_up_to(0x1000)), 0x2000);
    assert_eq!(u64::from(Offset::from(9u64)), 9);
}

#[test]
fn i64_roundtrip() {
    for i64_val in [i64::MIN, -1, 0, 1, 42, i64::MAX - 1] {
        let offset_res = Offset::try_from_i64(i64_val);
        if i64_val < 0 {
            assert!(offset_res.is_err());
        } else {
            assert!(offset_res.is_ok());
            let offset = offset_res.unwrap();
            let ret_i64_val = offset.try_to_i64().unwrap();
            assert_eq!(i64_val, ret_i64_val);
        }
    }
}

#[test]
fn usize_roundtrip() {
    for val in [usize::MIN, 1, 4096, usize::MAX - 1] {
        let offset = Offset::try_from_usize(val).unwrap();
        assert_eq!(val, offset.try_to_usize().unwrap());
    }
}

#[test]
fn add_numeric_types() {
    for (usize_val, u64_val) in [(0_usize, 0_u64), (1, 2), (4096, 0x1_0000_0000), (usize::MAX - 1, u64::MAX - 1)] {
        let start = Offset::default();
        assert_eq!(usize_val, start.add_usize(usize_val).try_to_usize().unwrap());
        assert_eq!(u64_val, u64::from(start.add_u64(u64_val)));
    }
}
