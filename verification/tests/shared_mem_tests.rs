use hyperlight_host::error::HyperlightError;
use hyperlight_host::mem::layout::PAGE_SIZE_USIZE;
use hyperlight_host::mem::shared_mem::SharedMemory;

#[test]
fn fill() {
    let mem_size: usize = 4096;
    let mut gm = SharedMemory::new(mem_size).unwrap();
    gm.fill(1, 0, 1024).unwrap();
    gm.fill(2, 1024, 1024).unwrap();
    gm.fill(3, 2048, 1024).unwrap();
    gm.fill(4, 3072, 1024).unwrap();

    let vec = gm.copy_all_to_vec().unwrap();

    assert!(vec[0..1024].iter().all(|&x| x == 1));
    assert!(vec[1024..2048].iter().all(|&x| x == 2));
    assert!(vec[2048..3072].iter().all(|&x| x == 3));
    assert!(vec[3072..4096].iter().all(|&x| x == 4));

    gm.fill(5, 0, 4096).unwrap();

    let vec2 = gm.copy_all_to_vec().unwrap();
    assert!(vec2.iter().all(|&x| x == 5));

    assert!(gm.fill(0, 0, mem_size + 1).is_err());
    assert!(gm.fill(0, mem_size, 1).is_err());
}

#[test]
fn shared_mem_copy_to_from_slice() {
    let mem_size: usize = 4096;
    let vec_len = 10;
    let mut gm = SharedMemory::new(mem_size).unwrap();
    let vec = vec![1, 2, 3, 4, 5, 6, 7, 8, 9, 10];
    gm.copy_from_slice(&vec, 0).unwrap();

    let mut vec2 = vec![0; vec_len];
    gm.copy_to_slice(&mut vec2, 0).unwrap();
    assert_eq!(vec, vec2);

    let offset = mem_size - vec.len();
    gm.copy_from_slice_subset(&vec, vec.len(), offset).unwrap();

    let mut vec3 = vec![0; vec_len];
    gm.copy_to_slice(&mut vec3, offset).unwrap();
    assert_eq!(vec, vec3);

    let offset = mem_size / 2;
    gm.copy_from_slice_subset(&vec, vec.len(), offset).unwrap();

    let mut vec4 = vec![0; vec_len];
    gm.copy_to_slice(&mut vec4, offset).unwrap();
    assert_eq!(vec, vec4);

    let mut vec5 = vec![0; vec_len];
    assert!(gm.copy_to_slice(&mut vec5, mem_size).is_err());

    assert!(gm.copy_from_slice_subset(&vec, vec.len(), mem_size).is_err());

    let mut vec6 = vec![0; vec_len];
    assert!(gm.copy_to_slice(&mut vec6, mem_size * 2).is_err());

    assert!(gm.copy_from_slice_subset(&vec, vec.len(), mem_size * 2).is_err());

    let mut vec7 = vec![0; mem_size * 2];
    let len = vec7.len();
    assert!(gm.copy_to_slice(&mut vec7, mem_size * 2).is_err());

    assert!(gm.copy_from_slice_subset(&vec7, len, mem_size * 2).is_err());
}

#[test]
fn shared_mem_copy_into_from() {
    let mem_size: usize = 4096;
    let vec_len = 10;
    let mut gm = SharedMemory::new(mem_size).unwrap();
    let vec = vec![1, 2, 3, 4, 5, 6, 7, 8, 9, 10];
    gm.copy_from_slice(&vec, 0).unwrap();

    let mut vec2 = vec![0; vec_len];
    gm.copy_to_slice(vec2.as_mut_slice(), 0).unwrap();
    assert_eq!(vec, vec2);

    let offset = mem_size - vec.len();
    gm.copy_from_slice(&vec, offset).unwrap();

    let mut vec3 = vec![0; vec_len];
    gm.copy_to_slice(&mut vec3, offset).unwrap();
    assert_eq!(vec, vec3);

    let offset = mem_size / 2;
    gm.copy_from_slice(&vec, offset).unwrap();

    let mut vec4 = vec![0; vec_len];
    gm.copy_to_slice(&mut vec4, offset).unwrap();
    assert_eq!(vec, vec4);

    let mut vec5 = vec![0; vec_len];
    assert!(gm.copy_to_slice(&mut vec5, mem_size).is_err());

    assert!(gm.copy_from_slice(&vec5, mem_size).is_err());

    let mut vec6 = vec![0; vec_len];
    assert!(gm.copy_to_slice(&mut vec6, mem_size * 2).is_err());

    assert!(gm.copy_from_slice(&vec6, mem_size * 2).is_err());

    let mut vec7 = vec![0; mem_size * 2];
    assert!(gm.copy_to_slice(&mut vec7, 0).is_err());

    assert!(gm.copy_from_slice(&vec7, 0).is_err());
}

#[test]
fn shared_mem_read_write_i32_values() {
    for val in [-0x1000_i32, -1, 0, 1, 42, 0x0fff] {
        let mut gm = SharedMemory::new(4096).unwrap();
        gm.write_i32(0, val).unwrap();
        assert_eq!(gm.read_i32(0).unwrap(), val);
        gm.write_i32(4092, val).unwrap();
        assert_eq!(gm.read_i32(4092).unwrap(), val);
        assert!(gm.write_i32(4093, val).is_err());
        assert!(gm.read_i32(4093).is_err());
    }
}

#[test]
fn shared_mem_alloc_fail() {
    let gm = SharedMemory::new(0);
    assert!(gm.is_err());
    let gm = SharedMemory::new(usize::MAX);
    assert!(gm.is_err());
}

#[test]
fn shared_mem_copy_all_to_vec() {
    let mut data = vec![b'a', b'b', b'c'];
    data.resize(4096, 0);
    let mut gm = SharedMemory::new(data.len()).unwrap();
    gm.copy_from_slice(data.as_slice(), 0).unwrap();
    let ret_vec = gm.copy_all_to_vec().unwrap();
    assert_eq!(data, ret_vec);
}

#[test]
fn new_memory_is_zeroed_and_sized() {
    let gm = SharedMemory::new(PAGE_SIZE_USIZE).unwrap();
    assert_eq!(gm.mem_size(), PAGE_SIZE_USIZE);
    assert_eq!(gm.raw_mem_size(), PAGE_SIZE_USIZE + 2 * PAGE_SIZE_USIZE);
    assert!(gm.copy_all_to_vec().unwrap().iter().all(|&b| b == 0));
    assert_eq!(SharedMemory::new(0).err(), Some(HyperlightError::ZeroSizedMemory));
    assert_eq!(
        SharedMemory::new(usize::MAX).err(),
        Some(HyperlightError::MemoryRequiredExceedsMax)
    );
}

#[test]
fn read_after_write_all_widths() {
    let mut gm = SharedMemory::new(64).unwrap();
    gm.write_u64(8, 0x0102_0304_0506_0708).unwrap();
    assert_eq!(gm.read_u64(8).unwrap(), 0x0102_0304_0506_0708);
    assert_eq!(gm.read_u8(8).unwrap(), 0x08);
    assert_eq!(gm.read_u16(8).unwrap(), 0x0708);
    assert_eq!(gm.read_u32(8).unwrap(), 0x0506_0708);
    gm.write_i64(16, -2).unwrap();
    assert_eq!(gm.read_i64(16).unwrap(), -2);
    gm.write_u32(32, 7).unwrap();
    // A write leaves the bytes around it as they were.
    assert_eq!(gm.read_u64(8).unwrap(), 0x0102_0304_0506_0708);
    assert_eq!(
        gm.read_u64(60).err(),
        Some(HyperlightError::BoundsCheckFailed(60, 8, 64))
    );
}

#[test]
fn calculate_address_checks_bounds() {
    let gm = SharedMemory::new(100).unwrap();
    assert_eq!(gm.calculate_address(0).unwrap(), gm.base_addr());
    assert_eq!(gm.calculate_address(100).unwrap(), gm.base_addr() + 100);
    assert_eq!(
        gm.calculate_address(101).err(),
        Some(HyperlightError::BoundsCheckFailed(101, 0, 100))
    );
}

#[test]
fn pop_after_push_gives_back_data() {
    let mut gm = SharedMemory::new(256).unwrap();
    // The stack pointer of the buffer at 0 starts past itself.
    gm.write_u64(0, 8).unwrap();
    let data: Vec<u8> = vec![3, 0, 0, 0, 0xaa, 0xbb, 0xcc];
    gm.push_buffer(0, 128, &data).unwrap();
    assert_eq!(gm.read_u64(0).unwrap(), 8 + data.len() as u64 + 8);
    let popped = gm.try_pop_buffer(0, 128).unwrap();
    assert_eq!(popped, data);
    assert_eq!(gm.read_u64(0).unwrap(), 8);
}

#[test]
fn slice_ops() {
    for slice_size in [1_usize, 2, 17, 250, 499] {
        for slice_val in [b'\0', b'a', b'y'] {
            let offset = slice_size / 2;
            let mut shared_mem = SharedMemory::new(PAGE_SIZE_USIZE).unwrap();
            let orig_vec = vec![slice_val; slice_size];
            shared_mem.copy_from_slice(orig_vec.as_slice(), offset).unwrap();

            // copy_to_slice gives the bytes back
            let mut ret_vec = vec![slice_val + 1; slice_size];
            shared_mem.copy_to_slice(ret_vec.as_mut_slice(), offset).unwrap();
            assert_eq!(orig_vec, ret_vec);

            // copy_all_to_vec holds them at the offset
            let ret_vec = shared_mem.copy_all_to_vec().unwrap();
            assert_eq!(orig_vec, ret_vec[offset..offset + slice_size]);
        }
    }
}
