use hyperlight_host::error::HyperlightError;
use hyperlight_host::mem::guest_mem::GuestMemory;
use hyperlight_host::mem::guest_mem_snapshot::GuestMemorySnapshot;

#[test]
fn guest_mem_copy_to_from_slice() {
    let mem_size: usize = 4096;
    let vec_len = 10;
    let mut gm = GuestMemory::new(mem_size).unwrap();
    let vec = vec![1, 2, 3, 4, 5, 6, 7, 8, 9, 10];
    // write the value to the memory at the beginning.
    gm.copy_from_slice(&vec, 0).unwrap();

    let mut vec2 = vec![0; vec_len];
    // read the value back from the memory at the beginning.
    gm.copy_to_slice(&mut vec2, 0).unwrap();
    assert_eq!(vec, vec2);

    let offset = mem_size - vec.len();
    // write the value to the memory at the end.
    gm.copy_from_slice_subset(&vec, vec.len(), offset).unwrap();

    let mut vec3 = vec![0; vec_len];
    // read the value back from the memory at the end.
    gm.copy_to_slice(&mut vec3, offset).unwrap();
    assert_eq!(vec, vec3);

    let offset = mem_size / 2;
    // write the value to the memory at the middle.
    gm.copy_from_slice_subset(&vec, vec.len(), offset).unwrap();

    let mut vec4 = vec![0; vec_len];
    // read the value back from the memory at the middle.
    gm.copy_to_slice(&mut vec4, offset).unwrap();
    assert_eq!(vec, vec4);

    // try and read a value from an offset that is beyond the end of the memory.
    let mut vec5 = vec![0; vec_len];
    assert!(gm.copy_to_slice(&mut vec5, mem_size).is_err());

    // try and write a value to an offset that is beyond the end of the memory.
    assert!(gm.copy_from_slice_subset(&vec, vec.len(), mem_size).is_err());

    // try and read a value from an offset that is too large.
    let mut vec6 = vec![0; vec_len];
    assert!(gm.copy_to_slice(&mut vec6, mem_size * 2).is_err());

    // try and write a value to an offset that is too large.
    assert!(gm.copy_from_slice_subset(&vec, vec.len(), mem_size * 2).is_err());

    // try and read a value that is too large.
    let mut vec7 = vec![0; mem_size * 2];
    let len = vec7.len();
    assert!(gm.copy_to_slice(&mut vec7, mem_size * 2).is_err());

    // try and write a value that is too large.
    assert!(gm.copy_from_slice_subset(&vec7, len, mem_size * 2).is_err());
}

#[test]
fn guest_mem_copy_into_from() {
    let mem_size: usize = 4096;
    let vec_len = 10;
    let mut gm = GuestMemory::new(mem_size).unwrap();
    let vec = vec![1, 2, 3, 4, 5, 6, 7, 8, 9, 10];
    // write the value to the memory at the beginning.
    gm.copy_from_slice(&vec, 0).unwrap();

    let mut vec2 = vec![0; vec_len];
    // read the value back from the memory at the beginning.
    gm.copy_to_slice(vec2.as_mut_slice(), 0).unwrap();
    assert_eq!(vec, vec2);

    let offset = mem_size - vec.len();
    // write the value to the memory at the end.
    gm.copy_from_slice(&vec, offset).unwrap();

    let mut vec3 = vec![0; vec_len];
    // read the value back from the memory at the end.
    gm.copy_to_slice(&mut vec3, offset).unwrap();
    assert_eq!(vec, vec3);

    let offset = mem_size / 2;
    // write the value to the memory at the middle.
    gm.copy_from_slice(&vec, offset).unwrap();

    let mut vec4 = vec![0; vec_len];
    // read the value back from the memory at the middle.
    gm.copy_to_slice(&mut vec4, offset).unwrap();
    assert_eq!(vec, vec4);

    // try and read a value from an offset that is beyond the end of the memory.
    let mut vec5 = vec![0; vec_len];
    assert!(gm.copy_to_slice(&mut vec5, mem_size).is_err());

    // try and write a value to an offset that is beyond the end of the memory.
    assert!(gm.copy_from_slice(&vec5, mem_size).is_err());

    // try and read a value from an offset that is too large.
    let mut vec6 = vec![0; vec_len];
    assert!(gm.copy_to_slice(&mut vec6, mem_size * 2).is_err());

    // try and write a value to an offset that is too large.
    assert!(gm.copy_from_slice(&vec6, mem_size * 2).is_err());

    // try and read a value that is too large.
    let mut vec7 = vec![0; mem_size * 2];
    assert!(gm.copy_to_slice(&mut vec7, 0).is_err());

    // try and write a value that is too large.
    assert!(gm.copy_from_slice(&vec7, 0).is_err());
}

#[test]
fn read_write_i32() {
    let mem_size: usize = 4096;
    let mut gm = GuestMemory::new(mem_size).unwrap();
    let val: i32 = 42;
    // write the value to the memory at the beginning.
    gm.write_i32(0, val).unwrap();
    // read the value back from the memory at the beginning.
    let read_val = gm.read_i32(0).unwrap();
    assert_eq!(val, read_val);

    let offset = mem_size - std::mem::size_of::<i32>();
    // write the value to the memory at the end.
    gm.write_i32(offset, val).unwrap();
    // read the value back from the memory at the end.
    let read_val = gm.read_i32(offset as u64).unwrap();
    assert_eq!(val, read_val);

    let offset = mem_size / 2;
    // write the value to the memory at the middle.
    gm.write_i32(offset, val).unwrap();
    // read the value back from the memory at the middle.
    let read_val = gm.read_i32(offset as u64).unwrap();
    assert_eq!(val, read_val);

    // try and read a value from the memory at an invalid offset.
    let result = gm.read_i32((mem_size * 2) as u64);
    assert!(result.is_err());

    // try and write the value to the memory at an invalid offset.
    let result = gm.write_i32(mem_size * 2, val);
    assert!(result.is_err());

    // try and read a value from the memory beyond the end of the memory.
    let result = gm.read_i32(mem_size as u64);
    assert!(result.is_err());

    // try and write the value to the memory beyond the end of the memory.
    let result = gm.write_i32(mem_size, val);
    assert!(result.is_err());
}

#[test]
fn read_i64_write_u64() {
    let mem_size: usize = 4096;
    let mut gm = GuestMemory::new(mem_size).unwrap();
    let val: i64 = 42;
    // write the value to the memory at the beginning.
    gm.write_u64(0, val.try_into().unwrap()).unwrap();
    // read the value back from the memory at the beginning.
    let read_val = gm.read_i64(0).unwrap();
    assert_eq!(val, read_val);

    let offset = mem_size - std::mem::size_of::<i64>();
    // write the value to the memory at the end.
    gm.write_u64(offset, val.try_into().unwrap()).unwrap();
    // read the value back from the memory at the end.
    let read_val = gm.read_i64(offset as u64).unwrap();
    assert_eq!(val, read_val);

    let offset = mem_size / 2;
    // write the value to the memory at the middle.
    gm.write_u64(offset, val.try_into().unwrap()).unwrap();
    // read the value back from the memory at the middle.
    let read_val = gm.read_i64(offset as u64).unwrap();
    assert_eq!(val, read_val);

    // try and read a value from the memory at an invalid offset.
    let result = gm.read_i64((mem_size * 2) as u64);
    assert!(result.is_err());

    // try and write the value to the memory at an invalid offset.
    let result = gm.write_u64(mem_size * 2, val.try_into().unwrap());
    assert!(result.is_err());

    // try and read a value from the memory beyond the end of the memory.
    let result = gm.read_i64(mem_size as u64);
    assert!(result.is_err());

    // try and write the value to the memory beyond the end of the memory.
    let result = gm.write_u64(mem_size, val.try_into().unwrap());
    assert!(result.is_err());
}

#[test]
fn guest_mem_alloc_fail() {
    let gm = GuestMemory::new(0);
    assert!(gm.is_err());
    let gm = GuestMemory::new(usize::MAX);
    assert!(gm.is_err());
}

#[test]
fn guest_mem_copy_all_to_vec() {
    let data = vec![b'a', b'b', b'c'];
    let mut gm = GuestMemory::new(data.len()).unwrap();
    gm.copy_from_slice(data.as_slice(), 0).unwrap();
    let ret_vec = gm.copy_all_to_vec().unwrap();
    assert_eq!(data, ret_vec);
}

#[test]
fn guest_mem_errors_name_the_offsets() {
    let mut gm = GuestMemory::new(16).unwrap();
    assert_eq!(gm.read_i32(17), Err(HyperlightError::OffsetOutOfBounds(17, 16)));
    assert_eq!(gm.read_i32(14), Err(HyperlightError::BoundsCheckFailed(14, 4, 16)));
    assert_eq!(gm.write_u64(9, 1), Err(HyperlightError::BoundsCheckFailed(9, 8, 16)));
    assert_eq!(gm.read_u8(16), Err(HyperlightError::UnexpectedEndOfMemory(16)));
    assert_eq!(gm.read_u8(20), Err(HyperlightError::OffsetOutOfBounds(20, 16)));
    assert_eq!(gm.read_u8(15), Ok(0));
    assert_eq!(GuestMemory::new(0).err(), Some(HyperlightError::MemoryAllocationFailed));
}

#[test]
fn guest_mem_values_are_little_endian() {
    let mut gm = GuestMemory::new(16).unwrap();
    gm.write_i32(0, -2).unwrap();
    gm.write_u64(8, 0x0102_0304_0506_0708).unwrap();
    let bytes = gm.copy_all_to_vec().unwrap();
    assert_eq!(&bytes[0..4], &[0xfe, 0xff, 0xff, 0xff]);
    assert_eq!(&bytes[8..16], &[8, 7, 6, 5, 4, 3, 2, 1]);
    assert_eq!(gm.read_i32(0), Ok(-2));
    assert_eq!(gm.read_i64(8), Ok(0x0102_0304_0506_0708));
    assert_eq!(gm.read_u8(9), Ok(7));
    // a write outside the range leaves the other values alone
    gm.write_i32(4, 77).unwrap();
    assert_eq!(gm.read_i32(0), Ok(-2));
    assert_eq!(gm.read_i64(8), Ok(0x0102_0304_0506_0708));
}

#[test]
fn guest_mem_subset_copies_at_most_the_slice() {
    let mut gm = GuestMemory::new(8).unwrap();
    gm.copy_from_slice_subset(&[1, 2, 3], 10, 5).unwrap();
    assert_eq!(gm.copy_all_to_vec().unwrap(), vec![0, 0, 0, 0, 0, 1, 2, 3]);
    gm.copy_from_slice_subset(&[9, 9, 9], 1, 0).unwrap();
    assert_eq!(gm.copy_all_to_vec().unwrap(), vec![9, 0, 0, 0, 0, 1, 2, 3]);
    assert_eq!(
        gm.copy_from_slice_subset(&[1, 2, 3], 3, 6),
        Err(HyperlightError::BoundsCheckFailed(6, 3, 8))
    );
    assert_eq!(gm.copy_all_to_vec().unwrap(), vec![9, 0, 0, 0, 0, 1, 2, 3]);
}

#[test]
fn guest_mem_calculate_address() {
    let gm = GuestMemory::new(32).unwrap();
    let base = gm.base_addr();
    assert_eq!(gm.mem_size(), 32);
    assert_eq!(gm.calculate_address(0), Ok(base));
    assert_eq!(gm.calculate_address(32), Ok(base + 32));
    assert_eq!(gm.calculate_address(33), Err(HyperlightError::OffsetOutOfBounds(33, 32)));
}

#[test]
fn restore_replace() {
    let data1 = vec![b'a', b'b', b'c'];
    let data2 = data1.iter().map(|b| b + 1).collect::<Vec<u8>>();
    let mut gm = GuestMemory::new(data1.len()).unwrap();
    gm.copy_from_slice(data1.as_slice(), 0).unwrap();
    let mut snap = GuestMemorySnapshot::new(gm).unwrap();
    assert_eq!(data1, snap.get_memory().copy_all_to_vec().unwrap());

    // change the memory, then restore: the first contents come back
    snap.get_memory_mut().copy_from_slice(data2.as_slice(), 0).unwrap();
    assert_eq!(data2, snap.get_memory().copy_all_to_vec().unwrap());
    snap.restore_from_snapshot().unwrap();
    assert_eq!(data1, snap.get_memory().copy_all_to_vec().unwrap());

    // change the memory, take a new snapshot, then restore: the new contents stay
    snap.get_memory_mut().copy_from_slice(data2.as_slice(), 0).unwrap();
    snap.replace_snapshot().unwrap();
    assert_eq!(data2, snap.get_memory().copy_all_to_vec().unwrap());
    snap.restore_from_snapshot().unwrap();
    assert_eq!(data2, snap.get_memory().copy_all_to_vec().unwrap());
}
