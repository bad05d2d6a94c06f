use hyperlight_host::error::HyperlightError;
use hyperlight_host::mem::config::SandboxMemoryConfiguration;
use hyperlight_host::mem::layout::SandboxMemoryLayout;
use hyperlight_host::mem::ptr_offset::Offset;
use hyperlight_host::mem::shared_mem::SharedMemory;

#[test]
fn get_host_code_address() {
    let sm = SharedMemory::new(100).unwrap();
    let hca_in_proc = SandboxMemoryLayout::get_host_code_address(&sm).unwrap();
    let hca_in_vm = SandboxMemoryLayout::get_host_code_address(&sm).unwrap();
    let code_offset: Offset = Offset::try_from_usize(SandboxMemoryLayout::CODE_OFFSET).unwrap();
    assert_eq!(hca_in_proc.offset(), code_offset);
    assert_eq!(hca_in_vm.offset(), code_offset);
    assert_eq!(hca_in_proc, hca_in_vm);
}

#[test]
fn test_get_memory_size() {
    let sbox_cfg = SandboxMemoryConfiguration::default();
    let sbox_mem_layout = SandboxMemoryLayout::new(sbox_cfg, 4096, 2048, 4096).unwrap();
    let mem_size = sbox_mem_layout.get_unaligned_memory_size() as u64;
    let end_of_memory = u64::from(sbox_mem_layout.get_top_of_stack_offset())
        + sbox_mem_layout.get_stack_size() as u64;
    assert_eq!(mem_size, end_of_memory);
}

#[test]
fn memory_size_is_page_aligned() {
    let cfg = SandboxMemoryConfiguration::default();
    let layout = SandboxMemoryLayout::new(cfg, 4096, 2048, 4096).unwrap();
    let unaligned = layout.get_unaligned_memory_size();
    let size = layout.get_memory_size().unwrap();
    assert_eq!(size % SandboxMemoryLayout::FOUR_K, 0);
    assert!(size >= unaligned && size < unaligned + SandboxMemoryLayout::FOUR_K);
}

#[test]
fn layout_offsets_of_default_configuration() {
    // Code of 0x1000 bytes: the PEB follows the page tables and the code.
    let cfg = SandboxMemoryConfiguration::default();
    let layout = SandboxMemoryLayout::new(cfg, 0x1000, 0x1000, 0x1000).unwrap();
    let peb = 0x3000 + 0x1000;
    assert_eq!(u64::from(layout.get_in_process_peb_offset()), peb);
    assert_eq!(layout.get_peb_address(), 0x200000 + peb as usize);
    assert_eq!(u64::from(layout.get_dispatch_function_pointer_offset()), peb + 8);
    assert_eq!(u64::from(layout.get_host_function_definitions_size_offset()), peb + 16);
    assert_eq!(u64::from(layout.get_host_exception_size_offset()), peb + 32);
    assert_eq!(u64::from(layout.get_guest_error_buffer_size_offset()), peb + 40);
    assert_eq!(u64::from(layout.get_code_pointer_offset()), peb + 56);
    assert_eq!(u64::from(layout.get_outb_pointer_offset()), peb + 64);
    assert_eq!(u64::from(layout.get_input_data_size_offset()), peb + 80);
    assert_eq!(u64::from(layout.get_min_guest_stack_address_offset()), peb + 144);
    let hfd = peb + 0x98;
    assert_eq!(u64::from(layout.get_host_function_definitions_buffer_offset()), hfd);
    let he = hfd + 0x1000;
    assert_eq!(u64::from(layout.get_host_exception_offset()), he);
    let ge = he + 0x4000;
    assert_eq!(u64::from(layout.get_guest_error_buffer_offset()), ge);
    let input = ge + 0x100;
    assert_eq!(u64::from(layout.get_input_data_buffer_offset()), input);
    let output = input + 0x4000;
    assert_eq!(u64::from(layout.get_output_data_offset()), output);
    let panic = output + 0x4000;
    assert_eq!(u64::from(layout.get_guest_panic_context_buffer_offset()), panic);
    let heap = panic + 0x400;
    assert_eq!(u64::from(layout.get_guest_heap_buffer_offset()), heap);
    let heap_end = heap + 0x1000;
    let guard = (heap_end + 0xfff) / 0x1000 * 0x1000;
    assert_eq!(u64::from(layout.get_guard_page_offset()), guard);
    assert_eq!(u64::from(layout.get_top_of_stack_offset()), guard + 0x1000);
}

#[test]
fn memory_request_too_big() {
    let cfg = SandboxMemoryConfiguration::default();
    let layout = SandboxMemoryLayout::new(cfg, 0x1000, 0x4000_0000, 0x1000).unwrap();
    assert!(matches!(
        layout.get_memory_size(),
        Err(HyperlightError::MemoryRequestTooBig(_, SandboxMemoryLayout::MAX_MEMORY_SIZE))
    ));
}

#[test]
fn write_fills_in_the_peb() {
    let cfg = SandboxMemoryConfiguration::default();
    let layout = SandboxMemoryLayout::new(cfg, 0x1000, 0x2000, 0x3000).unwrap();
    let size = layout.get_memory_size().unwrap();
    let mut mem = SharedMemory::new(size).unwrap();
    layout.write(&mut mem, SandboxMemoryLayout::BASE_ADDRESS, size).unwrap();
    let read = |m: &SharedMemory, o: Offset| m.read_u64(u64::from(o) as usize).unwrap();
    let base = SandboxMemoryLayout::BASE_ADDRESS as u64;
    assert_eq!(read(&mem, layout.get_host_function_definitions_size_offset()), 0x1000);
    assert_eq!(
        read(&mem, layout.get_host_function_definitions_pointer_offset()),
        base + u64::from(layout.get_host_function_definitions_buffer_offset())
    );
    assert_eq!(read(&mem, layout.get_host_exception_size_offset()), 0x4000);
    assert_eq!(read(&mem, layout.get_guest_error_buffer_size_offset()), 0x100);
    assert_eq!(
        read(&mem, layout.get_guest_error_buffer_pointer_offset()),
        base + u64::from(layout.get_guest_error_buffer_offset())
    );
    assert_eq!(read(&mem, layout.get_input_data_size_offset()), 0x4000);
    assert_eq!(
        read(&mem, layout.get_input_data_pointer_offset()),
        base + u64::from(layout.get_input_data_buffer_offset())
    );
    assert_eq!(read(&mem, layout.get_output_data_size_offset()), 0x4000);
    assert_eq!(
        read(&mem, layout.get_output_data_pointer_offset()),
        base + u64::from(layout.get_output_data_offset())
    );
    assert_eq!(read(&mem, layout.get_guest_panic_context_size_offset()), 0x400);
    assert_eq!(read(&mem, layout.get_heap_size_offset()), 0x3000);
    assert_eq!(
        read(&mem, layout.get_heap_pointer_offset()),
        base + u64::from(layout.get_guest_heap_buffer_offset())
    );
    assert_eq!(
        read(&mem, layout.get_min_guest_stack_address_offset()),
        base + (size as u64 - 0x2000)
    );
    assert_eq!(read(&mem, layout.get_input_data_buffer_offset()), 8);
    assert_eq!(read(&mem, layout.get_output_data_offset()), 8);
    // The guest writes the dispatch function pointer; it stays zero.
    assert_eq!(read(&mem, layout.get_dispatch_function_pointer_offset()), 0);
}

#[test]
fn write_with_invalid_guest_offset_fails() {
    let cfg = SandboxMemoryConfiguration::default();
    let layout = SandboxMemoryLayout::new(cfg, 0x1000, 0x2000, 0x3000).unwrap();
    let size = layout.get_memory_size().unwrap();
    let mut mem = SharedMemory::new(size).unwrap();
    assert_eq!(
        layout.write(&mut mem, 0x1234, size),
        Err(HyperlightError::GuestOffsetIsInvalid(0x1234))
    );
    assert!(mem.copy_all_to_vec().unwrap().iter().all(|&b| b == 0));
}

#[test]
fn write_in_process_uses_host_addresses() {
    let cfg = SandboxMemoryConfiguration::default();
    let layout = SandboxMemoryLayout::new(cfg, 0x1000, 0x2000, 0x3000).unwrap();
    let size = layout.get_memory_size().unwrap();
    let mut mem = SharedMemory::new(size).unwrap();
    let base = mem.base_addr();
    layout.write(&mut mem, base, size).unwrap();
    let ptr = mem
        .read_u64(u64::from(layout.get_input_data_pointer_offset()) as usize)
        .unwrap();
    assert_eq!(ptr, base as u64 + u64::from(layout.get_input_data_buffer_offset()));
}

#[test]
fn write_to_too_small_memory_fails() {
    let cfg = SandboxMemoryConfiguration::default();
    let layout = SandboxMemoryLayout::new(cfg, 0x1000, 0x2000, 0x3000).unwrap();
    let mut mem = SharedMemory::new(0x1000).unwrap();
    assert!(layout
        .write(&mut mem, SandboxMemoryLayout::BASE_ADDRESS, 0x2000)
        .is_err());
}

#[test]
fn overrides() {
    const INPUT_DATA_SIZE_OVERRIDE: usize = 0x4000;
    const OUTPUT_DATA_SIZE_OVERRIDE: usize = 0x4001;
    const HOST_FUNCTION_DEFINITION_SIZE_OVERRIDE: usize = 0x4002;
    const HOST_EXCEPTION_SIZE_OVERRIDE: usize = 0x4003;
    const GUEST_ERROR_BUFFER_SIZE_OVERRIDE: usize = 0x40004;
    let cfg = SandboxMemoryConfiguration::new(
        INPUT_DATA_SIZE_OVERRIDE,
        OUTPUT_DATA_SIZE_OVERRIDE,
        HOST_FUNCTION_DEFINITION_SIZE_OVERRIDE,
        HOST_EXCEPTION_SIZE_OVERRIDE,
        GUEST_ERROR_BUFFER_SIZE_OVERRIDE,
        Some(1024),
        Some(2048),
    );
    assert_eq!(1024, cfg.stack_size_override);
    assert_eq!(2048, cfg.heap_size_override);
    assert_eq!(INPUT_DATA_SIZE_OVERRIDE, cfg.input_data_size);
    assert_eq!(OUTPUT_DATA_SIZE_OVERRIDE, cfg.output_data_size);
    assert_eq!(HOST_FUNCTION_DEFINITION_SIZE_OVERRIDE, cfg.host_function_definition_size);
    assert_eq!(HOST_EXCEPTION_SIZE_OVERRIDE, cfg.host_exception_size);
    assert_eq!(GUEST_ERROR_BUFFER_SIZE_OVERRIDE, cfg.guest_error_buffer_size);
    assert_eq!(Some(1024), cfg.stack_size_override_opt());
    assert_eq!(Some(2048), cfg.heap_size_override_opt());
}

#[test]
fn configuration_minimums() {
    let cfg = SandboxMemoryConfiguration::new(0, 0, 0, 0, 0, None, None);
    assert_eq!(cfg.input_data_size, SandboxMemoryConfiguration::MIN_INPUT_SIZE);
    assert_eq!(cfg.output_data_size, SandboxMemoryConfiguration::MIN_OUTPUT_SIZE);
    assert_eq!(
        cfg.host_function_definition_size,
        SandboxMemoryConfiguration::MIN_HOST_FUNCTION_DEFINITION_SIZE
    );
    assert_eq!(cfg.host_exception_size, SandboxMemoryConfiguration::MIN_HOST_EXCEPTION_SIZE);
    assert_eq!(
        cfg.guest_error_buffer_size,
        SandboxMemoryConfiguration::MIN_GUEST_ERROR_BUFFER_SIZE
    );
    assert_eq!(cfg.stack_size_override_opt(), None);
    assert_eq!(cfg.heap_size_override_opt(), None);
}

#[test]
fn small_input_buffer_still_gets_its_peb_fields() {
    let mut cfg = SandboxMemoryConfiguration::default();
    cfg.input_data_size = 4;
    let layout = SandboxMemoryLayout::new(cfg, 0x1000, 0x1000, 0x1000).unwrap();
    let mut sm = SharedMemory::new(layout.get_memory_size().unwrap()).unwrap();
    let size = sm.mem_size();
    layout
        .write(&mut sm, SandboxMemoryLayout::BASE_ADDRESS, size)
        .unwrap();
    let rd = |o: Offset| sm.read_u64(u64::from(o) as usize).unwrap();
    assert_eq!(rd(layout.get_input_data_size_offset()), 4);
    let input_buf = u64::from(layout.get_input_data_buffer_offset());
    let output_buf = u64::from(layout.get_output_data_offset());
    assert_eq!(output_buf, input_buf + 4);
    assert_eq!(
        rd(layout.get_input_data_pointer_offset()),
        SandboxMemoryLayout::BASE_ADDRESS as u64 + input_buf
    );
    assert_eq!(
        rd(layout.get_output_data_pointer_offset()),
        SandboxMemoryLayout::BASE_ADDRESS as u64 + output_buf
    );
    // the output buffer's stack pointer is written last, over the input's
    assert_eq!(sm.read_u64(output_buf as usize).unwrap(), 8);
}

#[test]
fn write_to_too_small_memory_fails_with_a_bounds_error() {
    let cfg = SandboxMemoryConfiguration::default();
    let layout = SandboxMemoryLayout::new(cfg, 0x1000, 0x1000, 0x1000).unwrap();
    let mut sm = SharedMemory::new(0x100).unwrap();
    let r = layout.write(&mut sm, SandboxMemoryLayout::BASE_ADDRESS, 0x10000);
    assert!(matches!(r, Err(HyperlightError::BoundsCheckFailed(_, _, _))));
}
