use hyperlight_host::error::HyperlightError;
use hyperlight_host::mem::config::SandboxMemoryConfiguration;
use hyperlight_host::mem::exe::ExeInfo;
use hyperlight_host::mem::layout::SandboxMemoryLayout;
use hyperlight_host::mem::mgr::{load_guest_binary_common, SandboxMemoryManager};
use hyperlight_host::mem::pe::base_relocations::{
    get_base_relocations, BaseRelocation, DataDirectoryFields,
};
use hyperlight_host::mem::pe::pe_info::{OptionalHeaderFields, PEInfo, PeHeaders, RelocationPatch};
use hyperlight_host::mem::pe::section_table::{calculate_offset_from_rva, SectionFields};
use hyperlight_host::sandbox::uninitialized::{
    create_stack_guard, new_sandbox_memory, prepare_sandbox_memory,
};

const IMAGE_BASE: u64 = 0x1_4000_0000;

fn section() -> SectionFields {
    SectionFields {
        virtual_address: 0x1000,
        virtual_size: 0x200,
        pointer_to_raw_data: 0x200,
    }
}

/// A PE payload whose base relocation table, at file offset 0x200, holds
/// one block for page 0x100 with a DIR64 relocation at offset 0x10 and a
/// padding entry of the given type.
fn payload(padding_type: u16) -> Vec<u8> {
    let mut p = vec![0u8; 0x400];
    p[0x110..0x118].copy_from_slice(&0x1_4000_1000u64.to_le_bytes());
    p[0x200..0x204].copy_from_slice(&0x100u32.to_le_bytes());
    p[0x204..0x208].copy_from_slice(&12u32.to_le_bytes());
    p[0x208..0x20a].copy_from_slice(&((10u16 << 12) | 0x010).to_le_bytes());
    p[0x20a..0x20c].copy_from_slice(&(padding_type << 12).to_le_bytes());
    p
}

fn headers(machine: u16, characteristics: u16, is_64: bool) -> PeHeaders {
    PeHeaders {
        machine,
        characteristics,
        is_64,
        optional_header: Some(OptionalHeaderFields {
            address_of_entry_point: 0x40,
            image_base: IMAGE_BASE,
            size_of_stack_reserve: 0x10000,
            size_of_stack_commit: 0x10000,
            size_of_heap_reserve: 0x20000,
            size_of_heap_commit: 0x20000,
            base_relocation_table: Some(DataDirectoryFields { virtual_address: 0x1000, size: 12 }),
        }),
        sections: vec![section()],
    }
}

fn pe_info(padding_type: u16) -> PEInfo {
    PEInfo::from_headers(&payload(padding_type), headers(0x8664, 0x22, true)).unwrap()
}

#[test]
fn pe_header_checks() {
    let p = payload(0);
    assert_eq!(
        PEInfo::from_headers(&p, headers(0x14c, 0x22, true)).err(),
        Some(HyperlightError::PeNotX64)
    );
    assert_eq!(
        PEInfo::from_headers(&p, headers(0x8664, 0x22, false)).err(),
        Some(HyperlightError::PeNotPe32Plus)
    );
    assert_eq!(
        PEInfo::from_headers(&p, headers(0x8664, 0x20, true)).err(),
        Some(HyperlightError::PeNotExecutable)
    );
    assert_eq!(
        PEInfo::from_headers(&p, headers(0x8664, 0x23, true)).err(),
        Some(HyperlightError::PeRelocationsStripped)
    );
    let info = pe_info(0);
    assert_eq!(info.get_payload(), p.as_slice());
    assert_eq!(info.get_payload_len(), 0x400);
    assert_eq!(info.entry_point_offset(), 0x40);
    assert_eq!(info.preferred_load_address(), IMAGE_BASE);
    assert_eq!(info.stack_reserve(), 0x10000);
    assert_eq!(info.stack_commit(), 0x10000);
    assert_eq!(info.heap_reserve(), 0x20000);
    assert_eq!(info.heap_commit(), 0x20000);
}

#[test]
fn parse_failure_is_reported() {
    assert!(matches!(
        PEInfo::new(&[0u8; 16]),
        Err(HyperlightError::PeParseFailed(_))
    ));
    assert!(matches!(
        ExeInfo::from_buf(b"not a PE file"),
        Err(HyperlightError::PeParseFailed(_))
    ));
}

#[test]
fn base_relocations_are_parsed() {
    let p = payload(0);
    let relocs = get_base_relocations(
        &p,
        Some(DataDirectoryFields { virtual_address: 0x1000, size: 12 }),
        &[section()],
    )
    .unwrap();
    assert_eq!(
        relocs,
        vec![
            BaseRelocation { page_base_rva: 0x100, page_offset: 0x10, typ: 10 },
            BaseRelocation { page_base_rva: 0x100, page_offset: 0, typ: 0 },
        ]
    );
    assert_eq!(get_base_relocations(&p, None, &[section()]).unwrap(), vec![]);
    assert_eq!(
        get_base_relocations(
            &p,
            Some(DataDirectoryFields { virtual_address: 0x5000, size: 12 }),
            &[section()]
        ),
        Err(HyperlightError::RelocationTableNotInSection(0x5000))
    );
    assert_eq!(
        get_base_relocations(
            &p,
            Some(DataDirectoryFields { virtual_address: 0x1000, size: 6 }),
            &[section()]
        ),
        Err(HyperlightError::MalformedBaseRelocations)
    );
}

#[test]
fn get_exe_relocation_patches() {
    let info = pe_info(0);
    let p = payload(0);
    let patches = info.get_exe_relocation_patches(&p, 0x20_0000).unwrap();
    assert_eq!(
        patches,
        vec![RelocationPatch { offset: 0x110, relocated_virtual_address: 0x20_1000 }]
    );
    // Loading at the preferred address needs no patches.
    assert!(info
        .get_exe_relocation_patches(&p, IMAGE_BASE as usize)
        .unwrap()
        .is_empty());
    // Other relocation types than DIR64 and ABSOLUTE are refused.
    let info3 = pe_info(3);
    assert_eq!(
        info3.get_exe_relocation_patches(&payload(3), 0x20_0000),
        Err(HyperlightError::UnsupportedRelocationType(3))
    );
}

#[test]
fn apply_relocation_patches_writes_each_patch() {
    let mut p = payload(0);
    let patches = vec![
        RelocationPatch { offset: 0x110, relocated_virtual_address: 0x20_1000 },
        RelocationPatch { offset: 0x3f8, relocated_virtual_address: 0xdead_beef },
    ];
    assert_eq!(PEInfo::apply_relocation_patches(&mut p, patches), Ok(2));
    assert_eq!(u64::from_le_bytes(p[0x110..0x118].try_into().unwrap()), 0x20_1000);
    assert_eq!(u64::from_le_bytes(p[0x3f8..0x400].try_into().unwrap()), 0xdead_beef);
    let bad = vec![
        RelocationPatch { offset: 0, relocated_virtual_address: 1 },
        RelocationPatch { offset: 0x400, relocated_virtual_address: 2 },
    ];
    assert_eq!(
        PEInfo::apply_relocation_patches(&mut p, bad),
        Err(HyperlightError::InvalidRelocationOffset(0x400, 0x400))
    );
    // The patch before the bad one stays applied.
    assert_eq!(u64::from_le_bytes(p[0..8].try_into().unwrap()), 1);
}

#[test]
fn relocate_payload_moves_addresses() {
    let info = pe_info(0);
    let mut p = payload(0);
    info.relocate_payload(&mut p, 0x20_0000).unwrap();
    assert_eq!(u64::from_le_bytes(p[0x110..0x118].try_into().unwrap()), 0x20_1000);
}

#[test]
fn offsets_from_rvas() {
    let sections = [SectionFields {
        virtual_address: 0x1000,
        virtual_size: 0x200,
        pointer_to_raw_data: 0x400,
    }];
    assert_eq!(calculate_offset_from_rva(&sections, 0x1010), Some(0x410));
    assert_eq!(calculate_offset_from_rva(&sections, 0x1000), Some(0x400));
    assert_eq!(calculate_offset_from_rva(&sections, 0x11ff), Some(0x5ff));
    assert_eq!(calculate_offset_from_rva(&sections, 0x1200), None);
    assert_eq!(calculate_offset_from_rva(&[], 0x1010), None);
}

#[test]
fn stack_and_heap_sizes_from_pe_or_overrides() {
    let info = pe_info(0);
    let cfg = SandboxMemoryConfiguration::default();
    assert_eq!(cfg.get_stack_size(&info), 0x10000);
    assert_eq!(cfg.get_heap_size(&info), 0x20000);
    let cfg = SandboxMemoryConfiguration::new(0, 0, 0, 0, 0, Some(0x3000), Some(0x10000));
    assert_eq!(cfg.get_stack_size(&info), 0x3000);
    assert_eq!(cfg.get_heap_size(&info), 0x10000);
}

#[test]
fn load_guest_binary_common_lays_out_memory() {
    let info = pe_info(0);
    let mut cfg = SandboxMemoryConfiguration::default();
    cfg.stack_size_override = 0x3000;
    cfg.heap_size_override = 0x10000;
    let (layout, shared_mem, load_addr, entry) =
        load_guest_binary_common(cfg, &info, 100, false).unwrap();
    assert_eq!(layout.get_stack_size(), 0x3000);
    assert_eq!(layout.get_heap_size(), 0x10000);
    assert_eq!(layout.get_memory_size().unwrap(), shared_mem.mem_size());
    assert_eq!(load_addr.as_u64(), SandboxMemoryLayout::GUEST_CODE_ADDRESS as u64);
    assert_eq!(u64::from(entry), 0x40);
    let code_ptr = u64::from(layout.get_code_pointer_offset()) as usize;
    assert_eq!(
        shared_mem.read_u64(code_ptr).unwrap(),
        SandboxMemoryLayout::GUEST_CODE_ADDRESS as u64
    );
}

#[test]
fn load_guest_binary_into_memory_relocates_and_copies() {
    let mut info = pe_info(0);
    let cfg = SandboxMemoryConfiguration::default();
    let mgr = SandboxMemoryManager::load_guest_binary_into_memory(cfg, &mut info, false).unwrap();
    let mem = mgr.get_shared_mem();
    let code = SandboxMemoryLayout::CODE_OFFSET;
    assert_eq!(mem.read_u64(code + 0x110).unwrap(), 0x20_4000);
    assert_eq!(mgr.get_load_addr().as_u64(), 0x20_3000);
    assert_eq!(u64::from(mgr.get_entrypoint_offset()), 0x40);
    assert!(!mgr.is_in_process());
    let mut copied = vec![0u8; 0x400];
    mem.copy_to_slice(&mut copied, code).unwrap();
    assert_eq!(copied, info.get_payload().to_vec());
}

#[test]
fn exe_info_load() {
    let mut exe = ExeInfo::PE(pe_info(0));
    assert_eq!(exe.stack_reserve(), 0x10000);
    assert_eq!(exe.heap_reserve(), 0x20000);
    assert_eq!(u64::from(exe.entrypoint()), 0x40);
    assert_eq!(exe.loaded_size(), 0x400);
    let mut target = vec![0xffu8; 0x500];
    exe.load(0x20_0000, &mut target).unwrap();
    assert_eq!(u64::from_le_bytes(target[0x110..0x118].try_into().unwrap()), 0x20_1000);
    assert_eq!(target[0x400], 0xff);
}

#[test]
fn prepare_sandbox_memory_guards_and_lays_out() {
    let mut info = pe_info(0);
    let cfg = SandboxMemoryConfiguration::default();
    let cookie = [7u8; 16];
    let wrapper = prepare_sandbox_memory(cfg, &mut info, false, cookie).unwrap();
    assert_eq!(*wrapper.get_stack_cookie(), cookie);
    assert_eq!(wrapper.check_stack_guard(), Ok(true));
    let mgr = wrapper.as_ref();
    let layout = mgr.get_layout();
    let mem = mgr.get_shared_mem();
    let top = u64::from(layout.get_top_of_stack_offset()) as usize;
    let mut guard = [0u8; 16];
    mem.copy_to_slice(&mut guard, top).unwrap();
    assert_eq!(guard, cookie);
    let input_ptr = u64::from(layout.get_input_data_pointer_offset()) as usize;
    let input_buf = u64::from(layout.get_input_data_buffer_offset());
    assert_eq!(
        mem.read_u64(input_ptr).unwrap(),
        SandboxMemoryLayout::BASE_ADDRESS as u64 + input_buf
    );
    // the binary is in place, relocated for the guest's code address
    assert_eq!(mem.read_u64(SandboxMemoryLayout::CODE_OFFSET + 0x110).unwrap(), 0x20_4000);
}

#[test]
fn new_sandbox_memory_refuses_what_is_not_a_pe_file() {
    let cfg = SandboxMemoryConfiguration::default();
    let r = new_sandbox_memory(&[0u8; 64], cfg, false);
    assert!(matches!(r, Err(HyperlightError::PeParseFailed(_))));
}

#[test]
fn stack_guards_are_random() {
    let a = create_stack_guard().unwrap();
    let b = create_stack_guard().unwrap();
    assert_ne!(a, b);
}
