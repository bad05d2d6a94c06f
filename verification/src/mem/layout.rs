//! The layout of a sandbox's memory.
//!
//! ```text
//! +-------------------------------------------+
//! |               Guest Stack                 |
//! +-------------------------------------------+
//! |             Guard Page (4KiB)             |
//! +-------------------------------------------+
//! |             Guest Heap                    |
//! +-------------------------------------------+
//! |         Guest Panic Context               |
//! +-------------------------------------------+
//! |             Output Data                   |
//! +-------------------------------------------+
//! |              Input Data                   |
//! +-------------------------------------------+
//! |           Guest Error Log                 |
//! +-------------------------------------------+
//! |        Host Exception Handlers            |
//! +-------------------------------------------+
//! |        Host Function Definitions          |
//! +-------------------------------------------+
//! |                PEB Struct (0x98)          |
//! +-------------------------------------------+
//! |               Guest Code                  |
//! +-------------------------------------------+ 0x203_000
//! |                    PD                     |
//! +-------------------------------------------+ 0x202_000
//! |                   PDPT                    |
//! +-------------------------------------------+ 0x201_000
//! |                   PML4                    |
//! +-------------------------------------------+ 0x200_000
//! |                    ⋮                      |
//! |                 Unmapped                  |
//! |                    ⋮                      |
//! +-------------------------------------------+ 0x0
//! ```
use crate::error::HyperlightError;
use crate::mem::config::SandboxMemoryConfiguration;
use crate::mem::le_bytes::{
    apply_writes, le_decode, le_encode, lemma_apply_writes_frame, lemma_apply_writes_read_back,
    lemma_decode_encode, writes_in_bounds,
    lemma_le_encode_len, lemma_pow256_values, lemma_update_bytes_len, update_bytes, written_by,
};
use crate::mem::ptr_offset::{round_up, usize_to_u64, Offset};
use crate::mem::shared_mem::SharedMemory;
use crate::mem::ptr::HostPtr;
use crate::mem::ptr_addr_space::AddressSpace;
use crate::random::os_random_bytes;
use vstd::prelude::*;

verus! {

/// The size of the `HostFunctionDefinitions` record of the PEB: a size and a pointer.
pub const SIZE_OF_HOST_FUNCTION_DEFINITIONS: usize = 16;
/// The size of the `HostException` record of the PEB: a size.
pub const SIZE_OF_HOST_EXCEPTION: usize = 8;
/// The size of the `GuestErrorData` record of the PEB: a size and a pointer.
pub const SIZE_OF_GUEST_ERROR_DATA: usize = 16;
/// The size of the code pointer, the outb pointer and the outb context of the PEB.
pub const SIZE_OF_CODE_AND_OUTB_POINTERS: usize = 24;
/// The size of the `InputData` record of the PEB: a size and a pointer.
pub const SIZE_OF_INPUT_DATA: usize = 16;
/// The size of the `OutputData` record of the PEB: a size and a pointer.
pub const SIZE_OF_OUTPUT_DATA: usize = 16;
/// The size of the `GuestPanicContextData` record of the PEB: a size and a pointer.
pub const SIZE_OF_GUEST_PANIC_CONTEXT_DATA: usize = 16;
/// The size of the `GuestHeapData` record of the PEB: a size and a pointer.
pub const SIZE_OF_GUEST_HEAP_DATA: usize = 16;
/// The size of the `GuestStackData` record of the PEB: the minimum stack address.
pub const SIZE_OF_GUEST_STACK_DATA: usize = 8;
/// The size of the whole PEB.
pub const SIZE_OF_HYPERLIGHT_PEB: usize = 0x98;
/// The size of a page of guest memory.
pub const PAGE_SIZE_USIZE: usize = 0x1000;

/// The offsets and sizes that make up a sandbox memory layout, as plain values.
pub struct LayoutValues {
    pub sandbox_memory_config: SandboxMemoryConfiguration,
    pub stack_size: usize,
    pub heap_size: usize,
    pub peb_offset: u64,
    pub peb_security_cookie_seed_offset: u64,
    pub peb_guest_dispatch_function_ptr_offset: u64,
    pub peb_host_function_definitions_offset: u64,
    pub peb_host_exception_offset: u64,
    pub peb_guest_error_offset: u64,
    pub peb_code_and_outb_pointer_offset: u64,
    pub peb_input_data_offset: u64,
    pub peb_output_data_offset: u64,
    pub peb_guest_panic_context_offset: u64,
    pub peb_heap_data_offset: u64,
    pub peb_stack_data_offset: u64,
    pub host_function_definitions_buffer_offset: u64,
    pub host_exception_buffer_offset: u64,
    pub guest_error_buffer_offset: u64,
    pub input_data_buffer_offset: u64,
    pub output_data_buffer_offset: u64,
    pub guest_panic_context_buffer_offset: u64,
    pub guest_heap_buffer_offset: u64,
    pub guard_page_offset: u64,
    pub guest_stack_buffer_offset: u64,
    pub peb_address: usize,
    pub code_size: usize,
    pub extra_heap_needed: usize,
}

/// The offset of the PEB: right after the page tables and the code.
pub open spec fn spec_peb_offset(code_size: usize) -> int {
    SandboxMemoryLayout::PAGE_TABLE_SIZE + code_size
}

/// The offset of the guest heap buffer.
pub open spec fn spec_heap_buffer_offset(cfg: SandboxMemoryConfiguration, code_size: usize) -> int {
    spec_peb_offset(code_size) + SIZE_OF_HYPERLIGHT_PEB + cfg.host_function_definition_size
        + cfg.host_exception_size + cfg.guest_error_buffer_size + cfg.input_data_size
        + cfg.output_data_size + cfg.guest_panic_context_buffer_size
}

/// The end of the guest heap before the guard page is aligned.
pub open spec fn spec_heap_end(cfg: SandboxMemoryConfiguration, code_size: usize, heap_size: usize) -> int {
    spec_heap_buffer_offset(cfg, code_size) + heap_size
}

/// Whether a layout of these sizes can be computed without overflow.
pub open spec fn layout_fits(cfg: SandboxMemoryConfiguration, code_size: usize, heap_size: usize) -> bool {
    &&& SandboxMemoryLayout::PAGE_TABLE_SIZE + code_size <= usize::MAX
    &&& SandboxMemoryLayout::BASE_ADDRESS + spec_peb_offset(code_size) <= u64::MAX
    &&& round_up(spec_heap_end(cfg, code_size, heap_size), SandboxMemoryLayout::FOUR_K as int)
        + SandboxMemoryLayout::FOUR_K <= u64::MAX
}

/// The layout of a sandbox with the given configuration, code, stack and heap size.
#[verifier::opaque]
pub open spec fn spec_layout(
    cfg: SandboxMemoryConfiguration,
    code_size: usize,
    stack_size: usize,
    heap_size: usize,
) -> LayoutValues {
    let peb = spec_peb_offset(code_size);
    let hfd_buf = peb + SIZE_OF_HYPERLIGHT_PEB;
    let he_buf = hfd_buf + cfg.host_function_definition_size;
    let ge_buf = he_buf + cfg.host_exception_size;
    let in_buf = ge_buf + cfg.guest_error_buffer_size;
    let out_buf = in_buf + cfg.input_data_size;
    let panic_buf = out_buf + cfg.output_data_size;
    let heap_buf = panic_buf + cfg.guest_panic_context_buffer_size;
    let heap_end = heap_buf + heap_size;
    let guard = round_up(heap_end, SandboxMemoryLayout::FOUR_K as int);
    LayoutValues {
        sandbox_memory_config: cfg,
        stack_size,
        heap_size,
        peb_offset: peb as u64,
        peb_security_cookie_seed_offset: peb as u64,
        peb_guest_dispatch_function_ptr_offset: (peb + 8) as u64,
        peb_host_function_definitions_offset: (peb + 16) as u64,
        peb_host_exception_offset: (peb + 32) as u64,
        peb_guest_error_offset: (peb + 40) as u64,
        peb_code_and_outb_pointer_offset: (peb + 56) as u64,
        peb_input_data_offset: (peb + 80) as u64,
        peb_output_data_offset: (peb + 96) as u64,
        peb_guest_panic_context_offset: (peb + 112) as u64,
        peb_heap_data_offset: (peb + 128) as u64,
        peb_stack_data_offset: (peb + 144) as u64,
        host_function_definitions_buffer_offset: hfd_buf as u64,
        host_exception_buffer_offset: he_buf as u64,
        guest_error_buffer_offset: ge_buf as u64,
        input_data_buffer_offset: in_buf as u64,
        output_data_buffer_offset: out_buf as u64,
        guest_panic_context_buffer_offset: panic_buf as u64,
        guest_heap_buffer_offset: heap_buf as u64,
        guard_page_offset: guard as u64,
        guest_stack_buffer_offset: (guard + SandboxMemoryLayout::FOUR_K) as u64,
        peb_address: (SandboxMemoryLayout::BASE_ADDRESS + peb) as usize,
        code_size,
        extra_heap_needed: (guard - heap_end) as usize,
    }
}

/// The total size of guest memory of a layout, before rounding to whole pages.
pub open spec fn spec_unaligned_memory_size(l: LayoutValues) -> int {
    SandboxMemoryLayout::PAGE_TABLE_SIZE + l.code_size + SIZE_OF_HYPERLIGHT_PEB
        + l.sandbox_memory_config.host_function_definition_size
        + l.sandbox_memory_config.host_exception_size
        + l.sandbox_memory_config.guest_error_buffer_size
        + l.sandbox_memory_config.input_data_size + l.sandbox_memory_config.output_data_size
        + l.sandbox_memory_config.guest_panic_context_buffer_size + l.heap_size
        + l.extra_heap_needed + PAGE_SIZE_USIZE + l.stack_size
}

/// A layout is well formed when it is the one computed from its
/// configuration and sizes, and that computation does not overflow.
pub open spec fn layout_wf(l: LayoutValues) -> bool {
    &&& layout_fits(l.sandbox_memory_config, l.code_size, l.heap_size)
    &&& SandboxMemoryLayout::BASE_ADDRESS + spec_peb_offset(l.code_size) <= usize::MAX
    &&& l == spec_layout(l.sandbox_memory_config, l.code_size, l.stack_size, l.heap_size)
}

/// The memory of a well-formed layout ends exactly where its stack ends:
/// the unaligned memory size is the offset of the stack plus its size.
pub proof fn lemma_memory_size_is_end_of_stack(l: LayoutValues)
    requires
        layout_wf(l),
    ensures
        spec_unaligned_memory_size(l) == l.guest_stack_buffer_offset + l.stack_size,
{
    reveal(spec_layout);
    let he = spec_heap_end(l.sandbox_memory_config, l.code_size, l.heap_size);
    assert(round_up(he, SandboxMemoryLayout::FOUR_K as int) >= he);
}

/// The regions of a well-formed layout follow one another in order without
/// overlapping, the guard page starts on a page boundary right after the
/// heap (which is extended by less than a page to reach it), the stack
/// starts one page after it, and the PEB lies right after the code.
pub proof fn lemma_layout_regions_ordered(l: LayoutValues)
    requires
        layout_wf(l),
    ensures
        l.peb_offset == SandboxMemoryLayout::PAGE_TABLE_SIZE + l.code_size,
        l.peb_security_cookie_seed_offset == l.peb_offset,
        l.peb_guest_dispatch_function_ptr_offset == l.peb_offset + 8,
        l.peb_host_function_definitions_offset == l.peb_offset + 16,
        l.peb_host_exception_offset == l.peb_offset + 32,
        l.peb_guest_error_offset == l.peb_offset + 40,
        l.peb_code_and_outb_pointer_offset == l.peb_offset + 56,
        l.peb_input_data_offset == l.peb_offset + 80,
        l.peb_output_data_offset == l.peb_offset + 96,
        l.peb_guest_panic_context_offset == l.peb_offset + 112,
        l.peb_heap_data_offset == l.peb_offset + 128,
        l.peb_stack_data_offset == l.peb_offset + 144,
        l.peb_address == SandboxMemoryLayout::BASE_ADDRESS + l.peb_offset,
        l.host_function_definitions_buffer_offset == l.peb_offset + SIZE_OF_HYPERLIGHT_PEB,
        l.host_exception_buffer_offset == l.host_function_definitions_buffer_offset
            + l.sandbox_memory_config.host_function_definition_size,
        l.guest_error_buffer_offset == l.host_exception_buffer_offset
            + l.sandbox_memory_config.host_exception_size,
        l.input_data_buffer_offset == l.guest_error_buffer_offset
            + l.sandbox_memory_config.guest_error_buffer_size,
        l.output_data_buffer_offset == l.input_data_buffer_offset
            + l.sandbox_memory_config.input_data_size,
        l.guest_panic_context_buffer_offset == l.output_data_buffer_offset
            + l.sandbox_memory_config.output_data_size,
        l.guest_heap_buffer_offset == l.guest_panic_context_buffer_offset
            + l.sandbox_memory_config.guest_panic_context_buffer_size,
        l.guard_page_offset == l.guest_heap_buffer_offset + l.heap_size + l.extra_heap_needed,
        l.extra_heap_needed < SandboxMemoryLayout::FOUR_K,
        (l.guard_page_offset as int) % (SandboxMemoryLayout::FOUR_K as int) == 0,
        l.guest_stack_buffer_offset == l.guard_page_offset + SandboxMemoryLayout::FOUR_K,
{
    reveal(spec_layout);
    let he = spec_heap_end(l.sandbox_memory_config, l.code_size, l.heap_size);
    let g = round_up(he, SandboxMemoryLayout::FOUR_K as int);
    assert(g >= he && g < he + SandboxMemoryLayout::FOUR_K);
    if he % (SandboxMemoryLayout::FOUR_K as int) != 0 {
        vstd::arithmetic::div_mod::lemma_fundamental_div_mod(he, SandboxMemoryLayout::FOUR_K as int);
        assert((he - he % (SandboxMemoryLayout::FOUR_K as int) + SandboxMemoryLayout::FOUR_K) % (
        SandboxMemoryLayout::FOUR_K as int) == 0);
    }
}

/// The little-endian `u64` at `off` of `m`.
pub open spec fn u64_at(m: Seq<u8>, off: int) -> nat {
    le_decode(m.subrange(off, off + 8))
}

/// Whether `m` holds the PEB fields that `write` puts in place for layout
/// `l`, with guest memory starting at address `go` and of `size` bytes: the
/// sizes and addresses of the buffers, the heap and the stack.
pub open spec fn peb_fields_written(m: Seq<u8>, l: LayoutValues, go: int, size: int) -> bool {
    let cfg = l.sandbox_memory_config;
    &&& u64_at(m, l.peb_host_function_definitions_offset as int)
        == cfg.host_function_definition_size
    &&& u64_at(m, l.peb_host_function_definitions_offset + 8) == go
        + l.host_function_definitions_buffer_offset
    &&& u64_at(m, l.peb_host_exception_offset as int) == cfg.host_exception_size
    &&& u64_at(m, l.peb_guest_error_offset + 8) == go + l.guest_error_buffer_offset
    &&& u64_at(m, l.peb_guest_error_offset as int) == cfg.guest_error_buffer_size
    &&& u64_at(m, l.peb_input_data_offset as int) == cfg.input_data_size
    &&& u64_at(m, l.peb_input_data_offset + 8) == go + l.input_data_buffer_offset
    &&& u64_at(m, l.peb_output_data_offset as int) == cfg.output_data_size
    &&& u64_at(m, l.peb_output_data_offset + 8) == go + l.output_data_buffer_offset
    &&& u64_at(m, l.peb_guest_panic_context_offset as int) == cfg.guest_panic_context_buffer_size
    &&& u64_at(m, l.peb_guest_panic_context_offset + 8) == go
        + l.guest_panic_context_buffer_offset
    &&& u64_at(m, l.peb_heap_data_offset as int) == l.heap_size
    &&& u64_at(m, l.peb_heap_data_offset + 8) == go + l.guest_heap_buffer_offset
    &&& u64_at(m, l.peb_stack_data_offset as int) == go + (size - l.stack_size)
}

/// Whether `m` holds the PEB fields and the initial stack pointers of the
/// input and output buffers that `write` puts in place for layout `l`,
/// with guest memory starting at address `go` and of `size` bytes.
pub open spec fn peb_written(m: Seq<u8>, l: LayoutValues, go: int, size: int) -> bool {
    &&& peb_fields_written(m, l, go, size)
    &&& u64_at(m, l.input_data_buffer_offset as int) == SandboxMemoryLayout::STACK_POINTER_SIZE_BYTES
    &&& u64_at(m, l.output_data_buffer_offset as int)
        == SandboxMemoryLayout::STACK_POINTER_SIZE_BYTES
}

/// Whether `m` is memory `m0` after `write` put layout `l` in place, with
/// guest memory starting at address `go` and of `size` bytes: the writes of
/// `peb_log` with some 8-byte security cookie seed were made, so the PEB
/// fields and the output buffer's stack pointer hold what `write` puts there,
/// the input buffer's does too where that buffer can hold it, and every
/// other byte is unchanged.
pub open spec fn layout_written(m0: Seq<u8>, m: Seq<u8>, l: LayoutValues, go: int, size: int) -> bool {
    &&& exists|seed: Seq<u8>|
        seed.len() == 8 && m == apply_writes(m0, #[trigger] peb_log(l, go, size, seed))
    &&& peb_fields_written(m, l, go, size)
    &&& u64_at(m, l.output_data_buffer_offset as int)
        == SandboxMemoryLayout::STACK_POINTER_SIZE_BYTES
    &&& l.sandbox_memory_config.input_data_size == 0 || l.sandbox_memory_config.input_data_size
        >= 8 ==> peb_written(m, l, go, size)
    &&& forall|j: int|
        0 <= j < m0.len() && outside_peb_and_stack_pointers(l, j) ==> #[trigger] m[j] == m0[j]
}

/// Whether the writes of `write` fit in memory of `len` bytes: the output
/// buffer's stack pointer is the last of them, and where guest memory starts
/// at address `0` the buffers' addresses are computed from host memory,
/// which checks each against its length.
pub open spec fn layout_write_fits(l: LayoutValues, go: int, len: int) -> bool {
    &&& l.output_data_buffer_offset + 8 <= len
    &&& go == 0 ==> l.guest_heap_buffer_offset <= len
}

/// Whether `e` is an error that writing the layout to memory too small for
/// it gives: a bounds check that failed, or an offset beyond `usize`.
pub open spec fn is_layout_write_error(e: HyperlightError) -> bool {
    e is BoundsCheckFailed || e is ArithmeticOverflow
}

/// Whether byte `j` lies outside the PEB and outside the stack pointers of
/// the input and output buffers of layout `l`.
pub open spec fn outside_peb_and_stack_pointers(l: LayoutValues, j: int) -> bool {
    &&& !(l.peb_offset <= j < l.peb_offset + SIZE_OF_HYPERLIGHT_PEB)
    &&& !(l.input_data_buffer_offset <= j < l.input_data_buffer_offset + 8)
    &&& !(l.output_data_buffer_offset <= j < l.output_data_buffer_offset + 8)
}

/// The value of the `i`-th write of `peb_log` for `1 <= i`, each written
/// as a little-endian `u64`.
pub open spec fn peb_log_value(l: LayoutValues, go: int, size: int, i: int) -> int {
    let cfg = l.sandbox_memory_config;
    if i == 1 {
        cfg.host_function_definition_size as int
    } else if i == 2 {
        go + l.host_function_definitions_buffer_offset
    } else if i == 3 {
        cfg.host_exception_size as int
    } else if i == 4 {
        go + l.guest_error_buffer_offset
    } else if i == 5 {
        cfg.guest_error_buffer_size as int
    } else if i == 6 {
        cfg.input_data_size as int
    } else if i == 7 {
        go + l.input_data_buffer_offset
    } else if i == 8 {
        cfg.output_data_size as int
    } else if i == 9 {
        go + l.output_data_buffer_offset
    } else if i == 10 {
        cfg.guest_panic_context_buffer_size as int
    } else if i == 11 {
        go + l.guest_panic_context_buffer_offset
    } else if i == 12 {
        l.heap_size as int
    } else if i == 13 {
        go + l.guest_heap_buffer_offset
    } else if i == 14 {
        go + (size - l.stack_size)
    } else {
        SandboxMemoryLayout::STACK_POINTER_SIZE_BYTES as int
    }
}

/// The number of writes of `peb_log`: the stack pointer of the output
/// buffer is written separately unless it lies where the input buffer's does.
pub open spec fn peb_log_len(l: LayoutValues) -> nat {
    if l.output_data_buffer_offset != l.input_data_buffer_offset {
        17
    } else {
        16
    }
}

/// The writes that `write` makes for layout `l` with guest memory at `go` of
/// `size` bytes and security cookie seed `seed`, in the order it makes them:
/// the seed, then the PEB fields and the two stack pointers.
pub open spec fn peb_log(l: LayoutValues, go: int, size: int, seed: Seq<u8>) -> Seq<(int, Seq<u8>)> {
    Seq::new(
        peb_log_len(l),
        |i: int|
            if i == 0 {
                (l.peb_offset as int, seed)
            } else {
                (peb_log_offset(l, i), le_encode(peb_log_value(l, go, size, i) as nat, 8))
            },
    )
}

/// The offset of the `i`-th write of `peb_log`.
pub open spec fn peb_log_offset(l: LayoutValues, i: int) -> int {
    let peb = l.peb_offset as int;
    if i == 0 {
        peb
    } else if i == 1 {
        peb + 16
    } else if i == 2 {
        peb + 24
    } else if i == 3 {
        peb + 32
    } else if i == 4 {
        peb + 48
    } else if i == 5 {
        peb + 40
    } else if i == 6 {
        peb + 80
    } else if i == 7 {
        peb + 88
    } else if i == 8 {
        peb + 96
    } else if i == 9 {
        peb + 104
    } else if i == 10 {
        peb + 112
    } else if i == 11 {
        peb + 120
    } else if i == 12 {
        peb + 128
    } else if i == 13 {
        peb + 136
    } else if i == 14 {
        peb + 144
    } else if i == 15 {
        l.input_data_buffer_offset as int
    } else {
        l.output_data_buffer_offset as int
    }
}

/// Where each write of `peb_log` goes, and that each is 8 bytes long.
proof fn lemma_peb_log_shape(l: LayoutValues, go: int, size: int, seed: Seq<u8>)
    requires
        seed.len() == 8,
    ensures
        forall|i: int|
            0 <= i < peb_log(l, go, size, seed).len() ==> (#[trigger] peb_log(
                l,
                go,
                size,
                seed,
            )[i]).0 == peb_log_offset(l, i) && peb_log(l, go, size, seed)[i].1.len() == 8,
{
    let ws = peb_log(l, go, size, seed);
    assert forall|i: int| 0 <= i < ws.len() implies (#[trigger] ws[i]).0 == peb_log_offset(l, i)
        && ws[i].1.len() == 8 by {
        lemma_le_encode_len(peb_log_value(l, go, size, i) as nat, 8);
    }
}

/// After the writes of `peb_log`, which fit in memory: the security cookie
/// seed and the PEB fields hold what `write` puts there, and so does the
/// output buffer's stack pointer; the input buffer's holds it too where that
/// buffer can hold it (otherwise the output buffer's overlaps it); every
/// other byte is unchanged.
#[verifier::spinoff_prover]
#[verifier::rlimit(60)]
proof fn lemma_peb_log_effects(m0: Seq<u8>, l: LayoutValues, go: int, size: int, seed: Seq<u8>)
    requires
        peb_write_ready(l, go, size, seed, go),
        go >= 0,
        l.output_data_buffer_offset + 8 <= m0.len(),
    ensures
        apply_writes(m0, peb_log(l, go, size, seed)).len() == m0.len(),
        apply_writes(m0, peb_log(l, go, size, seed)).subrange(l.peb_offset as int, l.peb_offset + 8)
            == seed,
        peb_fields_written(apply_writes(m0, peb_log(l, go, size, seed)), l, go, size),
        u64_at(apply_writes(m0, peb_log(l, go, size, seed)), l.output_data_buffer_offset as int)
            == SandboxMemoryLayout::STACK_POINTER_SIZE_BYTES,
        l.sandbox_memory_config.input_data_size == 0 || l.sandbox_memory_config.input_data_size
            >= 8 ==> peb_written(apply_writes(m0, peb_log(l, go, size, seed)), l, go, size),
        forall|j: int|
            0 <= j < m0.len() && outside_peb_and_stack_pointers(l, j) ==> #[trigger] apply_writes(
                m0,
                peb_log(l, go, size, seed),
            )[j] == m0[j],
{
    lemma_layout_regions_ordered(l);
    lemma_peb_log_shape(l, go, size, seed);
    lemma_pow256_values();
    let ws = peb_log(l, go, size, seed);
    let cond = l.sandbox_memory_config.input_data_size == 0
        || l.sandbox_memory_config.input_data_size >= 8;
    assert(writes_in_bounds(ws, m0.len() as int)) by {
        assert forall|i: int| 0 <= i < ws.len() implies 0 <= #[trigger] ws[i].0 && ws[i].0
            + ws[i].1.len() <= m0.len() by {
            assert(ws[i].0 == peb_log_offset(l, i));
        }
    }
    lemma_apply_writes_frame(m0, ws);
    let m = apply_writes(m0, ws);
    assert forall|i: int|
        0 <= i < ws.len() && (i < 15 || i == ws.len() - 1 || cond) implies #[trigger] m.subrange(
        ws[i].0,
        ws[i].0 + ws[i].1.len(),
    ) == ws[i].1 by {
        assert forall|k: int| i < k < ws.len() implies #[trigger] ws[k].0 + ws[k].1.len() <= ws[i].0
            || ws[i].0 + ws[i].1.len() <= ws[k].0 by {
            assert(ws[i].0 == peb_log_offset(l, i));
            assert(ws[k].0 == peb_log_offset(l, k));
        }
        lemma_apply_writes_read_back(m0, ws, i);
    }
    assert forall|i: int|
        1 <= i < ws.len() && (i < 15 || i == ws.len() - 1 || cond) implies u64_at(
        m,
        #[trigger] peb_log_offset(l, i),
    ) == peb_log_value(l, go, size, i) by {
        assert(ws[i].0 == peb_log_offset(l, i));
        assert(m.subrange(ws[i].0, ws[i].0 + ws[i].1.len()) == ws[i].1);
        lemma_decode_encode(peb_log_value(l, go, size, i) as nat, 8);
    }
    assert(ws[0].0 == peb_log_offset(l, 0));
    assert(m.subrange(ws[0].0, ws[0].0 + ws[0].1.len()) == ws[0].1);
    assert(u64_at(m, peb_log_offset(l, 1)) == peb_log_value(l, go, size, 1));
    assert(u64_at(m, peb_log_offset(l, 2)) == peb_log_value(l, go, size, 2));
    assert(u64_at(m, peb_log_offset(l, 3)) == peb_log_value(l, go, size, 3));
    assert(u64_at(m, peb_log_offset(l, 4)) == peb_log_value(l, go, size, 4));
    assert(u64_at(m, peb_log_offset(l, 5)) == peb_log_value(l, go, size, 5));
    assert(u64_at(m, peb_log_offset(l, 6)) == peb_log_value(l, go, size, 6));
    assert(u64_at(m, peb_log_offset(l, 7)) == peb_log_value(l, go, size, 7));
    assert(u64_at(m, peb_log_offset(l, 8)) == peb_log_value(l, go, size, 8));
    assert(u64_at(m, peb_log_offset(l, 9)) == peb_log_value(l, go, size, 9));
    assert(u64_at(m, peb_log_offset(l, 10)) == peb_log_value(l, go, size, 10));
    assert(u64_at(m, peb_log_offset(l, 11)) == peb_log_value(l, go, size, 11));
    assert(u64_at(m, peb_log_offset(l, 12)) == peb_log_value(l, go, size, 12));
    assert(u64_at(m, peb_log_offset(l, 13)) == peb_log_value(l, go, size, 13));
    assert(u64_at(m, peb_log_offset(l, 14)) == peb_log_value(l, go, size, 14));
    let last = ws.len() - 1;
    assert(u64_at(m, peb_log_offset(l, last)) == peb_log_value(l, go, size, last));
    if cond {
        assert(u64_at(m, peb_log_offset(l, 15)) == peb_log_value(l, go, size, 15));
    }
    assert forall|j: int| 0 <= j < m0.len() && outside_peb_and_stack_pointers(l, j) implies #[trigger] m[j]
        == m0[j] by {
        if written_by(ws, j) {
            let i = choose|i: int| 0 <= i < ws.len() && #[trigger] ws[i].0 <= j < ws[i].0 + ws[i].1.len();
            assert(ws[i].0 == peb_log_offset(l, i));
        }
    }
}

/// Appending a write that fits to a log of writes that produced `prev`.
proof fn lemma_log_write(m0: Seq<u8>, ws: Seq<(int, Seq<u8>)>, prev: Seq<u8>, off: int, bytes: Seq<u8>)
    requires
        prev == apply_writes(m0, ws),
        prev.len() == m0.len(),
        0 <= off,
        off + bytes.len() <= prev.len(),
    ensures
        update_bytes(prev, off, bytes) == apply_writes(m0, ws.push((off, bytes))),
        update_bytes(prev, off, bytes).len() == m0.len(),
{
    assert(ws.push((off, bytes)).drop_last() =~= ws);
    lemma_update_bytes_len(prev, off, bytes);
}

/// What the success of the `k`-th write of `peb_log` shows of memory of
/// `len` bytes: that the write fits, and for the heap pointer, whose address
/// is computed from host memory where guest memory starts at `0`, that the
/// heap starts within it.
pub open spec fn peb_log_entry_fits(l: LayoutValues, go: int, len: int, k: int) -> bool {
    &&& k >= 1 ==> peb_log_offset(l, k) + 8 <= len
    &&& k == 13 && go == 0 ==> l.guest_heap_buffer_offset <= len
}

/// What `write` has checked before it writes the PEB of layout `l` with
/// guest memory at `go` of `size` bytes, the memory's base address being
/// `base`.
pub open spec fn peb_write_ready(l: LayoutValues, go: int, size: int, seed: Seq<u8>, base: int) -> bool {
    &&& layout_wf(l)
    &&& seed.len() == 8
    &&& size >= l.stack_size
    &&& go + (size - l.stack_size) <= usize::MAX
    &&& go + l.guest_stack_buffer_offset <= u64::MAX
    &&& (go == SandboxMemoryLayout::BASE_ADDRESS || go == base)
}

/// Write `value` at `offset` of `mem`, with the offset taken as an `Offset`.
fn put_u64(mem: &mut SharedMemory, offset: Offset, value: u64) -> (r: Result<(), HyperlightError>)
    ensures
        r is Ok <==> offset@ + 8 <= old(mem)@.len(),
        r is Ok ==> final(mem)@ == update_bytes(
            old(mem)@,
            offset@ as int,
            le_encode(value as nat, 8),
        ),
        r is Err ==> final(mem)@ == old(mem)@,
        r matches Err(e) ==> is_layout_write_error(e),
        final(mem).spec_base_addr() == old(mem).spec_base_addr(),
{
    proof {
        lemma_le_encode_len(value as nat, 8);
    }
    let len = mem.mem_size();
    let o = offset.try_to_usize()?;
    if o > len || 8 > len - o {
        return Err(HyperlightError::BoundsCheckFailed(o, 8, len));
    }
    mem.write_u64(o, value)
}

/// Write `value` at `offset` of `mem` as the `k`-th write of the log `log`
/// of writes made since memory was `m0`.
fn put_log_entry(
    mem: &mut SharedMemory,
    offset: Offset,
    value: u64,
    Ghost(m0): Ghost<Seq<u8>>,
    Ghost(log): Ghost<Seq<(int, Seq<u8>)>>,
    Ghost(k): Ghost<int>,
) -> (r: Result<(), HyperlightError>)
    requires
        old(mem)@ == apply_writes(m0, log.take(k)),
        old(mem)@.len() == m0.len(),
        0 <= k < log.len(),
        log[k] == (offset@ as int, le_encode(value as nat, 8)),
    ensures
        final(mem).spec_base_addr() == old(mem).spec_base_addr(),
        r is Ok <==> offset@ + 8 <= m0.len(),
        r is Ok ==> final(mem)@ == apply_writes(m0, log.take(k + 1)) && final(mem)@.len()
            == m0.len(),
        r is Err ==> final(mem)@ == old(mem)@,
        r matches Err(e) ==> is_layout_write_error(e),
{
    let ghost prev = mem@;
    let r = put_u64(mem, offset, value);
    proof {
        if r is Ok {
            lemma_le_encode_len(value as nat, 8);
            lemma_log_write(m0, log.take(k), prev, offset@ as int, le_encode(value as nat, 8));
            assert(log.take(k).push((offset@ as int, le_encode(value as nat, 8))) =~= log.take(
                k + 1,
            ));
        }
    }
    r
}

/// The layout of a sandbox's memory: where each region and each field of
/// the PEB lies, as offsets from the start of guest memory.
#[derive(Copy, Clone, Debug)]
pub struct SandboxMemoryLayout {
    sandbox_memory_config: SandboxMemoryConfiguration,
    stack_size: usize,
    heap_size: usize,
    peb_offset: Offset,
    peb_security_cookie_seed_offset: Offset,
    peb_guest_dispatch_function_ptr_offset: Offset,
    peb_host_function_definitions_offset: Offset,
    peb_host_exception_offset: Offset,
    peb_guest_error_offset: Offset,
    peb_code_and_outb_pointer_offset: Offset,
    peb_input_data_offset: Offset,
    peb_output_data_offset: Offset,
    peb_guest_panic_context_offset: Offset,
    peb_heap_data_offset: Offset,
    peb_stack_data_offset: Offset,
    host_function_definitions_buffer_offset: Offset,
    host_exception_buffer_offset: Offset,
    guest_error_buffer_offset: Offset,
    input_data_buffer_offset: Offset,
    output_data_buffer_offset: Offset,
    guest_panic_context_buffer_offset: Offset,
    guest_heap_buffer_offset: Offset,
    guard_page_offset: Offset,
    guest_stack_buffer_offset: Offset,
    peb_address: usize,
    code_size: usize,
    extra_heap_needed: usize,
}

impl View for SandboxMemoryLayout {
    type V = LayoutValues;

    closed spec fn view(&self) -> LayoutValues {
        LayoutValues {
            sandbox_memory_config: self.sandbox_memory_config,
            stack_size: self.stack_size,
            heap_size: self.heap_size,
            peb_offset: self.peb_offset@,
            peb_security_cookie_seed_offset: self.peb_security_cookie_seed_offset@,
            peb_guest_dispatch_function_ptr_offset: self.peb_guest_dispatch_function_ptr_offset@,
            peb_host_function_definitions_offset: self.peb_host_function_definitions_offset@,
            peb_host_exception_offset: self.peb_host_exception_offset@,
            peb_guest_error_offset: self.peb_guest_error_offset@,
            peb_code_and_outb_pointer_offset: self.peb_code_and_outb_pointer_offset@,
            peb_input_data_offset: self.peb_input_data_offset@,
            peb_output_data_offset: self.peb_output_data_offset@,
            peb_guest_panic_context_offset: self.peb_guest_panic_context_offset@,
            peb_heap_data_offset: self.peb_heap_data_offset@,
            peb_stack_data_offset: self.peb_stack_data_offset@,
            host_function_definitions_buffer_offset: self.host_function_definitions_buffer_offset@,
            host_exception_buffer_offset: self.host_exception_buffer_offset@,
            guest_error_buffer_offset: self.guest_error_buffer_offset@,
            input_data_buffer_offset: self.input_data_buffer_offset@,
            output_data_buffer_offset: self.output_data_buffer_offset@,
            guest_panic_context_buffer_offset: self.guest_panic_context_buffer_offset@,
            guest_heap_buffer_offset: self.guest_heap_buffer_offset@,
            guard_page_offset: self.guard_page_offset@,
            guest_stack_buffer_offset: self.guest_stack_buffer_offset@,
            peb_address: self.peb_address,
            code_size: self.code_size,
            extra_heap_needed: self.extra_heap_needed,
        }
    }
}

impl SandboxMemoryLayout {
    /// Four Kilobytes (16^3 bytes) - used to round the total amount of memory
    /// used to the nearest 4K
    pub const FOUR_K: usize = 0x1000;
    /// The size of the page table within a sandbox
    pub const PAGE_TABLE_SIZE: usize = 0x3000;
    /// The offset into the sandbox's memory where the PML4 Table is located.
    pub const PML4_OFFSET: usize = 0x0000;
    /// The offset into the sandbox's memory where the Page Directory Pointer
    /// Table starts.
    pub const PDPT_OFFSET: usize = 0x1000;
    /// The offset into the sandbox's memory where the Page Directory starts.
    pub const PD_OFFSET: usize = 0x2000;
    /// The address (not the offset) to the start of the page directory
    pub const PD_GUEST_ADDRESS: usize = Self::BASE_ADDRESS + Self::PD_OFFSET;
    /// The address (not the offset) into sandbox memory where the Page
    /// Directory Pointer Table starts
    pub const PDPT_GUEST_ADDRESS: usize = Self::BASE_ADDRESS + Self::PDPT_OFFSET;
    /// The offset into the sandbox's memory where code starts.
    pub const CODE_OFFSET: usize = Self::PAGE_TABLE_SIZE;
    /// The maximum amount of memory a single sandbox will be allowed.
    pub const MAX_MEMORY_SIZE: usize = 0x3FEF0000;
    /// The base address of the sandbox's memory.
    pub const BASE_ADDRESS: usize = 0x0200000;
    /// The absolute address (assuming sandbox memory starts at BASE_ADDRESS) into
    /// sandbox memory where code starts.
    pub const GUEST_CODE_ADDRESS: usize = Self::BASE_ADDRESS + Self::CODE_OFFSET;
    /// The size of the stack pointer at the start of the input and output
    /// data buffers.
    pub const STACK_POINTER_SIZE_BYTES: u64 = 8;

    /// The well-formedness of a layout: it is the layout computed from its
    /// configuration and sizes.
    #[verifier::type_invariant]
    spec fn inv(self) -> bool {
        &&& layout_fits(self.sandbox_memory_config, self.code_size, self.heap_size)
        &&& Self::BASE_ADDRESS + spec_peb_offset(self.code_size) <= usize::MAX
        &&& self@ == spec_layout(
            self.sandbox_memory_config,
            self.code_size,
            self.stack_size,
            self.heap_size,
        )
    }

    /// Create a new `SandboxMemoryLayout` with the given configuration, code
    /// size and stack/heap size.
    ///
    /// Returns `Err` when the address of the PEB does not fit in a `usize`.
    pub fn new(
        cfg: SandboxMemoryConfiguration,
        code_size: usize,
        stack_size: usize,
        heap_size: usize,
    ) -> (r: Result<Self, HyperlightError>)
        requires
            layout_fits(cfg, code_size, heap_size),
        ensures
            Self::BASE_ADDRESS + spec_peb_offset(code_size) <= usize::MAX ==> (r matches Ok(l) && l@
                == spec_layout(cfg, code_size, stack_size, heap_size) && layout_wf(l@)),
            Self::BASE_ADDRESS + spec_peb_offset(code_size) > usize::MAX ==> r == Err::<
                Self,
                HyperlightError,
            >(HyperlightError::ArithmeticOverflow),
    {
        let heap_end_spec: Ghost<int> = Ghost(spec_heap_end(cfg, code_size, heap_size));
        proof {
            let he = heap_end_spec@;
            assert(round_up(he, Self::FOUR_K as int) >= he);
        }
        let peb_offset = Offset::try_from_usize(Self::PAGE_TABLE_SIZE + code_size)?;
        let peb_security_cookie_seed_offset = Offset::try_from_usize(
            Self::PAGE_TABLE_SIZE + code_size,
        )?;
        let peb_guest_dispatch_function_ptr_offset = peb_security_cookie_seed_offset.add_usize(8);
        let peb_host_function_definitions_offset = peb_guest_dispatch_function_ptr_offset.add_usize(
            8,
        );
        let peb_host_exception_offset = peb_host_function_definitions_offset.add_usize(
            SIZE_OF_HOST_FUNCTION_DEFINITIONS,
        );
        let peb_guest_error_offset = peb_host_exception_offset.add_usize(SIZE_OF_HOST_EXCEPTION);
        let peb_code_and_outb_pointer_offset = peb_guest_error_offset.add_usize(
            SIZE_OF_GUEST_ERROR_DATA,
        );
        let peb_input_data_offset = peb_code_and_outb_pointer_offset.add_usize(
            SIZE_OF_CODE_AND_OUTB_POINTERS,
        );
        let peb_output_data_offset = peb_input_data_offset.add_usize(SIZE_OF_INPUT_DATA);
        let peb_guest_panic_context_offset = peb_output_data_offset.add_usize(SIZE_OF_OUTPUT_DATA);
        let peb_heap_data_offset = peb_guest_panic_context_offset.add_usize(
            SIZE_OF_GUEST_PANIC_CONTEXT_DATA,
        );
        let peb_stack_data_offset = peb_heap_data_offset.add_usize(SIZE_OF_GUEST_HEAP_DATA);
        let peb_address = peb_offset.add_usize(Self::BASE_ADDRESS).try_to_usize()?;
        let host_function_definitions_buffer_offset = peb_stack_data_offset.add_usize(
            SIZE_OF_GUEST_STACK_DATA,
        );
        let host_exception_buffer_offset = host_function_definitions_buffer_offset.add_usize(
            cfg.get_host_function_definition_size(),
        );
        let guest_error_buffer_offset = host_exception_buffer_offset.add_usize(
            cfg.get_host_exception_size(),
        );
        let input_data_buffer_offset = guest_error_buffer_offset.add_usize(
            cfg.get_guest_error_buffer_size(),
        );
        let output_data_buffer_offset = input_data_buffer_offset.add_usize(
            cfg.get_input_data_size(),
        );
        let guest_panic_context_buffer_offset = output_data_buffer_offset.add_usize(
            cfg.get_output_data_size(),
        );
        let guest_heap_buffer_offset = guest_panic_context_buffer_offset.add_usize(
            cfg.get_guest_panic_context_buffer_size(),
        );
        let heap_end = guest_heap_buffer_offset.add_usize(heap_size);
        let guard_page_offset = heap_end.round_up_to(usize_to_u64(Self::FOUR_K));
        let guest_stack_buffer_offset = guard_page_offset.add_usize(Self::FOUR_K);
        let extra_heap_needed = Offset::new(guard_page_offset.as_u64() - heap_end.as_u64())
            .try_to_usize()?;
        proof {
            reveal(spec_layout);
        }
        let l = Self {
            peb_offset,
            stack_size,
            heap_size,
            peb_security_cookie_seed_offset,
            peb_guest_dispatch_function_ptr_offset,
            peb_host_function_definitions_offset,
            peb_host_exception_offset,
            peb_guest_error_offset,
            peb_code_and_outb_pointer_offset,
            peb_input_data_offset,
            peb_output_data_offset,
            peb_guest_panic_context_offset,
            peb_heap_data_offset,
            peb_stack_data_offset,
            guest_error_buffer_offset,
            sandbox_memory_config: cfg,
            code_size,
            host_function_definitions_buffer_offset,
            host_exception_buffer_offset,
            input_data_buffer_offset,
            output_data_buffer_offset,
            guest_heap_buffer_offset,
            guest_stack_buffer_offset,
            peb_address,
            guest_panic_context_buffer_offset,
            extra_heap_needed,
            guard_page_offset,
        };
        assert(l@ == spec_layout(cfg, code_size, stack_size, heap_size)) by {
            reveal(spec_layout);
        }
        proof {
            use_type_invariant(&l);
        }
        Ok(l)
    }

    /// Get the host address of the code in `shared_mem`: the code's offset
    /// in the host address space that starts at the memory's base.
    pub fn get_host_code_address(shared_mem: &SharedMemory) -> (r: Result<HostPtr, HyperlightError>)
        ensures
            r matches Ok(p) && p.space().spec_base() == shared_mem.spec_base_addr() && p.off()
                == Self::CODE_OFFSET,
    {
        let code_offset = Offset::try_from_usize(Self::CODE_OFFSET)?;
        HostPtr::try_from_offset_and_mem(code_offset, shared_mem)
    }

    /// Get the offset in guest memory to the size field in the `HostExceptionData` structure.
    pub fn get_host_exception_size_offset(&self) -> (r: Offset)
        ensures
            layout_wf(self@),
            r@ == self@.peb_host_exception_offset,
    {
        proof {
            use_type_invariant(self);
        }
        self.peb_host_exception_offset
    }

    /// Get the offset in guest memory to the max size of the guest error buffer.
    pub fn get_guest_error_buffer_size_offset(&self) -> (r: Offset)
        ensures
            layout_wf(self@),
            r@ == self@.peb_guest_error_offset,
    {
        proof {
            use_type_invariant(self);
        }
        self.peb_guest_error_offset
    }

    /// Get the offset in guest memory to the error message buffer pointer.
    pub fn get_guest_error_buffer_pointer_offset(&self) -> (r: Offset)
        ensures
            layout_wf(self@),
            r@ == self@.peb_guest_error_offset + 8,
    {
        proof {
            use_type_invariant(self);
            lemma_layout_regions_ordered(self@);
        }
        self.peb_guest_error_offset.add_usize(8)
    }

    /// Get the offset in guest memory to the output data size.
    pub fn get_output_data_size_offset(&self) -> (r: Offset)
        ensures
            layout_wf(self@),
            r@ == self@.peb_output_data_offset,
    {
        proof {
            use_type_invariant(self);
        }
        self.peb_output_data_offset
    }

    /// Get the offset in guest memory to the host function definitions size.
    pub fn get_host_function_definitions_size_offset(&self) -> (r: Offset)
        ensures
            layout_wf(self@),
            r@ == self@.peb_host_function_definitions_offset,
    {
        proof {
            use_type_invariant(self);
        }
        self.peb_host_function_definitions_offset
    }

    /// Get the offset in guest memory to the host function definitions pointer.
    pub fn get_host_function_definitions_pointer_offset(&self) -> (r: Offset)
        ensures
            layout_wf(self@),
            r@ == self@.peb_host_function_definitions_offset + 8,
    {
        proof {
            use_type_invariant(self);
            lemma_layout_regions_ordered(self@);
        }
        self.peb_host_function_definitions_offset.add_usize(8)
    }

    /// Get the offset in guest memory to the minimum guest stack address.
    pub fn get_min_guest_stack_address_offset(&self) -> (r: Offset)
        ensures
            layout_wf(self@),
            r@ == self@.peb_stack_data_offset,
    {
        proof {
            use_type_invariant(self);
        }
        self.peb_stack_data_offset
    }

    /// Get the offset in guest memory to the start of host errors.
    pub fn get_host_exception_offset(&self) -> (r: Offset)
        ensures
            layout_wf(self@),
            r@ == self@.host_exception_buffer_offset,
    {
        proof {
            use_type_invariant(self);
        }
        self.host_exception_buffer_offset
    }

    /// Get the offset in guest memory to the OutB pointer.
    pub fn get_outb_pointer_offset(&self) -> (r: Offset)
        ensures
            layout_wf(self@),
            r@ == self@.peb_code_and_outb_pointer_offset + 8,
    {
        proof {
            use_type_invariant(self);
            lemma_layout_regions_ordered(self@);
        }
        self.peb_code_and_outb_pointer_offset.add_usize(8)
    }

    /// Get the offset in guest memory to the OutB context.
    pub fn get_outb_context_offset(&self) -> (r: Offset)
        ensures
            layout_wf(self@),
            r@ == self@.peb_code_and_outb_pointer_offset + 16,
    {
        proof {
            use_type_invariant(self);
            lemma_layout_regions_ordered(self@);
        }
        self.peb_code_and_outb_pointer_offset.add_usize(16)
    }

    /// Get the offset in guest memory to the output data pointer.
    pub fn get_output_data_pointer_offset(&self) -> (r: Offset)
        ensures
            layout_wf(self@),
            r@ == self@.peb_output_data_offset + 8,
    {
        proof {
            use_type_invariant(self);
            lemma_layout_regions_ordered(self@);
        }
        self.peb_output_data_offset.add_usize(8)
    }

    /// Get the offset in guest memory to the start of output data.
    pub fn get_output_data_offset(&self) -> (r: Offset)
        ensures
            layout_wf(self@),
            r@ == self@.output_data_buffer_offset,
    {
        proof {
            use_type_invariant(self);
        }
        self.output_data_buffer_offset
    }

    /// Get the offset in guest memory to the input data size.
    pub fn get_input_data_size_offset(&self) -> (r: Offset)
        ensures
            layout_wf(self@),
            r@ == self@.peb_input_data_offset,
    {
        proof {
            use_type_invariant(self);
        }
        self.peb_input_data_offset
    }

    /// Get the offset in guest memory to the input data pointer.
    pub fn get_input_data_pointer_offset(&self) -> (r: Offset)
        ensures
            layout_wf(self@),
            r@ == self@.peb_input_data_offset + 8,
    {
        proof {
            use_type_invariant(self);
            lemma_layout_regions_ordered(self@);
        }
        self.peb_input_data_offset.add_usize(8)
    }

    /// Get the offset in guest memory to the code pointer.
    pub fn get_code_pointer_offset(&self) -> (r: Offset)
        ensures
            layout_wf(self@),
            r@ == self@.peb_code_and_outb_pointer_offset,
    {
        proof {
            use_type_invariant(self);
        }
        self.peb_code_and_outb_pointer_offset
    }

    /// Get the offset in guest memory to where the guest dispatch function pointer is written.
    pub fn get_dispatch_function_pointer_offset(&self) -> (r: Offset)
        ensures
            layout_wf(self@),
            r@ == self@.peb_guest_dispatch_function_ptr_offset,
    {
        proof {
            use_type_invariant(self);
        }
        self.peb_guest_dispatch_function_ptr_offset
    }

    /// Get the offset in guest memory to the PEB address.
    pub fn get_in_process_peb_offset(&self) -> (r: Offset)
        ensures
            layout_wf(self@),
            r@ == self@.peb_offset,
    {
        proof {
            use_type_invariant(self);
        }
        self.peb_offset
    }

    /// Get the offset in guest memory to the heap size.
    pub fn get_heap_size_offset(&self) -> (r: Offset)
        ensures
            layout_wf(self@),
            r@ == self@.peb_heap_data_offset,
    {
        proof {
            use_type_invariant(self);
        }
        self.peb_heap_data_offset
    }

    /// Get the offset of the heap pointer in guest memory.
    pub fn get_heap_pointer_offset(&self) -> (r: Offset)
        ensures
            layout_wf(self@),
            r@ == self@.peb_heap_data_offset + 8,
    {
        proof {
            use_type_invariant(self);
            lemma_layout_regions_ordered(self@);
        }
        self.peb_heap_data_offset.add_usize(8)
    }

    /// Get the offset to the top of the stack in guest memory.
    pub fn get_top_of_stack_offset(&self) -> (r: Offset)
        ensures
            layout_wf(self@),
            r@ == self@.guest_stack_buffer_offset,
    {
        proof {
            use_type_invariant(self);
        }
        self.guest_stack_buffer_offset
    }

    /// Get the offset in guest memory to the start of the guest panic context data.
    pub fn get_guest_panic_context_offset(&self) -> (r: Offset)
        ensures
            layout_wf(self@),
            r@ == self@.peb_guest_panic_context_offset,
    {
        proof {
            use_type_invariant(self);
        }
        self.peb_guest_panic_context_offset
    }

    /// Get the offset to the guest panic context buffer size.
    pub fn get_guest_panic_context_size_offset(&self) -> (r: Offset)
        ensures
            layout_wf(self@),
            r@ == self@.peb_guest_panic_context_offset,
    {
        proof {
            use_type_invariant(self);
        }
        self.peb_guest_panic_context_offset
    }

    /// Get the offset to the guest panic context buffer pointer.
    pub fn get_guest_panic_context_buffer_pointer_offset(&self) -> (r: Offset)
        ensures
            layout_wf(self@),
            r@ == self@.peb_guest_panic_context_offset + 8,
    {
        proof {
            use_type_invariant(self);
            lemma_layout_regions_ordered(self@);
        }
        self.peb_guest_panic_context_offset.add_usize(8)
    }

    /// Get the offset to the guest panic context buffer.
    pub fn get_guest_panic_context_buffer_offset(&self) -> (r: Offset)
        ensures
            layout_wf(self@),
            r@ == self@.guest_panic_context_buffer_offset,
    {
        proof {
            use_type_invariant(self);
        }
        self.guest_panic_context_buffer_offset
    }

    /// Get the offset to the guest guard page.
    pub fn get_guard_page_offset(&self) -> (r: Offset)
        ensures
            layout_wf(self@),
            r@ == self@.guard_page_offset,
    {
        proof {
            use_type_invariant(self);
        }
        self.guard_page_offset
    }

    /// Get the offset to the guest error buffer.
    pub fn get_guest_error_buffer_offset(&self) -> (r: Offset)
        ensures
            layout_wf(self@),
            r@ == self@.guest_error_buffer_offset,
    {
        proof {
            use_type_invariant(self);
        }
        self.guest_error_buffer_offset
    }

    /// Get the offset to the input data buffer.
    pub fn get_input_data_buffer_offset(&self) -> (r: Offset)
        ensures
            layout_wf(self@),
            r@ == self@.input_data_buffer_offset,
    {
        proof {
            use_type_invariant(self);
        }
        self.input_data_buffer_offset
    }

    /// Get the offset to the host function definitions buffer.
    pub fn get_host_function_definitions_buffer_offset(&self) -> (r: Offset)
        ensures
            layout_wf(self@),
            r@ == self@.host_function_definitions_buffer_offset,
    {
        proof {
            use_type_invariant(self);
        }
        self.host_function_definitions_buffer_offset
    }

    /// Get the offset to the guest heap buffer.
    pub fn get_guest_heap_buffer_offset(&self) -> (r: Offset)
        ensures
            layout_wf(self@),
            r@ == self@.guest_heap_buffer_offset,
    {
        proof {
            use_type_invariant(self);
        }
        self.guest_heap_buffer_offset
    }

    /// Get the stack size of this layout.
    pub fn get_stack_size(&self) -> (r: usize)
        ensures
            layout_wf(self@),
            r == self@.stack_size,
    {
        proof {
            use_type_invariant(self);
        }
        self.stack_size
    }

    /// Get the heap size of this layout.
    pub fn get_heap_size(&self) -> (r: usize)
        ensures
            layout_wf(self@),
            r == self@.heap_size,
    {
        proof {
            use_type_invariant(self);
        }
        self.heap_size
    }

    /// Get the address of the PEB in guest memory.
    pub fn get_peb_address(&self) -> (r: usize)
        ensures
            layout_wf(self@),
            r == self@.peb_address,
    {
        proof {
            use_type_invariant(self);
        }
        self.peb_address
    }

    /// Get the configuration this layout was made from.
    pub fn get_sandbox_memory_config(&self) -> (r: SandboxMemoryConfiguration)
        ensures
            layout_wf(self@),
            r == self@.sandbox_memory_config,
    {
        proof {
            use_type_invariant(self);
        }
        self.sandbox_memory_config
    }


    /// Get the total size of guest memory in `self`'s memory layout.
    pub fn get_unaligned_memory_size(&self) -> (r: usize)
        requires
            spec_unaligned_memory_size(self@) <= usize::MAX,
        ensures
            r == spec_unaligned_memory_size(self@),
    {
        Self::PAGE_TABLE_SIZE + self.code_size + SIZE_OF_HYPERLIGHT_PEB
            + self.sandbox_memory_config.get_host_function_definition_size()
            + self.sandbox_memory_config.get_host_exception_size()
            + self.sandbox_memory_config.get_guest_error_buffer_size()
            + self.sandbox_memory_config.get_input_data_size()
            + self.sandbox_memory_config.get_output_data_size()
            + self.sandbox_memory_config.get_guest_panic_context_buffer_size() + self.heap_size
            + self.extra_heap_needed + PAGE_SIZE_USIZE + self.stack_size
    }

    /// Get the total size of guest memory in `self`'s memory layout aligned
    /// to 4k page boundaries, or an error when that exceeds the maximum
    /// memory size of a sandbox.
    pub fn get_memory_size(&self) -> (r: Result<usize, HyperlightError>)
        requires
            round_up(spec_unaligned_memory_size(self@), Self::FOUR_K as int) <= usize::MAX,
        ensures
            ({
                let size = round_up(spec_unaligned_memory_size(self@), Self::FOUR_K as int);
                &&& size > Self::MAX_MEMORY_SIZE ==> r == Err::<usize, HyperlightError>(
                    HyperlightError::MemoryRequestTooBig(size as usize, Self::MAX_MEMORY_SIZE),
                )
                &&& size <= Self::MAX_MEMORY_SIZE ==> r == Ok::<usize, HyperlightError>(
                    size as usize,
                )
            }),
    {
        proof {
            let t = spec_unaligned_memory_size(self@);
            assert(round_up(t, Self::FOUR_K as int) >= t);
        }
        let total_memory = self.get_unaligned_memory_size();
        let remainder = total_memory % Self::FOUR_K;
        let multiples = total_memory / Self::FOUR_K;
        let size = match remainder {
            0 => total_memory,
            _ => (multiples + 1) * Self::FOUR_K,
        };
        if size > Self::MAX_MEMORY_SIZE {
            Err(HyperlightError::MemoryRequestTooBig(size, Self::MAX_MEMORY_SIZE))
        } else {
            Ok(size)
        }
    }

    /// The address that the PEB holds for the buffer at offset `off`, with
    /// guest memory starting at `guest_offset`.
    fn guest_address(shared_mem: &SharedMemory, guest_offset: usize, off: Offset) -> (r: Result<
        u64,
        HyperlightError,
    >)
        requires
            guest_offset + off@ <= u64::MAX,
            guest_offset == Self::BASE_ADDRESS || guest_offset == shared_mem.spec_base_addr(),
        ensures
            r is Ok ==> r == Ok::<u64, HyperlightError>((guest_offset + off@) as u64),
            off@ <= shared_mem@.len() ==> r is Ok,
            guest_offset != 0 ==> r is Ok,
            guest_offset == 0 && r is Ok ==> off@ <= shared_mem@.len(),
            r matches Err(e) ==> is_layout_write_error(e),
    {
        let _len = shared_mem.mem_size();
        if guest_offset == 0 {
            let o = off.try_to_usize()?;
            let calculated_addr = shared_mem.calculate_address(o)?;
            Ok(usize_to_u64(calculated_addr))
        } else {
            Ok(Offset::new(usize_to_u64(guest_offset)).add_offset(off).as_u64())
        }
    }

    /// Write the finished memory layout to `shared_mem`: the PEB with a
    /// random security cookie seed, the sizes and addresses of the buffers,
    /// and the initial stack pointers of the input and output buffers.
    /// Guest memory starts at `guest_offset`, which must be the base address
    /// of a sandbox (running in a VM) or that of `shared_mem` (running in
    /// process), and is `size` bytes long.
    pub fn write(
        &self,
        shared_mem: &mut SharedMemory,
        guest_offset: usize,
        size: usize,
    ) -> (r: Result<(), HyperlightError>)
        requires
            (guest_offset == Self::BASE_ADDRESS || guest_offset == old(shared_mem).spec_base_addr())
                ==> size >= self@.stack_size && guest_offset + (size - self@.stack_size) <= usize::MAX
                && guest_offset + self@.guest_stack_buffer_offset <= u64::MAX,
        ensures
            final(shared_mem).spec_base_addr() == old(shared_mem).spec_base_addr(),
            final(shared_mem)@.len() == old(shared_mem)@.len(),
            !(guest_offset == Self::BASE_ADDRESS || guest_offset == old(shared_mem).spec_base_addr())
                ==> r == Err::<(), HyperlightError>(HyperlightError::GuestOffsetIsInvalid(guest_offset))
                && final(shared_mem)@ == old(shared_mem)@,
            (guest_offset == Self::BASE_ADDRESS || guest_offset == old(shared_mem).spec_base_addr())
                && layout_write_fits(self@, guest_offset as int, old(shared_mem)@.len() as int) ==> (
                r is Ok || r == Err::<(), HyperlightError>(HyperlightError::RandomSourceFailed)),
            (guest_offset == Self::BASE_ADDRESS || guest_offset == old(shared_mem).spec_base_addr())
                && !layout_write_fits(self@, guest_offset as int, old(shared_mem)@.len() as int)
                ==> r is Err,
            (guest_offset == Self::BASE_ADDRESS || guest_offset == old(shared_mem).spec_base_addr())
                ==> (r matches Err(e) ==> (e == HyperlightError::RandomSourceFailed
                || is_layout_write_error(e))),
            r is Ok ==> layout_write_fits(self@, guest_offset as int, old(shared_mem)@.len() as int),
            r is Ok ==> layout_written(
                old(shared_mem)@,
                final(shared_mem)@,
                self@,
                guest_offset as int,
                size as int,
            ),
    {
        proof {
            use_type_invariant(self);
        }
        if guest_offset != Self::BASE_ADDRESS && guest_offset != shared_mem.base_addr() {
            return Err(HyperlightError::GuestOffsetIsInvalid(guest_offset));
        }
        let seed = match os_random_bytes(8) {
            Some(v) => v,
            None => {
                return Err(HyperlightError::RandomSourceFailed);
            },
        };
        let ghost m0 = shared_mem@;
        let ghost log = peb_log(self@, guest_offset as int, size as int, seed@);
        proof {
            assert(log.take(0) =~= Seq::<(int, Seq<u8>)>::empty());
        }
        let n: usize = if self.output_data_buffer_offset.as_u64() != self.input_data_buffer_offset.as_u64() {
            17
        } else {
            16
        };
        let r = self.write_peb_log_range(shared_mem, guest_offset, size, &seed, 0, n, Ghost(m0));
        proof {
            if r is Ok {
                assert(log.take(n as int) =~= log);
                lemma_layout_regions_ordered(self@);
                assert(peb_log_entry_fits(self@, guest_offset as int, m0.len() as int, n - 1));
                assert(peb_log_entry_fits(self@, guest_offset as int, m0.len() as int, 13));
                lemma_peb_log_effects(m0, self@, guest_offset as int, size as int, seed@);
            }
        }
        match r {
            Ok(()) => Ok(()),
            Err(e) => Err(e),
        }
    }

    /// Make the writes of `peb_log` from the `k0`-th on to `shared_mem`, in
    /// order, and stop before the `k1`-th.
    fn write_peb_log_range(
        &self,
        shared_mem: &mut SharedMemory,
        guest_offset: usize,
        size: usize,
        seed: &Vec<u8>,
        k0: usize,
        k1: usize,
        Ghost(m0): Ghost<Seq<u8>>,
    ) -> (r: Result<(), HyperlightError>)
        requires
            peb_write_ready(self@, guest_offset as int, size as int, seed@, old(shared_mem).spec_base_addr() as int),
            k0 <= k1 <= peb_log_len(self@),
            old(shared_mem)@ == apply_writes(m0, peb_log(self@, guest_offset as int, size as int, seed@).take(k0 as int)),
            old(shared_mem)@.len() == m0.len(),
        ensures
            final(shared_mem).spec_base_addr() == old(shared_mem).spec_base_addr(),
            final(shared_mem)@.len() == old(shared_mem)@.len(),
            r is Ok ==> final(shared_mem)@ == apply_writes(
                m0,
                peb_log(self@, guest_offset as int, size as int, seed@).take(k1 as int),
            ) && final(shared_mem)@.len() == m0.len(),
            r is Ok ==> forall|i: int|
                k0 <= i < k1 ==> #[trigger] peb_log_entry_fits(self@, guest_offset as int, m0.len() as int, i),
            r is Err ==> !layout_write_fits(self@, guest_offset as int, m0.len() as int),
            r matches Err(e) ==> is_layout_write_error(e),
    {
        let ghost log = peb_log(self@, guest_offset as int, size as int, seed@);
        let mut k = k0;
        while k < k1
            invariant
                peb_write_ready(self@, guest_offset as int, size as int, seed@, shared_mem.spec_base_addr() as int),
                shared_mem.spec_base_addr() == old(shared_mem).spec_base_addr(),
                shared_mem@.len() == old(shared_mem)@.len(),
                log == peb_log(self@, guest_offset as int, size as int, seed@),
                k0 <= k <= k1 <= peb_log_len(self@),
                shared_mem@ == apply_writes(m0, log.take(k as int)),
                shared_mem@.len() == m0.len(),
                forall|i: int|
                    k0 <= i < k ==> #[trigger] peb_log_entry_fits(self@, guest_offset as int, m0.len() as int, i),
            decreases k1 - k,
        {
            self.write_peb_log_entry(shared_mem, guest_offset, size, seed, k, Ghost(m0))?;
            k = k + 1;
        }
        Ok(())
    }

    /// Make the `k`-th write of `peb_log` to `shared_mem`.
    #[verifier::rlimit(40)]
    fn write_peb_log_entry(
        &self,
        shared_mem: &mut SharedMemory,
        guest_offset: usize,
        size: usize,
        seed: &Vec<u8>,
        k: usize,
        Ghost(m0): Ghost<Seq<u8>>,
    ) -> (r: Result<(), HyperlightError>)
        requires
            peb_write_ready(self@, guest_offset as int, size as int, seed@, old(shared_mem).spec_base_addr() as int),
            k < peb_log_len(self@),
            old(shared_mem)@ == apply_writes(m0, peb_log(self@, guest_offset as int, size as int, seed@).take(k as int)),
            old(shared_mem)@.len() == m0.len(),
        ensures
            final(shared_mem).spec_base_addr() == old(shared_mem).spec_base_addr(),
            final(shared_mem)@.len() == old(shared_mem)@.len(),
            r is Ok ==> final(shared_mem)@ == apply_writes(
                m0,
                peb_log(self@, guest_offset as int, size as int, seed@).take(k + 1),
            ) && final(shared_mem)@.len() == m0.len(),
            r is Ok ==> peb_log_entry_fits(self@, guest_offset as int, m0.len() as int, k as int),
            r is Err ==> !layout_write_fits(self@, guest_offset as int, m0.len() as int),
            r matches Err(e) ==> is_layout_write_error(e),
    {
        proof {
            lemma_layout_regions_ordered(self@);
        }
        let ghost log = peb_log(self@, guest_offset as int, size as int, seed@);
        let ghost go = guest_offset as int;
        let cfg = self.sandbox_memory_config;
        if k == 0 {
            let ghost prev = shared_mem@;
            let _len = shared_mem.mem_size();
            let cookie_offset = self.peb_security_cookie_seed_offset.try_to_usize()?;
            shared_mem.copy_from_slice(seed.as_slice(), cookie_offset)?;
            proof {
                lemma_log_write(m0, log.take(0), prev, cookie_offset as int, seed@);
                assert(log.take(0).push((cookie_offset as int, seed@)) =~= log.take(1));
            }
            return Ok(());
        }
        let (o, v): (Offset, u64) = if k == 1 {
            (self.get_host_function_definitions_size_offset(), usize_to_u64(cfg.get_host_function_definition_size()))
        } else if k == 2 {
            let a = Self::guest_address(shared_mem, guest_offset, self.host_function_definitions_buffer_offset)?;
            (self.get_host_function_definitions_pointer_offset(), a)
        } else if k == 3 {
            (self.get_host_exception_size_offset(), usize_to_u64(cfg.get_host_exception_size()))
        } else if k == 4 {
            let a = Self::guest_address(shared_mem, guest_offset, self.guest_error_buffer_offset)?;
            (self.get_guest_error_buffer_pointer_offset(), a)
        } else if k == 5 {
            (self.get_guest_error_buffer_size_offset(), usize_to_u64(cfg.get_guest_error_buffer_size()))
        } else if k == 6 {
            (self.get_input_data_size_offset(), usize_to_u64(cfg.get_input_data_size()))
        } else if k == 7 {
            let a = Self::guest_address(shared_mem, guest_offset, self.input_data_buffer_offset)?;
            (self.get_input_data_pointer_offset(), a)
        } else if k == 8 {
            (self.get_output_data_size_offset(), usize_to_u64(cfg.get_output_data_size()))
        } else if k == 9 {
            let a = Self::guest_address(shared_mem, guest_offset, self.output_data_buffer_offset)?;
            (self.get_output_data_pointer_offset(), a)
        } else if k == 10 {
            let _a = Self::guest_address(shared_mem, guest_offset, self.guest_panic_context_buffer_offset)?;
            (self.get_guest_panic_context_size_offset(), usize_to_u64(cfg.get_guest_panic_context_buffer_size()))
        } else if k == 11 {
            let a = Self::guest_address(shared_mem, guest_offset, self.guest_panic_context_buffer_offset)?;
            (self.get_guest_panic_context_buffer_pointer_offset(), a)
        } else if k == 12 {
            let _a = Self::guest_address(shared_mem, guest_offset, self.guest_heap_buffer_offset)?;
            (self.get_heap_size_offset(), usize_to_u64(self.heap_size))
        } else if k == 13 {
            let a = Self::guest_address(shared_mem, guest_offset, self.guest_heap_buffer_offset)?;
            (self.get_heap_pointer_offset(), a)
        } else if k == 14 {
            (self.get_min_guest_stack_address_offset(), usize_to_u64(guest_offset + (size - self.stack_size)))
        } else if k == 15 {
            (self.input_data_buffer_offset, Self::STACK_POINTER_SIZE_BYTES)
        } else {
            (self.output_data_buffer_offset, Self::STACK_POINTER_SIZE_BYTES)
        };
        proof {
            assert(log[k as int] == (o@ as int, le_encode(v as nat, 8)));
        }
        put_log_entry(shared_mem, o, v, Ghost(m0), Ghost(log), Ghost(k as int))
    }
}

} // verus!
