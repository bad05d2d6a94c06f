//! The guest binary that a new sandbox runs, and the memory that creating
//! a sandbox prepares for it.
use crate::error::HyperlightError;
use crate::mem::config::SandboxMemoryConfiguration;
use crate::mem::layout::{
    layout_written, lemma_layout_regions_ordered, lemma_memory_size_is_end_of_stack,
    outside_peb_and_stack_pointers, spec_layout, spec_unaligned_memory_size, SandboxMemoryLayout,
};
use crate::mem::le_bytes::lemma_update_bytes_len;
use crate::mem::mgr::{
    chosen_heap_size, chosen_stack_size, layout_computable, layout_size_bound, layout_sizes_fit,
    load_layout_error, loaded_image,
    stack_and_heap_fit, SandboxMemoryManager, STACK_COOKIE_LEN,
};
use crate::mem::pe::pe_info::{pe_check, pe_headers_of, patch_writes, PEInfo, RelocationPatch};
use crate::mem::ptr_offset::round_up;
use crate::mem::shared_mem::spec_write;
use crate::random::os_random_bytes;
use crate::sandbox::mem_mgr::{MemMgrWrapper, StackCookie};
use vstd::prelude::*;

verus! {

/// A `GuestBinary` is either a buffer containing the binary or a path to the
/// binary.
#[derive(Debug)]
pub enum GuestBinary {
    /// A buffer containing the guest binary.
    Buffer(Vec<u8>),
    /// A path to the guest binary.
    FilePath(String),
}

/// Whether `w` is the memory of a new sandbox prepared for the binary of
/// the PE file `pe0` with configuration `cfg`, running in process or not as
/// `run` says, with `cookie` as its stack guard; `pe1` is the PE file
/// afterwards, relocated for the load address.
pub open spec fn sandbox_memory_prepared(
    cfg: SandboxMemoryConfiguration,
    pe0: PEInfo,
    pe1: PEInfo,
    run: bool,
    cookie: Seq<u8>,
    w: MemMgrWrapper,
) -> bool {
    let m = w.mgr_spec();
    let stack = chosen_stack_size(cfg, &pe0);
    let heap = chosen_heap_size(cfg, &pe0);
    let l = spec_layout(cfg, pe0.payload_len_spec(), stack as usize, heap as usize);
    let size = round_up(spec_unaligned_memory_size(l), SandboxMemoryLayout::FOUR_K as int);
    let top = l.guest_stack_buffer_offset as int;
    let guest_offset = if run {
        m.mem_spec().spec_base_addr() as int
    } else {
        SandboxMemoryLayout::BASE_ADDRESS as int
    };
    let loaded = loaded_image(l, m.load_addr_spec()@ as int, pe1.payload_spec());
    &&& m.layout_spec()@ == l
    &&& m.spec_in_process() == run
    &&& m.snapshot() is None
    &&& m.entrypoint_offset_spec()@ == pe0.optional_header_spec().address_of_entry_point
    &&& m.load_addr_spec()@ == (if run {
        m.mem_spec().spec_base_addr() + SandboxMemoryLayout::CODE_OFFSET
    } else {
        SandboxMemoryLayout::GUEST_CODE_ADDRESS as int
    })
    &&& pe0.relocation_patches_of(pe0.payload_spec(), m.load_addr_spec()@ as usize) matches Ok(ps)
    &&& pe1.payload_spec() == crate::mem::le_bytes::apply_writes(pe0.payload_spec(), patch_writes(ps))
    &&& w.cookie_spec() == cookie
    &&& m.mem_spec()@.len() == size
    &&& layout_written(spec_write(loaded, top, cookie), m.mem_spec()@, l, guest_offset, size)
    &&& m.mem_spec()@.subrange(top, top + STACK_COOKIE_LEN) == cookie
}

/// Whether `e` is an error that preparing the memory of a new sandbox for
/// the PE file `pe` with configuration `cfg` may give once the layout fits:
/// the memory could not be allocated, the random source failed, the stack
/// guard does not fit in memory, or the relocations for the load address
/// cannot be worked out.
pub open spec fn prepare_error(cfg: SandboxMemoryConfiguration, pe: PEInfo, e: HyperlightError) -> bool {
    let stack = chosen_stack_size(cfg, &pe);
    let heap = chosen_heap_size(cfg, &pe);
    let l = spec_layout(cfg, pe.payload_len_spec(), stack as usize, heap as usize);
    let size = round_up(spec_unaligned_memory_size(l), SandboxMemoryLayout::FOUR_K as int);
    ||| e == HyperlightError::MemoryAllocationFailed
    ||| e == HyperlightError::RandomSourceFailed
    ||| e == HyperlightError::BoundsCheckFailed(
        l.guest_stack_buffer_offset as usize,
        STACK_COOKIE_LEN,
        size as usize,
    ) && l.guest_stack_buffer_offset + STACK_COOKIE_LEN > size
    ||| exists|a: usize|
        #[trigger] pe.relocation_patches_of(pe.payload_spec(), a) == Err::<
            Seq<RelocationPatch>,
            HyperlightError,
        >(e)
}

/// Prepare the memory of a new sandbox for the binary of `pe_info`: load
/// the binary into memory, write `stack_guard` at the top of the stack,
/// keep it with the memory manager, and write the memory layout, whose
/// guest addresses start at the memory's host address when the sandbox runs
/// in process and at the base address of a VM otherwise.
#[verifier::rlimit(40)]
pub fn prepare_sandbox_memory(
    cfg: SandboxMemoryConfiguration,
    pe_info: &mut PEInfo,
    run_from_process_memory: bool,
    stack_guard: StackCookie,
) -> (r: Result<MemMgrWrapper, HyperlightError>)
    requires
        layout_computable(
            cfg,
            old(pe_info).payload_len_spec(),
            chosen_stack_size(cfg, old(pe_info)),
            chosen_heap_size(cfg, old(pe_info)),
        ),
        old(pe_info).payload_len_spec() == old(pe_info).payload_spec().len(),
    ensures
        r matches Ok(w) ==> sandbox_memory_prepared(
            cfg,
            *old(pe_info),
            *final(pe_info),
            run_from_process_memory,
            stack_guard@,
            w,
        ),
        !stack_and_heap_fit(cfg, old(pe_info)) ==> r == Err::<MemMgrWrapper, HyperlightError>(
            load_layout_error(cfg, old(pe_info)),
        ),
        stack_and_heap_fit(cfg, old(pe_info)) ==> (r matches Err(e) ==> prepare_error(
            cfg,
            *old(pe_info),
            e,
        )),
        stack_and_heap_fit(cfg, old(pe_info)) && !run_from_process_memory ==> (old(
            pe_info,
        ).relocation_patches_of(old(pe_info).payload_spec(), SandboxMemoryLayout::GUEST_CODE_ADDRESS)
            matches Err(e) ==> (r == Err::<MemMgrWrapper, HyperlightError>(e) || r == Err::<
            MemMgrWrapper,
            HyperlightError,
        >(HyperlightError::MemoryAllocationFailed))),
{
    let mut mgr = SandboxMemoryManager::load_guest_binary_into_memory(
        cfg,
        pe_info,
        run_from_process_memory,
    )?;
    let ghost l = mgr.layout_spec()@;
    let ghost loaded = mgr.mem_spec()@;
    let _len = mgr.get_shared_mem().mem_size();
    proof {
        reveal(spec_layout);
        lemma_layout_regions_ordered(l);
        lemma_memory_size_is_end_of_stack(l);
        let t = spec_unaligned_memory_size(l);
        assert(round_up(t, SandboxMemoryLayout::FOUR_K as int) >= t);
    }
    mgr.set_stack_guard(&stack_guard)?;
    let ghost guarded = mgr.mem_spec()@;
    proof {
        lemma_update_bytes_len(loaded, l.guest_stack_buffer_offset as int, stack_guard@);
    }
    let mut wrapper = MemMgrWrapper::new(mgr, stack_guard);
    wrapper.write_memory_layout(run_from_process_memory)?;
    proof {
        let top = l.guest_stack_buffer_offset as int;
        let fin = wrapper.mgr_spec().mem_spec()@;
        assert forall|j: int| top <= j < top + STACK_COOKIE_LEN implies outside_peb_and_stack_pointers(
            l,
            j,
        ) by {}
        assert(fin.subrange(top, top + STACK_COOKIE_LEN) =~= guarded.subrange(
            top,
            top + STACK_COOKIE_LEN,
        ));
    }
    Ok(wrapper)
}

/// A new stack guard cookie of random bytes from the operating system, or
/// `None` where the random source fails. The bytes are random, so nothing is
/// stated of them.
pub fn create_stack_guard() -> (r: Option<StackCookie>) {
    match os_random_bytes(STACK_COOKIE_LEN) {
        None => None,
        Some(v) => {
            let mut cookie: StackCookie = [0u8; STACK_COOKIE_LEN];
            let mut i: usize = 0;
            while i < STACK_COOKIE_LEN
                invariant
                    i <= STACK_COOKIE_LEN,
                    v@.len() == STACK_COOKIE_LEN,
                    forall|k: int| 0 <= k < i ==> cookie@[k] == v@[k],
                decreases STACK_COOKIE_LEN - i,
            {
                cookie[i] = v[i];
                i = i + 1;
            }
            Some(cookie)
        },
    }
}

/// Whether `pe` is what parsing the PE file `bytes` gives.
pub open spec fn pe_info_of(bytes: Seq<u8>, pe: PEInfo) -> bool {
    pe_headers_of(bytes) matches Some(h) && pe_check(h) matches Ok(o) && pe.payload_spec() == bytes
        && pe.payload_len_spec() == bytes.len() && pe.optional_header_spec() == o
        && pe.sections_spec() == h.sections
}

/// Create the memory of a new sandbox for the guest binary `pe_bytes`:
/// parse it, check that its layout can be computed, draw a random stack
/// guard cookie, and prepare the memory with it.
pub fn new_sandbox_memory(
    pe_bytes: &[u8],
    cfg: SandboxMemoryConfiguration,
    run_from_process_memory: bool,
) -> (r: Result<MemMgrWrapper, HyperlightError>)
    ensures
        pe_headers_of(pe_bytes@) is None ==> r matches Err(HyperlightError::PeParseFailed(_)),
        pe_headers_of(pe_bytes@) matches Some(h) ==> (pe_check(h) matches Err(e) ==> r == Err::<
            MemMgrWrapper,
            HyperlightError,
        >(e)),
        r matches Ok(w) ==> exists|pe0: PEInfo, pe1: PEInfo|
            pe_info_of(pe_bytes@, pe0) && #[trigger] sandbox_memory_prepared(
                cfg,
                pe0,
                pe1,
                run_from_process_memory,
                w.cookie_spec(),
                w,
            ),
        forall|pe0: PEInfo|
            #[trigger] pe_info_of(pe_bytes@, pe0) ==> {
                &&& layout_size_bound(
                    cfg,
                    pe0.payload_len_spec(),
                    chosen_stack_size(cfg, &pe0),
                    chosen_heap_size(cfg, &pe0),
                ) > usize::MAX ==> r == Err::<MemMgrWrapper, HyperlightError>(
                    HyperlightError::ArithmeticOverflow,
                )
                &&& layout_size_bound(
                    cfg,
                    pe0.payload_len_spec(),
                    chosen_stack_size(cfg, &pe0),
                    chosen_heap_size(cfg, &pe0),
                ) <= usize::MAX ==> (r matches Err(e) ==> {
                    ||| e == HyperlightError::RandomSourceFailed
                    ||| !stack_and_heap_fit(cfg, &pe0) && e == load_layout_error(cfg, &pe0)
                    ||| stack_and_heap_fit(cfg, &pe0) && prepare_error(cfg, pe0, e)
                })
            },
{
    let mut pe_info = PEInfo::new(pe_bytes)?;
    let ghost pe0 = pe_info;
    proof {
        assert(pe_info_of(pe_bytes@, pe0));
    }
    let r = if !layout_sizes_fit(cfg, &pe_info) {
        Err(HyperlightError::ArithmeticOverflow)
    } else {
        match create_stack_guard() {
            Some(stack_guard) => prepare_sandbox_memory(
                cfg,
                &mut pe_info,
                run_from_process_memory,
                stack_guard,
            ),
            None => Err(HyperlightError::RandomSourceFailed),
        }
    };
    proof {
        if r is Ok {
            let w = r->Ok_0;
            assert(sandbox_memory_prepared(cfg, pe0, pe_info, run_from_process_memory, w.cookie_spec(), w));
        }
        assert forall|pe: PEInfo| #[trigger] pe_info_of(pe_bytes@, pe) implies {
            &&& layout_size_bound(
                cfg,
                pe.payload_len_spec(),
                chosen_stack_size(cfg, &pe),
                chosen_heap_size(cfg, &pe),
            ) > usize::MAX ==> r == Err::<MemMgrWrapper, HyperlightError>(
                HyperlightError::ArithmeticOverflow,
            )
            &&& layout_size_bound(
                cfg,
                pe.payload_len_spec(),
                chosen_stack_size(cfg, &pe),
                chosen_heap_size(cfg, &pe),
            ) <= usize::MAX ==> (r matches Err(e) ==> {
                ||| e == HyperlightError::RandomSourceFailed
                ||| !stack_and_heap_fit(cfg, &pe) && e == load_layout_error(cfg, &pe)
                ||| stack_and_heap_fit(cfg, &pe) && prepare_error(cfg, pe, e)
            })
        } by {
            lemma_pe_info_of_unique(cfg, pe_bytes@, pe0, pe);
        }
    }
    r
}

/// Two PE files that parsing the same bytes gives agree on all that
/// preparing a sandbox's memory for them reads.
proof fn lemma_pe_info_of_unique(cfg: SandboxMemoryConfiguration, bytes: Seq<u8>, a: PEInfo, b: PEInfo)
    requires
        pe_info_of(bytes, a),
        pe_info_of(bytes, b),
    ensures
        a.payload_len_spec() == b.payload_len_spec(),
        chosen_stack_size(cfg, &a) == chosen_stack_size(cfg, &b),
        chosen_heap_size(cfg, &a) == chosen_heap_size(cfg, &b),
        stack_and_heap_fit(cfg, &a) == stack_and_heap_fit(cfg, &b),
        load_layout_error(cfg, &a) == load_layout_error(cfg, &b),
        forall|e: HyperlightError| prepare_error(cfg, a, e) == #[trigger] prepare_error(cfg, b, e),
{
    assert forall|e: HyperlightError| prepare_error(cfg, a, e) == #[trigger] prepare_error(cfg, b, e) by {
        if exists|x: usize|
            #[trigger] a.relocation_patches_of(a.payload_spec(), x) == Err::<
                Seq<RelocationPatch>,
                HyperlightError,
            >(e) {
            let x = choose|x: usize|
                #[trigger] a.relocation_patches_of(a.payload_spec(), x) == Err::<
                    Seq<RelocationPatch>,
                    HyperlightError,
                >(e);
            assert(b.relocation_patches_of(b.payload_spec(), x) == a.relocation_patches_of(
                a.payload_spec(),
                x,
            ));
        }
        if exists|x: usize|
            #[trigger] b.relocation_patches_of(b.payload_spec(), x) == Err::<
                Seq<RelocationPatch>,
                HyperlightError,
            >(e) {
            let x = choose|x: usize|
                #[trigger] b.relocation_patches_of(b.payload_spec(), x) == Err::<
                    Seq<RelocationPatch>,
                    HyperlightError,
                >(e);
            assert(b.relocation_patches_of(b.payload_spec(), x) == a.relocation_patches_of(
                a.payload_spec(),
                x,
            ));
        }
    }
}

} // verus!
