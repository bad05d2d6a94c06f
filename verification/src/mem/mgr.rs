//! The memory manager of a sandbox: its guest memory, the layout of that
//! memory, and the operations that read and write the structures in it.
use crate::error::HyperlightError;
use crate::mem::config::SandboxMemoryConfiguration;
use crate::mem::layout::{
    layout_fits, layout_wf, lemma_layout_regions_ordered, lemma_memory_size_is_end_of_stack, spec_layout,
    spec_heap_end, spec_peb_offset, spec_unaligned_memory_size, u64_at, LayoutValues,
    SandboxMemoryLayout, SIZE_OF_HYPERLIGHT_PEB,
};
use crate::mem::le_bytes::zeros;
use crate::mem::pe::pe_info::{patch_writes, PEInfo, RelocationPatch};
use crate::mem::ptr_offset::round_up;
use crate::mem::le_bytes::{
    le_encode, lemma_decode_encode, lemma_le_decode_bound, lemma_le_encode_len, lemma_pow256_values,
    lemma_update_bytes_len, update_bytes, zeroed_vec,
};
use crate::mem::ptr::{GuestPtr, RawPtr};
use crate::mem::ptr_offset::{usize_to_u64, Offset};
use crate::mem::shared_mem::{
    lemma_read_write_i32, lemma_write_preserves_other_reads, spec_bounds, spec_read, spec_write,
    SharedMemory,
};
use vstd::prelude::*;

verus! {

/// Whether or not the 64-bit page directory entry (PDE) record is present.
pub const PDE64_PRESENT: u64 = 1;
/// Read/write permissions flag for the 64-bit PDE.
pub const PDE64_RW: u64 = 2;
/// The user/supervisor bit for the 64-bit PDE.
pub const PDE64_USER: u64 = 4;
/// The page size bit for the 64-bit PDE.
pub const PDE64_PS: u64 = 0x80;
/// The size of stack guard cookies.
pub const STACK_COOKIE_LEN: usize = 16;
/// The number of entries of the page directory.
pub const PD_ENTRIES: usize = 512;

/// The value of the `i`-th page directory entry: it maps the `i`-th 2 MiB
/// of virtual memory to the same physical memory, present, writable, user
/// accessible and as a large page.
pub open spec fn pd_entry(i: int) -> int {
    i * 0x20_0000 + 0x87
}

/// Whether `m` holds the page tables that map the sandbox's memory: the
/// PML4 pointing at the PDPT, the PDPT pointing at the PD, and the PD
/// mapping each 2 MiB of virtual memory.
pub open spec fn page_tables_written(m: Seq<u8>) -> bool {
    &&& u64_at(m, SandboxMemoryLayout::PML4_OFFSET as int) == 0x20_1007
    &&& u64_at(m, SandboxMemoryLayout::PDPT_OFFSET as int) == 0x20_2007
    &&& forall|i: int|
        0 <= i < PD_ENTRIES ==> #[trigger] u64_at(m, SandboxMemoryLayout::PD_OFFSET + 8 * i)
            == pd_entry(i)
}

/// Whether byte `j` belongs to an entry of the page tables that
/// `set_up_hypervisor_partition` writes.
pub open spec fn in_page_table_entries(j: int) -> bool {
    ||| 0 <= j < 8
    ||| 0x1000 <= j < 0x1008
    ||| 0x2000 <= j < 0x3000
}

/// Writing bytes elsewhere leaves a range of bytes unchanged.
proof fn lemma_update_keeps_range(s: Seq<u8>, off: int, bytes: Seq<u8>, a: int, b: int)
    requires
        0 <= off,
        off + bytes.len() <= s.len(),
        0 <= a <= b <= s.len(),
        b <= off || off + bytes.len() <= a,
    ensures
        update_bytes(s, off, bytes).subrange(a, b) == s.subrange(a, b),
{
    lemma_update_bytes_len(s, off, bytes);
    assert(update_bytes(s, off, bytes).subrange(a, b) =~= s.subrange(a, b));
}

/// What holds of memory `m`, which was `m0`, after the PML4 and PDPT
/// entries and the first `i` entries of the page directory were written.
pub open spec fn page_tables_partly_written(m: Seq<u8>, m0: Seq<u8>, i: int) -> bool {
    &&& m.len() == m0.len()
    &&& SandboxMemoryLayout::PD_OFFSET <= m.len() || i == 0
    &&& SandboxMemoryLayout::PDPT_OFFSET + 8 <= m.len()
    &&& SandboxMemoryLayout::PD_OFFSET + 8 * i <= m.len() || i == 0
    &&& u64_at(m, SandboxMemoryLayout::PML4_OFFSET as int) == 0x20_1007
    &&& u64_at(m, SandboxMemoryLayout::PDPT_OFFSET as int) == 0x20_2007
    &&& forall|k: int| 0 <= k < i ==> #[trigger] u64_at(m, SandboxMemoryLayout::PD_OFFSET + 8 * k)
        == pd_entry(k)
    &&& forall|j: int|
        0 <= j < m.len() && !(0 <= j < 8) && !(0x1000 <= j < 0x1008) && !(0x2000 <= j < 0x2000 + 8
            * i) ==> #[trigger] m[j] == m0[j]
}

/// Writing the `i`-th page directory entry extends what is written.
proof fn lemma_pd_entry_step(m: Seq<u8>, m0: Seq<u8>, i: int, v: u64)
    requires
        0 <= i < PD_ENTRIES,
        page_tables_partly_written(m, m0, i),
        SandboxMemoryLayout::PD_OFFSET + 8 * i + 8 <= m.len(),
        v == pd_entry(i),
    ensures
        page_tables_partly_written(
            update_bytes(m, SandboxMemoryLayout::PD_OFFSET + 8 * i, le_encode(v as nat, 8)),
            m0,
            i + 1,
        ),
{
    let o = SandboxMemoryLayout::PD_OFFSET + 8 * i;
    let bytes = le_encode(v as nat, 8);
    lemma_le_encode_len(v as nat, 8);
    lemma_pow256_values();
    lemma_decode_encode(v as nat, 8);
    lemma_update_bytes_len(m, o, bytes);
    let m2 = update_bytes(m, o, bytes);
    lemma_update_keeps_range(m, o, bytes, 0, 8);
    lemma_update_keeps_range(m, o, bytes, 0x1000, 0x1008);
    assert forall|k: int| 0 <= k < i + 1 implies #[trigger] u64_at(
        m2,
        SandboxMemoryLayout::PD_OFFSET + 8 * k,
    ) == pd_entry(k) by {
        if k < i {
            lemma_update_keeps_range(m, o, bytes, 0x2000 + 8 * k, 0x2000 + 8 * k + 8);
            assert(u64_at(m, SandboxMemoryLayout::PD_OFFSET + 8 * k) == pd_entry(k));
        }
    }
}

/// The outcome of reading `n` little-endian bytes at offset `o` of `m`,
/// where an offset that does not fit in a `usize` is an overflow.
pub open spec fn read_at(m: Seq<u8>, o: u64, n: int) -> Result<u64, HyperlightError> {
    if o > usize::MAX {
        Err(HyperlightError::ArithmeticOverflow)
    } else {
        spec_read(m, o as int, n)
    }
}

/// The outcome of an access of `n` bytes at offset `o` of memory of length
/// `len`, where an offset that does not fit in a `usize` is an overflow.
pub open spec fn bounds_at(o: u64, n: int, len: int) -> Result<(), HyperlightError> {
    if o > usize::MAX {
        Err(HyperlightError::ArithmeticOverflow)
    } else {
        spec_bounds(o as int, n, len)
    }
}

/// The outcome of a read of four bytes taken as an `i32`.
pub open spec fn as_i32_result(r: Result<u64, HyperlightError>) -> Result<i32, HyperlightError> {
    match r {
        Ok(v) => Ok((v as u32) as i32),
        Err(e) => Err(e),
    }
}

/// The outcome of a size-prefixed read at offset `o` of `m`: the four-byte
/// size at `o` plus the four bytes of the size itself, then that many bytes
/// starting at `o`.
pub open spec fn size_prefixed_at(m: Seq<u8>, o: u64) -> Result<Seq<u8>, HyperlightError> {
    match as_i32_result(read_at(m, o, 4)) {
        Err(e) => Err(e),
        Ok(size) => if size + 4 < 0 {
            Err(HyperlightError::NegativeLength((size + 4) as i32))
        } else if o + size + 4 <= m.len() {
            Ok(m.subrange(o as int, o + size + 4))
        } else {
            Err(
                HyperlightError::BoundsCheckFailed(o as usize, (size + 4) as usize, m.len() as usize),
            )
        },
    }
}

/// Whether the size-prefixed read at offset `o` of `m` would overflow an
/// `i32` when it adds the four bytes of the size.
pub open spec fn size_prefix_overflows(m: Seq<u8>, o: u64) -> bool {
    as_i32_result(read_at(m, o, 4)) matches Ok(size) && size + 4 > i32::MAX
}

/// What `write_outb_error` returns and leaves in memory `m0` of layout `l`
/// for the encoded guest error `geb` and host exception data `data`.
pub open spec fn outb_error_outcome(m0: Seq<u8>, l: LayoutValues, geb: Seq<u8>, data: Seq<u8>) -> (
    Result<(), HyperlightError>,
    Seq<u8>,
) {
    match read_at(m0, l.peb_guest_error_offset, 8) {
        Err(e) => (Err(e), m0),
        Ok(max_err) => if geb.len() > max_err {
            (Err(HyperlightError::GuestErrorTooLarge(geb.len() as u64, max_err)), m0)
        } else {
            match bounds_at(l.guest_error_buffer_offset, geb.len() as int, m0.len() as int) {
                Err(e) => (Err(e), m0),
                Ok(_) => {
                    let m1 = spec_write(m0, l.guest_error_buffer_offset as int, geb);
                    match read_at(m1, l.peb_host_exception_offset, 8) {
                        Err(e) => (Err(e), m1),
                        Ok(max_he) => if max_he > usize::MAX {
                            (Err(HyperlightError::ArithmeticOverflow), m1)
                        } else if data.len() > max_he - 4 {
                            (
                                Err(
                                    HyperlightError::ExceptionMessageTooBig(
                                        data.len() as usize,
                                        (max_he - 4) as usize,
                                    ),
                                ),
                                m1,
                            )
                        } else {
                            let he = l.host_exception_buffer_offset;
                            match bounds_at(he, 4, m1.len() as int) {
                                Err(e) => (Err(e), m1),
                                Ok(_) => {
                                    let m2 = spec_write(
                                        m1,
                                        he as int,
                                        le_encode(((data.len() as i32) as u32) as nat, 4),
                                    );
                                    (
                                        bounds_at((he + 4) as u64, data.len() as int, m2.len() as int),
                                        spec_write(m2, he + 4, data),
                                    )
                                },
                            }
                        },
                    }
                },
            }
        },
    }
}

/// Whether `write_outb_error` would find room for the host exception's
/// length smaller than the length itself, which it does not handle.
pub open spec fn outb_error_underflows(m0: Seq<u8>, l: LayoutValues, geb: Seq<u8>) -> bool {
    &&& read_at(m0, l.peb_guest_error_offset, 8) matches Ok(max_err)
    &&& geb.len() <= max_err
    &&& bounds_at(l.guest_error_buffer_offset, geb.len() as int, m0.len() as int) is Ok
    &&& read_at(spec_write(m0, l.guest_error_buffer_offset as int, geb), l.peb_host_exception_offset, 8)
        matches Ok(max_he)
    &&& max_he < 4
}

/// What writing `buffer` into the memory buffer at `off`, whose size the
/// `u64` at `size_off` records, returns and leaves in memory `m0`.
pub open spec fn bounded_write_outcome(m0: Seq<u8>, size_off: u64, off: u64, buffer: Seq<u8>) -> (
    Result<(), HyperlightError>,
    Seq<u8>,
) {
    match read_at(m0, size_off, 8) {
        Err(e) => (Err(e), m0),
        Ok(size) => if size > usize::MAX {
            (Err(HyperlightError::ArithmeticOverflow), m0)
        } else if buffer.len() > size {
            (Err(HyperlightError::BufferTooLarge(buffer.len() as usize, size as usize)), m0)
        } else {
            (bounds_at(off, buffer.len() as int, m0.len() as int), spec_write(m0, off as int, buffer))
        },
    }
}

/// A struct that is responsible for laying out and managing the memory for
/// a given sandbox.
pub struct SandboxMemoryManager {
    /// Whether or not to run a sandbox in-process.
    run_from_process_memory: bool,
    mem_snapshot: Option<Vec<u8>>,
    /// Shared memory for the sandbox.
    pub shared_mem: SharedMemory,
    /// The layout of the shared memory.
    pub layout: SandboxMemoryLayout,
    /// Pointer to where to load memory from.
    pub load_addr: RawPtr,
    /// Offset for the execution entrypoint from `load_addr`.
    pub entrypoint_offset: Offset,
}

impl SandboxMemoryManager {
    /// The snapshot of memory that `restore_state` goes back to, if any.
    pub closed spec fn snapshot(&self) -> Option<Seq<u8>> {
        match self.mem_snapshot {
            Some(v) => Some(v@),
            None => None,
        }
    }

    /// Whether there is a snapshot and it fits in the shared memory, so that
    /// restoring it succeeds.
    pub open spec fn snapshot_fits(&self) -> bool {
        self.snapshot() matches Some(s) && s.len() <= self.mem_spec()@.len()
    }

    /// The shared memory of the sandbox.
    pub closed spec fn mem_spec(&self) -> SharedMemory {
        self.shared_mem
    }

    /// The layout of the sandbox's memory.
    pub closed spec fn layout_spec(&self) -> SandboxMemoryLayout {
        self.layout
    }

    /// The address where the guest binary was loaded.
    pub closed spec fn load_addr_spec(&self) -> RawPtr {
        self.load_addr
    }

    /// The offset of the entry point from the load address.
    pub closed spec fn entrypoint_offset_spec(&self) -> Offset {
        self.entrypoint_offset
    }

    /// Whether the sandbox runs in process.
    pub closed spec fn spec_in_process(&self) -> bool {
        self.run_from_process_memory
    }

    /// Create a new `SandboxMemoryManager` with the given parameters and no
    /// snapshot.
    pub fn new(
        layout: SandboxMemoryLayout,
        shared_mem: SharedMemory,
        run_from_process_memory: bool,
        load_addr: RawPtr,
        entrypoint_offset: Offset,
    ) -> (r: Self)
        ensures
            r.layout_spec() == layout,
            r.mem_spec() == shared_mem,
            r.spec_in_process() == run_from_process_memory,
            r.load_addr_spec() == load_addr,
            r.entrypoint_offset_spec() == entrypoint_offset,
            r.snapshot() is None,
    {
        Self {
            run_from_process_memory,
            mem_snapshot: None,
            layout,
            shared_mem,
            load_addr,
            entrypoint_offset,
        }
    }

    /// The shared memory of the sandbox.
    pub fn get_shared_mem(&self) -> (r: &SharedMemory)
        ensures
            *r == self.mem_spec(),
    {
        &self.shared_mem
    }

    /// The shared memory of the sandbox, to change it.
    pub fn get_shared_mem_mut(&mut self) -> (r: &mut SharedMemory)
        ensures
            *r == old(self).mem_spec(),
            final(self).mem_spec() == *final(r),
            final(self).layout_spec() == old(self).layout_spec(),
            final(self).snapshot() == old(self).snapshot(),
            final(self).spec_in_process() == old(self).spec_in_process(),
            final(self).load_addr_spec() == old(self).load_addr_spec(),
            final(self).entrypoint_offset_spec() == old(self).entrypoint_offset_spec(),
    {
        &mut self.shared_mem
    }

    /// The layout of the sandbox's memory.
    pub fn get_layout(&self) -> (r: SandboxMemoryLayout)
        ensures
            r == self.layout_spec(),
    {
        self.layout
    }

    /// The address where the guest binary was loaded.
    pub fn get_load_addr(&self) -> (r: &RawPtr)
        ensures
            *r == self.load_addr_spec(),
    {
        &self.load_addr
    }

    /// The offset of the entry point from the load address.
    pub fn get_entrypoint_offset(&self) -> (r: Offset)
        ensures
            r == self.entrypoint_offset_spec(),
    {
        self.entrypoint_offset
    }

    /// Whether the sandbox runs in process.
    pub fn is_in_process(&self) -> (r: bool)
        ensures
            r == self.spec_in_process(),
    {
        self.run_from_process_memory
    }

    /// Set the stack guard to `cookie`, at the top of the stack.
    pub fn set_stack_guard(&mut self, cookie: &[u8; STACK_COOKIE_LEN]) -> (r: Result<
        (),
        HyperlightError,
    >)
        ensures
            ({
                let off = old(self).layout_spec()@.guest_stack_buffer_offset as int;
                &&& off <= usize::MAX ==> r == spec_bounds(
                    off,
                    STACK_COOKIE_LEN as int,
                    old(self).mem_spec()@.len() as int,
                ) && final(self).mem_spec()@ == spec_write(old(self).mem_spec()@, off, cookie@)
                &&& off > usize::MAX ==> r == Err::<(), HyperlightError>(
                    HyperlightError::ArithmeticOverflow,
                ) && final(self).mem_spec()@ == old(self).mem_spec()@
            }),
            final(self).mem_spec().spec_base_addr() == old(self).mem_spec().spec_base_addr(),
            final(self).layout_spec() == old(self).layout_spec(),
            final(self).snapshot() == old(self).snapshot(),
            final(self).spec_in_process() == old(self).spec_in_process(),
            final(self).load_addr_spec() == old(self).load_addr_spec(),
            final(self).entrypoint_offset_spec() == old(self).entrypoint_offset_spec(),
    {
        let stack_offset = self.layout.get_top_of_stack_offset().try_to_usize()?;
        self.shared_mem.copy_from_slice(cookie.as_slice(), stack_offset)
    }

    /// Set up the page tables of the hypervisor partition in the shared
    /// memory, and return the initial stack pointer for memory of
    /// `mem_size` bytes: its end in guest memory, less the 0x28 bytes that
    /// the entry point expects above it.
    ///
    /// The PML4 points at the PDPT and the PDPT at the PD, whose 512 entries
    /// map the first GiB of virtual memory to the same physical memory in
    /// 2 MiB pages. Only the bytes of those entries change.
    pub fn set_up_hypervisor_partition(&mut self, mem_size: u64) -> (r: Result<u64, HyperlightError>)
        requires
            mem_size + SandboxMemoryLayout::BASE_ADDRESS <= u64::MAX,
        ensures
            final(self).mem_spec()@.len() == old(self).mem_spec()@.len(),
            final(self).mem_spec().spec_base_addr() == old(self).mem_spec().spec_base_addr(),
            final(self).layout_spec() == old(self).layout_spec(),
            final(self).snapshot() == old(self).snapshot(),
            final(self).spec_in_process() == old(self).spec_in_process(),
            final(self).load_addr_spec() == old(self).load_addr_spec(),
            final(self).entrypoint_offset_spec() == old(self).entrypoint_offset_spec(),
            SandboxMemoryLayout::PAGE_TABLE_SIZE <= old(self).mem_spec()@.len() ==> r == Ok::<
                u64,
                HyperlightError,
            >((mem_size + SandboxMemoryLayout::BASE_ADDRESS - 0x28) as u64),
            r is Ok ==> page_tables_written(final(self).mem_spec()@) && forall|j: int|
                0 <= j < old(self).mem_spec()@.len() && !in_page_table_entries(j)
                    ==> #[trigger] final(self).mem_spec()@[j] == old(self).mem_spec()@[j],
            SandboxMemoryLayout::PAGE_TABLE_SIZE > old(self).mem_spec()@.len() ==> (r matches Err(
                HyperlightError::BoundsCheckFailed(_, n, l),
            ) && n == 8 && l == old(self).mem_spec()@.len()),
    {
        let rsp = mem_size + usize_to_u64(SandboxMemoryLayout::BASE_ADDRESS) - 0x28;
        let ghost m0 = self.shared_mem@;
        let pml4: u64 = PDE64_PRESENT | PDE64_RW | PDE64_USER | usize_to_u64(
            SandboxMemoryLayout::PDPT_GUEST_ADDRESS,
        );
        let pdpt: u64 = PDE64_PRESENT | PDE64_RW | PDE64_USER | usize_to_u64(
            SandboxMemoryLayout::PD_GUEST_ADDRESS,
        );
        proof {
            assert(1u64 | 2u64 | 4u64 | 0x20_1000u64 == 0x20_1007u64) by (bit_vector);
            assert(1u64 | 2u64 | 4u64 | 0x20_2000u64 == 0x20_2007u64) by (bit_vector);
            lemma_pow256_values();
            lemma_decode_encode(pml4 as nat, 8);
            lemma_decode_encode(pdpt as nat, 8);
        }
        self.shared_mem.write_u64(SandboxMemoryLayout::PML4_OFFSET, pml4)?;
        let ghost m1 = self.shared_mem@;
        proof {
            lemma_update_bytes_len(m0, 0, le_encode(pml4 as nat, 8));
        }
        self.shared_mem.write_u64(SandboxMemoryLayout::PDPT_OFFSET, pdpt)?;
        proof {
            lemma_update_bytes_len(m1, 0x1000, le_encode(pdpt as nat, 8));
            lemma_update_keeps_range(m1, 0x1000, le_encode(pdpt as nat, 8), 0, 8);
            assert(page_tables_partly_written(self.shared_mem@, m0, 0));
        }
        let mut i: usize = 0;
        while i < PD_ENTRIES
            invariant
                i <= PD_ENTRIES,
                page_tables_partly_written(self.shared_mem@, m0, i as int),
                self.shared_mem.spec_base_addr() == old(self).shared_mem.spec_base_addr(),
                self.layout == old(self).layout,
                self.mem_snapshot == old(self).mem_snapshot,
                self.run_from_process_memory == old(self).run_from_process_memory,
                self.load_addr == old(self).load_addr,
                self.entrypoint_offset == old(self).entrypoint_offset,
                m0 == old(self).shared_mem@,
            decreases PD_ENTRIES - i,
        {
            let offset = SandboxMemoryLayout::PD_OFFSET + i * 8;
            proof {
                let iu = i as u64;
                assert(iu < 512 ==> iu << 21u64 == iu * 0x20_0000) by (bit_vector);
                assert(1u64 | 2u64 | 4u64 | 0x80u64 == 0x87u64) by (bit_vector);
            }
            let val_to_write: u64 = ((i as u64) << 21u64) + (PDE64_PRESENT | PDE64_RW | PDE64_USER
                | PDE64_PS);
            let ghost before = self.shared_mem@;
            self.shared_mem.write_u64(offset, val_to_write)?;
            proof {
                lemma_pd_entry_step(before, m0, i as int, val_to_write);
            }
            i = i + 1;
        }
        proof {
            let m = self.shared_mem@;
            assert forall|j: int| 0 <= j < m0.len() && !in_page_table_entries(j) implies #[trigger] m[j]
                == m0[j] by {
                assert(!(0x2000 <= j < 0x2000 + 8 * 512));
            }
        }
        Ok(rsp)
    }

    /// Check the stack guard at the top of the stack: `Ok(true)` where it
    /// holds `cookie`, `Ok(false)` where it does not, and an error where it
    /// lies outside memory.
    pub fn check_stack_guard(&self, cookie: [u8; STACK_COOKIE_LEN]) -> (r: Result<
        bool,
        HyperlightError,
    >)
        ensures
            ({
                let off = self.layout_spec()@.guest_stack_buffer_offset as int;
                let len = self.mem_spec()@.len() as int;
                &&& off > usize::MAX ==> r == Err::<bool, HyperlightError>(
                    HyperlightError::ArithmeticOverflow,
                )
                &&& off + STACK_COOKIE_LEN <= len ==> r == Ok::<bool, HyperlightError>(
                    self.mem_spec()@.subrange(off, off + STACK_COOKIE_LEN) == cookie@,
                )
                &&& off <= usize::MAX && off + STACK_COOKIE_LEN > len ==> r == Err::<
                    bool,
                    HyperlightError,
                >(HyperlightError::BoundsCheckFailed(off as usize, STACK_COOKIE_LEN, len as usize))
            }),
    {
        let _len = self.shared_mem.mem_size();
        let offset = self.layout.get_top_of_stack_offset().try_to_usize()?;
        let mut test_cookie: Vec<u8> = zeroed_vec(STACK_COOKIE_LEN);
        self.shared_mem.copy_to_slice(test_cookie.as_mut_slice(), offset)?;
        let mut i: usize = 0;
        while i < STACK_COOKIE_LEN
            invariant
                i <= STACK_COOKIE_LEN,
                test_cookie@.len() == STACK_COOKIE_LEN,
                offset == self.layout@.guest_stack_buffer_offset,
                offset + STACK_COOKIE_LEN <= self.shared_mem@.len(),
                test_cookie@ == self.mem_spec()@.subrange(offset as int, offset + STACK_COOKIE_LEN),
                forall|k: int| 0 <= k < i ==> cookie@[k] == test_cookie@[k],
            decreases STACK_COOKIE_LEN - i,
        {
            if cookie[i] != test_cookie[i] {
                proof {
                    assert(cookie@[i as int] != test_cookie@[i as int]);
                    assert(cookie@ != test_cookie@);
                }
                return Ok(false);
            }
            i = i + 1;
        }
        proof {
            assert(cookie@ =~= test_cookie@);
        }
        Ok(true)
    }

    /// Get the address of the process environment block (PEB): in process,
    /// its offset from `start_addr`, the start of memory; otherwise its
    /// address in guest memory.
    pub fn get_peb_address(&self, start_addr: u64) -> (r: Result<u64, HyperlightError>)
        requires
            self.spec_in_process() ==> self.layout_spec()@.peb_offset + start_addr <= u64::MAX,
        ensures
            self.spec_in_process() ==> r == Ok::<u64, HyperlightError>(
                (self.layout_spec()@.peb_offset + start_addr) as u64,
            ),
            !self.spec_in_process() ==> r == Ok::<u64, HyperlightError>(
                self.layout_spec()@.peb_address as u64,
            ),
    {
        if self.run_from_process_memory {
            let updated_offset = self.layout.get_in_process_peb_offset().add_u64(start_addr);
            Ok(updated_offset.as_u64())
        } else {
            Ok(usize_to_u64(self.layout.get_peb_address()))
        }
    }

    /// Take a snapshot of the shared memory, replacing any earlier one.
    pub fn snapshot_state(&mut self) -> (r: Result<(), HyperlightError>)
        ensures
            r is Ok,
            final(self).snapshot() == Some(old(self).mem_spec()@),
            final(self).mem_spec() == old(self).mem_spec(),
            final(self).layout_spec() == old(self).layout_spec(),
            final(self).spec_in_process() == old(self).spec_in_process(),
            final(self).load_addr_spec() == old(self).load_addr_spec(),
            final(self).entrypoint_offset_spec() == old(self).entrypoint_offset_spec(),
    {
        let copy = self.shared_mem.copy_all_to_vec()?;
        self.mem_snapshot = Some(copy);
        Ok(())
    }

    /// Restore the shared memory from the snapshot, or fail where there is
    /// no snapshot.
    pub fn restore_state(&mut self) -> (r: Result<(), HyperlightError>)
        ensures
            old(self).snapshot() is None ==> r == Err::<(), HyperlightError>(
                HyperlightError::NoMemorySnapshot,
            ) && final(self).mem_spec()@ == old(self).mem_spec()@,
            old(self).snapshot() matches Some(s) ==> r == spec_bounds(
                0,
                s.len() as int,
                old(self).mem_spec()@.len() as int,
            ) && final(self).mem_spec()@ == spec_write(old(self).mem_spec()@, 0, s),
            final(self).mem_spec().spec_base_addr() == old(self).mem_spec().spec_base_addr(),
            final(self).snapshot() == old(self).snapshot(),
            final(self).layout_spec() == old(self).layout_spec(),
            final(self).spec_in_process() == old(self).spec_in_process(),
            final(self).load_addr_spec() == old(self).load_addr_spec(),
            final(self).entrypoint_offset_spec() == old(self).entrypoint_offset_spec(),
    {
        match &self.mem_snapshot {
            Some(snapshot) => {
                let _n = snapshot.len();
                self.shared_mem.copy_from_slice(snapshot.as_slice(), 0)
            },
            None => Err(HyperlightError::NoMemorySnapshot),
        }
    }

    /// Get the return value of an executable that ran: the `i32` at the
    /// start of the output data buffer.
    pub fn get_return_value(&self) -> (r: Result<i32, HyperlightError>)
        ensures
            r == as_i32_result(
                read_at(self.mem_spec()@, self.layout_spec()@.output_data_buffer_offset, 4),
            ),
    {
        let offset = self.layout.get_output_data_offset().try_to_usize()?;
        self.shared_mem.read_i32(offset)
    }

    /// Write `addr` where the PEB holds the address of the outb function.
    pub fn set_outb_address(&mut self, addr: u64) -> (r: Result<(), HyperlightError>)
        ensures
            ({
                let o = old(self).layout_spec()@.peb_code_and_outb_pointer_offset + 8;
                &&& r == bounds_at(o as u64, 8, old(self).mem_spec()@.len() as int)
                &&& final(self).mem_spec()@ == spec_write(
                    old(self).mem_spec()@,
                    o,
                    le_encode(addr as nat, 8),
                )
            }),
            final(self).mem_spec().spec_base_addr() == old(self).mem_spec().spec_base_addr(),
            final(self).layout_spec() == old(self).layout_spec(),
            final(self).snapshot() == old(self).snapshot(),
            final(self).spec_in_process() == old(self).spec_in_process(),
            final(self).load_addr_spec() == old(self).load_addr_spec(),
            final(self).entrypoint_offset_spec() == old(self).entrypoint_offset_spec(),
    {
        let _len = self.shared_mem.mem_size();
        let offset = self.layout.get_outb_pointer_offset().try_to_usize()?;
        self.shared_mem.write_u64(offset, addr)
    }

    /// Write `addr` and `context` where the PEB holds the address of the
    /// outb function and the context it is called with.
    pub fn set_outb_address_and_context(&mut self, addr: u64, context: u64) -> (r: Result<
        (),
        HyperlightError,
    >)
        ensures
            ({
                let o = old(self).layout_spec()@.peb_code_and_outb_pointer_offset + 8;
                let c = old(self).layout_spec()@.peb_code_and_outb_pointer_offset + 16;
                let len = old(self).mem_spec()@.len() as int;
                let m1 = spec_write(old(self).mem_spec()@, o, le_encode(addr as nat, 8));
                &&& bounds_at(o as u64, 8, len) is Err ==> r == bounds_at(o as u64, 8, len)
                    && final(self).mem_spec()@ == old(self).mem_spec()@
                &&& bounds_at(o as u64, 8, len) is Ok ==> r == bounds_at(c as u64, 8, len)
                    && final(self).mem_spec()@ == spec_write(m1, c, le_encode(context as nat, 8))
            }),
            final(self).mem_spec().spec_base_addr() == old(self).mem_spec().spec_base_addr(),
            final(self).layout_spec() == old(self).layout_spec(),
            final(self).snapshot() == old(self).snapshot(),
            final(self).spec_in_process() == old(self).spec_in_process(),
            final(self).load_addr_spec() == old(self).load_addr_spec(),
            final(self).entrypoint_offset_spec() == old(self).entrypoint_offset_spec(),
    {
        let _len = self.shared_mem.mem_size();
        proof {
            lemma_le_encode_len(addr as nat, 8);
        }
        let offset = self.layout.get_outb_pointer_offset().try_to_usize()?;
        self.shared_mem.write_u64(offset, addr)?;
        let offset = self.layout.get_outb_context_offset().try_to_usize()?;
        self.shared_mem.write_u64(offset, context)
    }

    /// Get the address of the dispatch function, which the guest writes in
    /// its PEB. Where that address lies below guest memory it is refused, so
    /// that a guest running in process cannot point the host elsewhere.
    pub fn get_pointer_to_dispatch_function(&self) -> (r: Result<u64, HyperlightError>)
        ensures
            ({
                let rd = read_at(
                    self.mem_spec()@,
                    self.layout_spec()@.peb_guest_dispatch_function_ptr_offset,
                    8,
                );
                &&& rd matches Err(e) ==> r == Err::<u64, HyperlightError>(e)
                &&& rd matches Ok(v) ==> (if v < SandboxMemoryLayout::BASE_ADDRESS {
                    r == Err::<u64, HyperlightError>(
                        HyperlightError::PointerBelowBase(v, SandboxMemoryLayout::BASE_ADDRESS as u64),
                    )
                } else {
                    r == Ok::<u64, HyperlightError>(v)
                })
            }),
    {
        let offset = self.layout.get_dispatch_function_pointer_offset().try_to_usize()?;
        let guest_dispatch_function_ptr = self.shared_mem.read_u64(offset)?;
        let guest_ptr = GuestPtr::try_from_raw_ptr(RawPtr::new(guest_dispatch_function_ptr))?;
        guest_ptr.absolute()
    }

    /// Get the length of the host exception: the `i32` at the start of the
    /// host exception buffer.
    pub fn get_host_error_length(&self) -> (r: Result<i32, HyperlightError>)
        ensures
            r == as_i32_result(
                read_at(self.mem_spec()@, self.layout_spec()@.host_exception_buffer_offset, 4),
            ),
    {
        let offset = self.layout.get_host_exception_offset().try_to_usize()?;
        self.shared_mem.read_i32(offset)
    }

    /// Whether there is a host error: whether the length of the host
    /// exception is not zero.
    pub fn has_host_error(&self) -> (r: Result<bool, HyperlightError>)
        ensures
            ({
                let rd = as_i32_result(
                    read_at(self.mem_spec()@, self.layout_spec()@.host_exception_buffer_offset, 4),
                );
                &&& rd matches Err(e) ==> r == Err::<bool, HyperlightError>(e)
                &&& rd matches Ok(len) ==> r == Ok::<bool, HyperlightError>(len != 0)
            }),
    {
        let offset = self.layout.get_host_exception_offset().try_to_usize()?;
        let len = self.shared_mem.read_i32(offset)?;
        Ok(len != 0)
    }

    /// Copy the data of the host exception, which follows its length, into
    /// `exception_data_slc`, whose length must be that length.
    pub fn get_host_error_data(&self, exception_data_slc: &mut [u8]) -> (r: Result<
        (),
        HyperlightError,
    >)
        requires
            self.layout_spec()@.host_exception_buffer_offset + 4 <= usize::MAX,
        ensures
            ({
                let o = self.layout_spec()@.host_exception_buffer_offset as int;
                let m = self.mem_spec()@;
                let rd = as_i32_result(read_at(m, o as u64, 4));
                let n = old(exception_data_slc)@.len();
                &&& rd matches Err(e) ==> r == Err::<(), HyperlightError>(e)
                &&& rd matches Ok(len) ==> (n != (len as usize) ==> (r == Err::<(), HyperlightError>(
                    HyperlightError::ExceptionDataLengthIncorrect(len, n as usize),
                )))
                &&& rd matches Ok(len) ==> (n == (len as usize) ==> (r == spec_bounds(
                    o + 4,
                    n as int,
                    m.len() as int,
                )))
                &&& r is Ok ==> final(exception_data_slc)@ == m.subrange(o + 4, o + 4 + n)
                &&& r is Err ==> final(exception_data_slc)@ == old(exception_data_slc)@
            }),
    {
        let offset = self.layout.get_host_exception_offset().try_to_usize()?;
        let len = self.get_host_error_length()?;
        let exception_data_slc_len = exception_data_slc.len();
        if exception_data_slc_len != len as usize {
            return Err(HyperlightError::ExceptionDataLengthIncorrect(len, exception_data_slc_len));
        }
        self.shared_mem.copy_to_slice(exception_data_slc, offset + 4)
    }

    /// Get the data of the host error, if there is one: `Ok(None)` where the
    /// length of the host exception is zero, else its data. Turning those
    /// bytes into an error is the caller's.
    pub fn get_host_error(&self) -> (r: Result<Option<Vec<u8>>, HyperlightError>)
        requires
            self.layout_spec()@.host_exception_buffer_offset + 4 <= usize::MAX,
        ensures
            ({
                let o = self.layout_spec()@.host_exception_buffer_offset as int;
                let m = self.mem_spec()@;
                let rd = as_i32_result(read_at(m, o as u64, 4));
                &&& rd matches Err(e) ==> r == Err::<Option<Vec<u8>>, HyperlightError>(e)
                &&& rd matches Ok(len) ==> (len == 0 ==> (r == Ok::<Option<Vec<u8>>, HyperlightError>(
                    None,
                )))
                &&& rd matches Ok(len) ==> (len < 0 ==> (r == Err::<Option<Vec<u8>>, HyperlightError>(
                    HyperlightError::NegativeLength(len),
                )))
                &&& rd matches Ok(len) ==> (len > 0 ==> ((if o + 4 + len <= m.len() {
                    r matches Ok(Some(v)) && v@ == m.subrange(o + 4, o + 4 + len)
                } else {
                    r == Err::<Option<Vec<u8>>, HyperlightError>(
                        HyperlightError::BoundsCheckFailed((o + 4) as usize, len as usize, m.len() as usize),
                    )
                })))
            }),
    {
        if !self.has_host_error()? {
            return Ok(None);
        }
        let len_i32 = self.get_host_error_length()?;
        if len_i32 < 0 {
            return Err(HyperlightError::NegativeLength(len_i32));
        }
        let host_err_len = len_i32 as usize;
        let mut host_err_data: Vec<u8> = zeroed_vec(host_err_len);
        self.get_host_error_data(host_err_data.as_mut_slice())?;
        Ok(Some(host_err_data))
    }

    /// Write an error raised by the host's outb handler to guest memory:
    /// `guest_error_buffer`, the encoded guest error, to the guest error
    /// buffer, and `host_exception_data`, preceded by its length, to the host
    /// exception buffer. Each must fit in the size that the PEB records for
    /// its buffer.
    pub fn write_outb_error(&mut self, guest_error_buffer: &[u8], host_exception_data: &[u8]) -> (r:
        Result<(), HyperlightError>)
        requires
            !outb_error_underflows(
                old(self).mem_spec()@,
                old(self).layout_spec()@,
                guest_error_buffer@,
            ),
        ensures
            (r, final(self).mem_spec()@) == outb_error_outcome(
                old(self).mem_spec()@,
                old(self).layout_spec()@,
                guest_error_buffer@,
                host_exception_data@,
            ),
            final(self).mem_spec().spec_base_addr() == old(self).mem_spec().spec_base_addr(),
            final(self).layout_spec() == old(self).layout_spec(),
            final(self).snapshot() == old(self).snapshot(),
            final(self).spec_in_process() == old(self).spec_in_process(),
            final(self).load_addr_spec() == old(self).load_addr_spec(),
            final(self).entrypoint_offset_spec() == old(self).entrypoint_offset_spec(),
    {
        proof {
            lemma_le_encode_len(((host_exception_data@.len() as i32) as u32) as nat, 4);
        }
        let _len = self.shared_mem.mem_size();
        let err_buffer_size_offset = self.layout.get_guest_error_buffer_size_offset().try_to_usize()?;
        let max_err_buffer_size = self.shared_mem.read_u64(err_buffer_size_offset)?;
        if usize_to_u64(guest_error_buffer.len()) > max_err_buffer_size {
            return Err(
                HyperlightError::GuestErrorTooLarge(
                    usize_to_u64(guest_error_buffer.len()),
                    max_err_buffer_size,
                ),
            );
        }
        let ge_offset = self.layout.get_guest_error_buffer_offset().try_to_usize()?;
        self.shared_mem.copy_from_slice(guest_error_buffer, ge_offset)?;
        let host_exception_offset = self.layout.get_host_exception_offset();
        let host_exception_size_offset = self.layout.get_host_exception_size_offset().try_to_usize()?;
        let size_u64 = self.shared_mem.read_u64(host_exception_size_offset)?;
        let max_host_exception_size = Offset::new(size_u64).try_to_usize()?;
        if host_exception_data.len() > max_host_exception_size - 4 {
            return Err(
                HyperlightError::ExceptionMessageTooBig(
                    host_exception_data.len(),
                    max_host_exception_size - 4,
                ),
            );
        }
        let he = host_exception_offset.try_to_usize()?;
        self.shared_mem.write_i32(he, host_exception_data.len() as i32)?;
        let he_data = host_exception_offset.add_usize(4).try_to_usize()?;
        self.shared_mem.copy_from_slice(host_exception_data, he_data)
    }

    /// Get the bytes of the guest error buffer, as many as the PEB records
    /// as its size. Decoding the guest error from them is the caller's.
    pub fn get_guest_error(&self) -> (r: Result<Vec<u8>, HyperlightError>)
        ensures
            ({
                let m = self.mem_spec()@;
                let l = self.layout_spec()@;
                &&& read_at(m, l.peb_guest_error_offset, 8) matches Err(e) ==> r == Err::<
                    Vec<u8>,
                    HyperlightError,
                >(e)
                &&& read_at(m, l.peb_guest_error_offset, 8) matches Ok(size) ==> (if size
                    > usize::MAX {
                    r == Err::<Vec<u8>, HyperlightError>(HyperlightError::ArithmeticOverflow)
                } else {
                    match bounds_at(l.guest_error_buffer_offset, size as int, m.len() as int) {
                        Err(e) => r == Err::<Vec<u8>, HyperlightError>(e),
                        Ok(_) => r matches Ok(v) && v@ == m.subrange(
                            l.guest_error_buffer_offset as int,
                            l.guest_error_buffer_offset + size,
                        ),
                    }
                })
            }),
    {
        let err_buffer_size_offset = self.layout.get_guest_error_buffer_size_offset().try_to_usize()?;
        let max_err_buffer_size = self.shared_mem.read_u64(err_buffer_size_offset)?;
        let size = Offset::new(max_err_buffer_size).try_to_usize()?;
        let mut guest_error_buffer = zeroed_vec(size);
        let err_msg_offset = self.layout.get_guest_error_buffer_offset().try_to_usize()?;
        self.shared_mem.copy_to_slice(guest_error_buffer.as_mut_slice(), err_msg_offset)?;
        Ok(guest_error_buffer)
    }

    /// Write `buffer` into the memory buffer at `off` whose size the `u64`
    /// at `size_off` records, where it fits.
    fn write_bounded(&mut self, size_off: Offset, off: Offset, buffer: &[u8]) -> (r: Result<
        (),
        HyperlightError,
    >)
        ensures
            (r, final(self).mem_spec()@) == bounded_write_outcome(
                old(self).mem_spec()@,
                size_off@,
                off@,
                buffer@,
            ),
            final(self).mem_spec().spec_base_addr() == old(self).mem_spec().spec_base_addr(),
            final(self).layout_spec() == old(self).layout_spec(),
            final(self).snapshot() == old(self).snapshot(),
            final(self).spec_in_process() == old(self).spec_in_process(),
            final(self).load_addr_spec() == old(self).load_addr_spec(),
            final(self).entrypoint_offset_spec() == old(self).entrypoint_offset_spec(),
    {
        let _len = self.shared_mem.mem_size();
        let s = size_off.try_to_usize()?;
        let size_u64 = self.shared_mem.read_u64(s)?;
        let buffer_size = Offset::new(size_u64).try_to_usize()?;
        if buffer.len() > buffer_size {
            return Err(HyperlightError::BufferTooLarge(buffer.len(), buffer_size));
        }
        let o = off.try_to_usize()?;
        self.shared_mem.copy_from_slice(buffer, o)
    }

    /// Write the encoded host function details `buffer` to the host function
    /// definitions buffer, where it fits in the size that the PEB records.
    pub fn write_buffer_host_function_details(&mut self, buffer: &[u8]) -> (r: Result<
        (),
        HyperlightError,
    >)
        ensures
            (r, final(self).mem_spec()@) == bounded_write_outcome(
                old(self).mem_spec()@,
                old(self).layout_spec()@.peb_host_function_definitions_offset,
                old(self).layout_spec()@.host_function_definitions_buffer_offset,
                buffer@,
            ),
            final(self).mem_spec().spec_base_addr() == old(self).mem_spec().spec_base_addr(),
            final(self).layout_spec() == old(self).layout_spec(),
            final(self).snapshot() == old(self).snapshot(),
            final(self).spec_in_process() == old(self).spec_in_process(),
            final(self).load_addr_spec() == old(self).load_addr_spec(),
            final(self).entrypoint_offset_spec() == old(self).entrypoint_offset_spec(),
    {
        let size_off = self.layout.get_host_function_definitions_size_offset();
        let off = self.layout.get_host_function_definitions_buffer_offset();
        self.write_bounded(size_off, off, buffer)
    }

    /// Write the encoded guest function call `buffer` to the input data
    /// buffer, where it fits in the size that the PEB records.
    pub fn write_guest_function_call(&mut self, buffer: &[u8]) -> (r: Result<(), HyperlightError>)
        ensures
            (r, final(self).mem_spec()@) == bounded_write_outcome(
                old(self).mem_spec()@,
                old(self).layout_spec()@.peb_input_data_offset,
                old(self).layout_spec()@.input_data_buffer_offset,
                buffer@,
            ),
            final(self).mem_spec().spec_base_addr() == old(self).mem_spec().spec_base_addr(),
            final(self).layout_spec() == old(self).layout_spec(),
            final(self).snapshot() == old(self).snapshot(),
            final(self).spec_in_process() == old(self).spec_in_process(),
            final(self).load_addr_spec() == old(self).load_addr_spec(),
            final(self).entrypoint_offset_spec() == old(self).entrypoint_offset_spec(),
    {
        let size_off = self.layout.get_input_data_size_offset();
        let off = self.layout.get_input_data_buffer_offset();
        self.write_bounded(size_off, off, buffer)
    }

    /// Write the encoded host function call `buffer`, where it fits in the
    /// size of the output data buffer that the PEB records, to the host
    /// function definitions buffer.
    pub fn write_host_function_call(&mut self, buffer: &[u8]) -> (r: Result<(), HyperlightError>)
        ensures
            (r, final(self).mem_spec()@) == bounded_write_outcome(
                old(self).mem_spec()@,
                old(self).layout_spec()@.peb_output_data_offset,
                old(self).layout_spec()@.host_function_definitions_buffer_offset,
                buffer@,
            ),
            final(self).mem_spec().spec_base_addr() == old(self).mem_spec().spec_base_addr(),
            final(self).layout_spec() == old(self).layout_spec(),
            final(self).snapshot() == old(self).snapshot(),
            final(self).spec_in_process() == old(self).spec_in_process(),
            final(self).load_addr_spec() == old(self).load_addr_spec(),
            final(self).entrypoint_offset_spec() == old(self).entrypoint_offset_spec(),
    {
        let size_off = self.layout.get_output_data_size_offset();
        let off = self.layout.get_host_function_definitions_buffer_offset();
        self.write_bounded(size_off, off, buffer)
    }

    /// Write the encoded return value of a host function `buffer` to the
    /// input data buffer.
    pub fn write_response_from_host_method_call(&mut self, buffer: &[u8]) -> (r: Result<
        (),
        HyperlightError,
    >)
        ensures
            r == bounds_at(
                old(self).layout_spec()@.input_data_buffer_offset,
                buffer@.len() as int,
                old(self).mem_spec()@.len() as int,
            ),
            final(self).mem_spec()@ == spec_write(
                old(self).mem_spec()@,
                old(self).layout_spec()@.input_data_buffer_offset as int,
                buffer@,
            ),
            final(self).mem_spec().spec_base_addr() == old(self).mem_spec().spec_base_addr(),
            final(self).layout_spec() == old(self).layout_spec(),
            final(self).snapshot() == old(self).snapshot(),
            final(self).spec_in_process() == old(self).spec_in_process(),
            final(self).load_addr_spec() == old(self).load_addr_spec(),
            final(self).entrypoint_offset_spec() == old(self).entrypoint_offset_spec(),
    {
        let _len = self.shared_mem.mem_size();
        let input_data_offset = self.layout.get_input_data_buffer_offset().try_to_usize()?;
        self.shared_mem.copy_from_slice(buffer, input_data_offset)
    }

    /// Read the size-prefixed buffer at `off`: its four-byte size says how
    /// many bytes follow the size.
    fn read_size_prefixed(&self, off: Offset) -> (r: Result<Vec<u8>, HyperlightError>)
        requires
            !size_prefix_overflows(self.mem_spec()@, off@),
        ensures
            match size_prefixed_at(self.mem_spec()@, off@) {
                Ok(s) => r matches Ok(v) && v@ == s,
                Err(e) => r == Err::<Vec<u8>, HyperlightError>(e),
            },
    {
        let _len = self.shared_mem.mem_size();
        let o = off.try_to_usize()?;
        let size_i32 = self.shared_mem.read_i32(o)? + 4;
        if size_i32 < 0 {
            return Err(HyperlightError::NegativeLength(size_i32));
        }
        let fb_buffer_size = size_i32 as usize;
        let mut buffer = zeroed_vec(fb_buffer_size);
        self.shared_mem.copy_to_slice(buffer.as_mut_slice(), o)?;
        Ok(buffer)
    }

    /// Read the encoded host function call from the output data buffer.
    pub fn get_host_function_call(&self) -> (r: Result<Vec<u8>, HyperlightError>)
        requires
            !size_prefix_overflows(self.mem_spec()@, self.layout_spec()@.output_data_buffer_offset),
        ensures
            match size_prefixed_at(self.mem_spec()@, self.layout_spec()@.output_data_buffer_offset) {
                Ok(s) => r matches Ok(v) && v@ == s,
                Err(e) => r == Err::<Vec<u8>, HyperlightError>(e),
            },
    {
        self.read_size_prefixed(self.layout.get_output_data_offset())
    }

    /// Read the encoded guest function call from the input data buffer.
    pub fn get_guest_function_call(&self) -> (r: Result<Vec<u8>, HyperlightError>)
        requires
            !size_prefix_overflows(self.mem_spec()@, self.layout_spec()@.input_data_buffer_offset),
        ensures
            match size_prefixed_at(self.mem_spec()@, self.layout_spec()@.input_data_buffer_offset) {
                Ok(s) => r matches Ok(v) && v@ == s,
                Err(e) => r == Err::<Vec<u8>, HyperlightError>(e),
            },
    {
        self.read_size_prefixed(self.layout.get_input_data_buffer_offset())
    }

    /// Read the encoded result of a function call from the output data buffer.
    pub fn get_function_call_result(&self) -> (r: Result<Vec<u8>, HyperlightError>)
        requires
            !size_prefix_overflows(self.mem_spec()@, self.layout_spec()@.output_data_buffer_offset),
        ensures
            match size_prefixed_at(self.mem_spec()@, self.layout_spec()@.output_data_buffer_offset) {
                Ok(s) => r matches Ok(v) && v@ == s,
                Err(e) => r == Err::<Vec<u8>, HyperlightError>(e),
            },
    {
        self.read_size_prefixed(self.layout.get_output_data_offset())
    }

    /// Read the encoded guest log data from the output data buffer: its
    /// four-byte size, then that many bytes.
    pub fn read_guest_log_data(&self) -> (r: Result<Vec<u8>, HyperlightError>)
        requires
            read_at(self.mem_spec()@, self.layout_spec()@.output_data_buffer_offset, 4) matches Ok(
                size,
            ) ==> size + 4 <= usize::MAX,
        ensures
            ({
                let m = self.mem_spec()@;
                let o = self.layout_spec()@.output_data_buffer_offset;
                &&& read_at(m, o, 4) matches Err(e) ==> r == Err::<Vec<u8>, HyperlightError>(e)
                &&& read_at(m, o, 4) matches Ok(size) ==> (if o + size + 4 <= m.len() {
                    r matches Ok(v) && v@ == m.subrange(o as int, o + size + 4)
                } else {
                    r == Err::<Vec<u8>, HyperlightError>(
                        HyperlightError::BoundsCheckFailed(o as usize, (size + 4) as usize, m.len() as usize),
                    )
                })
            }),
    {
        let _len = self.shared_mem.mem_size();
        let offset = self.layout.get_output_data_offset().try_to_usize()?;
        let size = self.shared_mem.read_u32(offset)?;
        proof {
            lemma_le_decode_bound(self.shared_mem@.subrange(offset as int, offset + 4));
            lemma_pow256_values();
        }
        let len_usize = size as usize + 4;
        let mut vec_out = zeroed_vec(len_usize);
        self.shared_mem.copy_to_slice(vec_out.as_mut_slice(), offset)?;
        Ok(vec_out)
    }
}

/// The stack size that loading `pe` with configuration `cfg` asks for.
pub open spec fn chosen_stack_size(cfg: SandboxMemoryConfiguration, pe: &PEInfo) -> u64 {
    if cfg.stack_size_override > 0 {
        cfg.stack_size_override
    } else {
        pe.optional_header_spec().size_of_stack_reserve
    }
}

/// The heap size that loading `pe` with configuration `cfg` asks for.
pub open spec fn chosen_heap_size(cfg: SandboxMemoryConfiguration, pe: &PEInfo) -> u64 {
    if cfg.heap_size_override > 0 {
        cfg.heap_size_override
    } else {
        pe.optional_header_spec().size_of_heap_reserve
    }
}

/// Whether the layout for code of `code_size` bytes and the given stack
/// and heap sizes can be computed without overflow, where the sizes fit in
/// a `usize`.
pub open spec fn layout_computable(
    cfg: SandboxMemoryConfiguration,
    code_size: usize,
    stack: u64,
    heap: u64,
) -> bool {
    stack <= usize::MAX && heap <= usize::MAX ==> {
        &&& layout_fits(cfg, code_size, heap as usize)
        &&& round_up(
            spec_unaligned_memory_size(spec_layout(cfg, code_size, stack as usize, heap as usize)),
            SandboxMemoryLayout::FOUR_K as int,
        ) <= usize::MAX
    }
}

/// An upper bound on what laying out memory for code of `code_size` bytes
/// and the given stack and heap sizes adds up to: every region and buffer,
/// the base address of guest memory, and a page for each of the two
/// roundings to whole pages and for the guard page.
pub open spec fn layout_size_bound(
    cfg: SandboxMemoryConfiguration,
    code_size: usize,
    stack: u64,
    heap: u64,
) -> int {
    SandboxMemoryLayout::BASE_ADDRESS + SandboxMemoryLayout::PAGE_TABLE_SIZE + code_size
        + SIZE_OF_HYPERLIGHT_PEB + cfg.host_function_definition_size + cfg.host_exception_size
        + cfg.guest_error_buffer_size + cfg.input_data_size + cfg.output_data_size
        + cfg.guest_panic_context_buffer_size + heap + stack + 3 * SandboxMemoryLayout::FOUR_K
}

/// Rounding up to a whole page adds less than a page.
proof fn lemma_round_up_page(x: int)
    requires
        x >= 0,
    ensures
        x <= round_up(x, SandboxMemoryLayout::FOUR_K as int) < x + SandboxMemoryLayout::FOUR_K,
{
    vstd::arithmetic::div_mod::lemma_mod_bound(x, SandboxMemoryLayout::FOUR_K as int);
}

/// Whether the sizes that loading `pe_info` with configuration `cfg` lays
/// out add up, with room for rounding, to no more than a `usize` holds:
/// then computing the layout does not overflow.
pub fn layout_sizes_fit(cfg: SandboxMemoryConfiguration, pe_info: &PEInfo) -> (r: bool)
    ensures
        r == (layout_size_bound(
            cfg,
            pe_info.payload_len_spec(),
            chosen_stack_size(cfg, pe_info),
            chosen_heap_size(cfg, pe_info),
        ) <= usize::MAX),
        r ==> layout_computable(
            cfg,
            pe_info.payload_len_spec(),
            chosen_stack_size(cfg, pe_info),
            chosen_heap_size(cfg, pe_info),
        ),
{
    let total: u128 = SandboxMemoryLayout::BASE_ADDRESS as u128
        + SandboxMemoryLayout::PAGE_TABLE_SIZE as u128 + pe_info.get_payload_len() as u128
        + SIZE_OF_HYPERLIGHT_PEB as u128 + cfg.get_host_function_definition_size() as u128
        + cfg.get_host_exception_size() as u128 + cfg.get_guest_error_buffer_size() as u128
        + cfg.get_input_data_size() as u128 + cfg.get_output_data_size() as u128
        + cfg.get_guest_panic_context_buffer_size() as u128 + cfg.get_heap_size(pe_info) as u128
        + cfg.get_stack_size(pe_info) as u128 + 3 * SandboxMemoryLayout::FOUR_K as u128;
    let r = total <= usize::MAX as u128;
    proof {
        if r {
            let code = pe_info.payload_len_spec();
            let stack = chosen_stack_size(cfg, pe_info);
            let heap = chosen_heap_size(cfg, pe_info);
            let he = spec_heap_end(cfg, code, heap as usize);
            lemma_round_up_page(he);
            let l = spec_layout(cfg, code, stack as usize, heap as usize);
            reveal(spec_layout);
            let u = spec_unaligned_memory_size(l);
            assert(l.extra_heap_needed + he == round_up(he, SandboxMemoryLayout::FOUR_K as int));
            lemma_round_up_page(u);
        }
    }
    r
}

/// Lay out the memory of a sandbox for the PE file `pe_info` with code of
/// `code_size` bytes, create the shared memory, and write in the PEB the
/// address at which the code is loaded: in process, the code's place in
/// host memory; in a VM, its place in guest memory. Returns the layout, the
/// memory, the load address and the entry point's offset.
pub fn load_guest_binary_common(
    cfg: SandboxMemoryConfiguration,
    pe_info: &PEInfo,
    code_size: usize,
    run_from_process_memory: bool,
) -> (r: Result<(SandboxMemoryLayout, SharedMemory, RawPtr, Offset), HyperlightError>)
    requires
        layout_computable(
            cfg,
            code_size,
            chosen_stack_size(cfg, pe_info),
            chosen_heap_size(cfg, pe_info),
        ),
    ensures
        ({
            let stack = chosen_stack_size(cfg, pe_info);
            let heap = chosen_heap_size(cfg, pe_info);
            let l = spec_layout(cfg, code_size, stack as usize, heap as usize);
            let size = round_up(spec_unaligned_memory_size(l), SandboxMemoryLayout::FOUR_K as int);
            if stack > usize::MAX || heap > usize::MAX || SandboxMemoryLayout::BASE_ADDRESS
                + spec_peb_offset(code_size) > usize::MAX {
                r == Err::<(SandboxMemoryLayout, SharedMemory, RawPtr, Offset), HyperlightError>(
                    HyperlightError::ArithmeticOverflow,
                )
            } else if size > SandboxMemoryLayout::MAX_MEMORY_SIZE {
                r == Err::<(SandboxMemoryLayout, SharedMemory, RawPtr, Offset), HyperlightError>(
                    HyperlightError::MemoryRequestTooBig(
                        size as usize,
                        SandboxMemoryLayout::MAX_MEMORY_SIZE,
                    ),
                )
            } else if r is Err {
                r == Err::<(SandboxMemoryLayout, SharedMemory, RawPtr, Offset), HyperlightError>(
                    HyperlightError::MemoryAllocationFailed,
                )
            } else {
                r matches Ok((layout, mem, addr, entry)) && layout@ == l && layout_wf(layout@) && entry@
                    == pe_info.optional_header_spec().address_of_entry_point && addr@ == (
                if run_from_process_memory {
                    mem.spec_base_addr() + SandboxMemoryLayout::CODE_OFFSET
                } else {
                    SandboxMemoryLayout::GUEST_CODE_ADDRESS as int
                }) && addr@ <= usize::MAX && mem@.len() == size && mem@ == update_bytes(
                    zeros(size as nat),
                    l.peb_code_and_outb_pointer_offset as int,
                    le_encode(addr@ as nat, 8),
                )
            }
        }),
{
    let stack = Offset::new(cfg.get_stack_size(pe_info)).try_to_usize()?;
    let heap = Offset::new(cfg.get_heap_size(pe_info)).try_to_usize()?;
    let layout = SandboxMemoryLayout::new(cfg, code_size, stack, heap)?;
    let mem_size = layout.get_memory_size()?;
    proof {
        lemma_memory_size_is_end_of_stack(layout@);
        lemma_layout_regions_ordered(layout@);
        let t = spec_unaligned_memory_size(layout@);
        assert(round_up(t, SandboxMemoryLayout::FOUR_K as int) >= t);
    }
    let shared_mem = SharedMemory::new(mem_size)?;
    Ok(finish_layout(layout, shared_mem, pe_info, run_from_process_memory))
}

/// Finish the memory of a sandbox laid out by `layout` once it has been
/// allocated, zeroed, as `shared_mem`: work out the address at which the code
/// of `pe_info` is loaded (in process, the code's place in host memory; in a
/// VM, its place in guest memory) and write it in the PEB. Returns the
/// layout, the memory, the load address and the entry point's offset.
pub fn finish_layout(
    layout: SandboxMemoryLayout,
    shared_mem: SharedMemory,
    pe_info: &PEInfo,
    run_from_process_memory: bool,
) -> (r: (SandboxMemoryLayout, SharedMemory, RawPtr, Offset))
    requires
        layout_wf(layout@),
        shared_mem@ == zeros(
            round_up(spec_unaligned_memory_size(layout@), SandboxMemoryLayout::FOUR_K as int) as nat,
        ),
    ensures
        ({
            let (l, mem, addr, entry) = r;
            &&& l == layout
            &&& entry@ == pe_info.optional_header_spec().address_of_entry_point
            &&& mem.spec_base_addr() == shared_mem.spec_base_addr()
            &&& mem@.len() == shared_mem@.len()
            &&& addr@ <= usize::MAX
            &&& addr@ == (if run_from_process_memory {
                shared_mem.spec_base_addr() + SandboxMemoryLayout::CODE_OFFSET
            } else {
                SandboxMemoryLayout::GUEST_CODE_ADDRESS as int
            })
            &&& mem@ == update_bytes(
                shared_mem@,
                layout@.peb_code_and_outb_pointer_offset as int,
                le_encode(addr@ as nat, 8),
            )
        }),
{
    proof {
        lemma_memory_size_is_end_of_stack(layout@);
        lemma_layout_regions_ordered(layout@);
        let t = spec_unaligned_memory_size(layout@);
        assert(round_up(t, SandboxMemoryLayout::FOUR_K as int) >= t);
    }
    let mut shared_mem = shared_mem;
    let addr_usize = if run_from_process_memory {
        shared_mem.base_addr() + SandboxMemoryLayout::CODE_OFFSET
    } else {
        SandboxMemoryLayout::GUEST_CODE_ADDRESS
    };
    let load_addr = RawPtr::try_from_usize(addr_usize).unwrap();
    let entrypoint_offset = Offset::new(pe_info.entry_point_offset());
    let offset = layout.get_code_pointer_offset().try_to_usize().unwrap();
    let written = shared_mem.write_u64(offset, load_addr.as_u64());
    proof {
        lemma_le_encode_len(load_addr@ as nat, 8);
        assert(written is Ok);
    }
    (layout, shared_mem, load_addr, entrypoint_offset)
}

impl SandboxMemoryManager {
    /// Load the binary of `pe_info` into memory: lay out the memory, apply
    /// the relocations for the load address to the PE file, and copy it to
    /// where the code goes. In process the load address is in host memory;
    /// in a VM it is in guest memory.
    pub fn load_guest_binary_into_memory(
        cfg: SandboxMemoryConfiguration,
        pe_info: &mut PEInfo,
        run_from_process_memory: bool,
    ) -> (r: Result<Self, HyperlightError>)
        requires
            layout_computable(
                cfg,
                old(pe_info).payload_len_spec(),
                chosen_stack_size(cfg, old(pe_info)),
                chosen_heap_size(cfg, old(pe_info)),
            ),
            old(pe_info).payload_len_spec() == old(pe_info).payload_spec().len(),
        ensures
            r matches Ok(m) ==> ({
                let stack = chosen_stack_size(cfg, old(pe_info));
                let heap = chosen_heap_size(cfg, old(pe_info));
                let code_size = old(pe_info).payload_len_spec();
                let l = spec_layout(cfg, code_size, stack as usize, heap as usize);
                let c = SandboxMemoryLayout::CODE_OFFSET as int;
                let size = round_up(spec_unaligned_memory_size(l), SandboxMemoryLayout::FOUR_K as int);
                &&& m.layout_spec()@ == l
                &&& m.spec_in_process() == run_from_process_memory
                &&& m.snapshot() is None
                &&& m.entrypoint_offset_spec()@ == old(pe_info).optional_header_spec().address_of_entry_point
                &&& m.load_addr_spec()@ == (if run_from_process_memory {
                    m.mem_spec().spec_base_addr() + c
                } else {
                    SandboxMemoryLayout::GUEST_CODE_ADDRESS as int
                })
                &&& old(pe_info).relocation_patches_of(
                    old(pe_info).payload_spec(),
                    m.load_addr_spec()@ as usize,
                ) matches Ok(ps)
                &&& final(pe_info).payload_spec() == crate::mem::le_bytes::apply_writes(
                    old(pe_info).payload_spec(),
                    patch_writes(old(pe_info).relocation_patches_of(
                        old(pe_info).payload_spec(),
                        m.load_addr_spec()@ as usize,
                    )->Ok_0),
                )
                &&& m.mem_spec()@ == loaded_image(l, m.load_addr_spec()@ as int, final(pe_info).payload_spec())
                &&& m.mem_spec()@.len() == size
            }),
            !stack_and_heap_fit(cfg, old(pe_info)) ==> r == Err::<Self, HyperlightError>(
                load_layout_error(cfg, old(pe_info)),
            ),
            !run_from_process_memory && stack_and_heap_fit(cfg, old(pe_info)) ==> match old(
                pe_info,
            ).relocation_patches_of(
                old(pe_info).payload_spec(),
                SandboxMemoryLayout::GUEST_CODE_ADDRESS,
            ) {
                Ok(_) => r is Ok || r == Err::<Self, HyperlightError>(
                    HyperlightError::MemoryAllocationFailed,
                ),
                Err(e) => r == Err::<Self, HyperlightError>(e) || r == Err::<Self, HyperlightError>(
                    HyperlightError::MemoryAllocationFailed,
                ),
            },
            stack_and_heap_fit(cfg, old(pe_info)) ==> (r matches Err(e) ==> (e
                == HyperlightError::MemoryAllocationFailed || exists|a: usize|
                #[trigger] old(pe_info).relocation_patches_of(old(pe_info).payload_spec(), a)
                    == Err::<Seq<RelocationPatch>, HyperlightError>(e))),
            r is Err ==> *final(pe_info) == *old(pe_info),
    {
        let code_size = pe_info.get_payload_len();
        let (layout, shared_mem, load_addr, entrypoint_offset) = load_guest_binary_common(
            cfg,
            pe_info,
            code_size,
            run_from_process_memory,
        )?;
        proof {
            reveal(spec_layout);
        }
        Self::install_code(
            layout,
            shared_mem,
            pe_info,
            load_addr,
            entrypoint_offset,
            run_from_process_memory,
        )
    }

    /// Put the binary of `pe_info` into the memory `shared_mem` that
    /// `layout` lays out, for loading at `load_addr`: apply the relocations
    /// for that address to the PE file and copy it to where the code goes.
    /// Fails, leaving the PE file as it was, where the relocations cannot be
    /// worked out.
    pub fn install_code(
        layout: SandboxMemoryLayout,
        shared_mem: SharedMemory,
        pe_info: &mut PEInfo,
        load_addr: RawPtr,
        entrypoint_offset: Offset,
        run_from_process_memory: bool,
    ) -> (r: Result<Self, HyperlightError>)
        requires
            layout_wf(layout@),
            layout@.code_size == old(pe_info).payload_spec().len(),
            old(pe_info).payload_len_spec() == old(pe_info).payload_spec().len(),
            shared_mem@.len() == round_up(
                spec_unaligned_memory_size(layout@),
                SandboxMemoryLayout::FOUR_K as int,
            ),
            load_addr@ <= usize::MAX,
        ensures
            match old(pe_info).relocation_patches_of(
                old(pe_info).payload_spec(),
                load_addr@ as usize,
            ) {
                Ok(ps) => r matches Ok(m) && {
                    &&& m.layout_spec() == layout
                    &&& m.spec_in_process() == run_from_process_memory
                    &&& m.snapshot() is None
                    &&& m.load_addr_spec() == load_addr
                    &&& m.entrypoint_offset_spec() == entrypoint_offset
                    &&& m.mem_spec().spec_base_addr() == shared_mem.spec_base_addr()
                    &&& final(pe_info).payload_spec() == crate::mem::le_bytes::apply_writes(
                        old(pe_info).payload_spec(),
                        patch_writes(ps),
                    )
                    &&& m.mem_spec()@ == update_bytes(
                        shared_mem@,
                        SandboxMemoryLayout::CODE_OFFSET as int,
                        final(pe_info).payload_spec(),
                    )
                    &&& m.mem_spec()@.len() == shared_mem@.len()
                },
                Err(e) => r == Err::<Self, HyperlightError>(e) && *final(pe_info) == *old(pe_info),
            },
    {
        let mut shared_mem = shared_mem;
        let addr = load_addr.try_to_usize().unwrap();
        let relocation_patches = pe_info.get_exe_relocation_patches(pe_info.get_payload(), addr)?;
        proof {
            crate::mem::pe::pe_info::lemma_patches_fit(pe_info.payload_spec(), pe_info, addr);
        }
        let applied = PEInfo::apply_relocation_patches(pe_info.get_payload_mut(), relocation_patches);
        proof {
            assert(applied is Ok);
            lemma_layout_regions_ordered(layout@);
            lemma_memory_size_is_end_of_stack(layout@);
            let t = spec_unaligned_memory_size(layout@);
            assert(round_up(t, SandboxMemoryLayout::FOUR_K as int) >= t);
        }
        let code_offset = SandboxMemoryLayout::CODE_OFFSET;
        let copied = shared_mem.copy_from_slice(pe_info.get_payload(), code_offset);
        proof {
            assert(copied is Ok);
            lemma_update_bytes_len(
                shared_mem@,
                code_offset as int,
                pe_info.payload_spec(),
            );
        }
        Ok(Self::new(layout, shared_mem, run_from_process_memory, load_addr, entrypoint_offset))
    }
}

/// The memory of a sandbox laid out by `l` right after its binary, whose
/// relocated bytes are `payload`, was loaded at `load_addr`: zeros, but for
/// the load address in the PEB and the binary where the code goes.
pub open spec fn loaded_image(l: LayoutValues, load_addr: int, payload: Seq<u8>) -> Seq<u8> {
    update_bytes(
        update_bytes(
            zeros(
                round_up(spec_unaligned_memory_size(l), SandboxMemoryLayout::FOUR_K as int) as nat,
            ),
            l.peb_code_and_outb_pointer_offset as int,
            le_encode(load_addr as nat, 8),
        ),
        SandboxMemoryLayout::CODE_OFFSET as int,
        payload,
    )
}

/// The error that laying out the memory for loading `pe` with configuration
/// `cfg` gives where it fails: an overflow where the stack, the heap or the
/// PEB's address do not fit, else the memory is too big.
pub open spec fn load_layout_error(cfg: SandboxMemoryConfiguration, pe: &PEInfo) -> HyperlightError {
    let stack = chosen_stack_size(cfg, pe);
    let heap = chosen_heap_size(cfg, pe);
    let l = spec_layout(cfg, pe.payload_len_spec(), stack as usize, heap as usize);
    let size = round_up(spec_unaligned_memory_size(l), SandboxMemoryLayout::FOUR_K as int);
    if stack > usize::MAX || heap > usize::MAX || SandboxMemoryLayout::BASE_ADDRESS + spec_peb_offset(
        pe.payload_len_spec(),
    ) > usize::MAX {
        HyperlightError::ArithmeticOverflow
    } else {
        HyperlightError::MemoryRequestTooBig(size as usize, SandboxMemoryLayout::MAX_MEMORY_SIZE)
    }
}

/// Whether the stack and heap that loading `pe` asks for fit in a `usize`,
/// the PEB's address fits too, and the memory is not too big: then laying
/// out the memory succeeds.
pub open spec fn stack_and_heap_fit(cfg: SandboxMemoryConfiguration, pe: &PEInfo) -> bool {
    let stack = chosen_stack_size(cfg, pe);
    let heap = chosen_heap_size(cfg, pe);
    let l = spec_layout(cfg, pe.payload_len_spec(), stack as usize, heap as usize);
    &&& stack <= usize::MAX
    &&& heap <= usize::MAX
    &&& SandboxMemoryLayout::BASE_ADDRESS + spec_peb_offset(pe.payload_len_spec()) <= usize::MAX
    &&& round_up(spec_unaligned_memory_size(l), SandboxMemoryLayout::FOUR_K as int)
        <= SandboxMemoryLayout::MAX_MEMORY_SIZE
}

/// Reading the host error back right after writing it with the outb
/// error: where the write to memory (of a length that fits a `usize`)
/// succeeded and the exception data is not empty (and its length fits an
/// `i32`), the recorded length is the data's and the bytes after it are the
/// data.
pub proof fn lemma_host_error_round_trip(
    m0: Seq<u8>,
    l: LayoutValues,
    geb: Seq<u8>,
    data: Seq<u8>,
)
    requires
        outb_error_outcome(m0, l, geb, data).0 is Ok,
        0 < data.len() <= i32::MAX,
        m0.len() <= usize::MAX,
    ensures
        ({
            let m = outb_error_outcome(m0, l, geb, data).1;
            let o = l.host_exception_buffer_offset as int;
            &&& as_i32_result(read_at(m, l.host_exception_buffer_offset, 4)) == Ok::<
                i32,
                HyperlightError,
            >(data.len() as i32)
            &&& o + 4 + data.len() <= m.len()
            &&& m.subrange(o + 4, o + 4 + data.len()) == data
        }),
{
    let m1 = spec_write(m0, l.guest_error_buffer_offset as int, geb);
    lemma_update_bytes_len(m0, l.guest_error_buffer_offset as int, geb);
    let he = l.host_exception_buffer_offset as int;
    let len_bytes = le_encode(((data.len() as i32) as u32) as nat, 4);
    lemma_le_encode_len(((data.len() as i32) as u32) as nat, 4);
    let max_he = read_at(m1, l.peb_host_exception_offset, 8)->Ok_0;
    assert(bounds_at(l.host_exception_buffer_offset, 4, m1.len() as int) is Ok);
    let m2 = spec_write(m1, he, len_bytes);
    lemma_update_bytes_len(m1, he, len_bytes);
    assert(bounds_at((he + 4) as u64, data.len() as int, m2.len() as int) is Ok);
    let m3 = spec_write(m2, he + 4, data);
    lemma_update_bytes_len(m2, he + 4, data);
    assert(outb_error_outcome(m0, l, geb, data).1 == m3);
    lemma_read_write_i32(m1, he, data.len() as i32);
    lemma_write_preserves_other_reads(m2, he + 4, data, he, 4);
    assert(((data.len() as i32) as u32) as nat == data.len()) by {
        lemma_pow256_values();
    }
}

/// Restoring a snapshot taken of memory of the same size gives back that
/// memory exactly, whatever was written to it since.
pub proof fn lemma_restore_after_snapshot(now: Seq<u8>, snap: Seq<u8>)
    requires
        snap.len() == now.len(),
    ensures
        spec_bounds(0, snap.len() as int, now.len() as int) is Ok,
        spec_write(now, 0, snap) == snap,
{
    assert(update_bytes(now, 0, snap) =~= snap);
}

/// Checking the stack guard right after setting it finds the cookie.
pub proof fn lemma_stack_guard_round_trip(m: Seq<u8>, off: int, cookie: Seq<u8>)
    requires
        0 <= off,
        off + cookie.len() <= m.len(),
    ensures
        spec_write(m, off, cookie).subrange(off, off + cookie.len()) == cookie,
{
    lemma_update_bytes_len(m, off, cookie);
}

} // verus!
