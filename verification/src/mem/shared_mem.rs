//! A region of memory shared between the host and a guest.
use crate::error::HyperlightError;
use crate::mem::le_bytes::{
    encode_le, fill_bytes, le_decode, le_encode, lemma_decode_encode, lemma_encode_decode,
    lemma_le_encode_len, lemma_pow256_values, lemma_update_bytes_len, pow256, read_bytes_into, read_le,
    repeat_byte, update_bytes, write_bytes, zeroed_vec, zeros,
};
use vstd::prelude::*;

verus! {

/// The size of a memory page.
pub const PAGE_SIZE_USIZE: usize = 0x1000;

/// The host address of the first byte of `bytes`.
///
/// Calls `<[u8]>::as_ptr` and takes the address of the pointer. The contract
/// claims only that the allocation does not wrap around the end of the
/// address space, which std guarantees of every live allocation; the value of
/// the address depends on the allocator and is left unsaid.
#[verifier::external_body]
pub(crate) fn host_address_of(bytes: &Vec<u8>) -> (addr: usize)
    ensures
        addr + bytes@.len() <= usize::MAX,
{
    bytes.as_ptr() as usize
}

/// A new empty vector with room for `n` bytes, or `None` where the
/// allocator refuses.
///
/// Calls `Vec::try_reserve_exact` on an empty vector. The contract claims
/// that a vector handed back is empty and, as std documents (a capacity over
/// `isize::MAX` bytes overflows), that a request of more than `isize::MAX`
/// bytes fails. Whether a smaller request succeeds depends on the machine and
/// is left unsaid.
#[verifier::external_body]
fn try_reserve_bytes(n: usize) -> (r: Option<Vec<u8>>)
    ensures
        r matches Some(v) ==> v@.len() == 0,
        n > isize::MAX ==> r is None,
{
    let mut v: Vec<u8> = Vec::new();
    match v.try_reserve_exact(n) {
        Ok(()) => Some(v),
        Err(_) => None,
    }
}

/// Fill the empty vector `v`, whose room was reserved, with `n` zero bytes.
pub(crate) fn zeroed_from_reserved(v: Vec<u8>, n: usize) -> (r: Vec<u8>)
    requires
        v@.len() == 0,
    ensures
        r@ == zeros(n as nat),
{
    let mut v = v;
    let mut i: usize = 0;
    assert(v@ =~= zeros(0));
    while i < n
        invariant
            i <= n,
            v@ == zeros(i as nat),
        decreases n - i,
    {
        v.push(0u8);
        i = i + 1;
        assert(v@ =~= zeros(i as nat));
    }
    v
}

/// A new vector of `n` zero bytes, or `None` where the memory for it could
/// not be reserved.
pub(crate) fn try_zeroed_vec(n: usize) -> (r: Option<Vec<u8>>)
    ensures
        r matches Some(v) ==> v@ == zeros(n as nat),
        n > isize::MAX ==> r is None,
{
    match try_reserve_bytes(n) {
        None => None,
        Some(v) => Some(zeroed_from_reserved(v, n)),
    }
}

/// The outcome of reading `n` little-endian bytes at `offset` of `m`.
pub open spec fn spec_read(m: Seq<u8>, offset: int, n: int) -> Result<u64, HyperlightError> {
    if offset + n <= m.len() {
        Ok(le_decode(m.subrange(offset, offset + n)) as u64)
    } else {
        Err(HyperlightError::BoundsCheckFailed(offset as usize, n as usize, m.len() as usize))
    }
}

/// The memory after writing `bytes` at `offset` of `m`, when that fits.
pub open spec fn spec_write(m: Seq<u8>, offset: int, bytes: Seq<u8>) -> Seq<u8> {
    if offset + bytes.len() <= m.len() {
        update_bytes(m, offset, bytes)
    } else {
        m
    }
}

/// The outcome of an access of `n` bytes at `offset` of memory of length `len`.
pub open spec fn spec_bounds(offset: int, n: int, len: int) -> Result<(), HyperlightError> {
    if offset + n <= len {
        Ok(())
    } else {
        Err(HyperlightError::BoundsCheckFailed(offset as usize, n as usize, len as usize))
    }
}

/// The 8-byte little-endian word at `off` of `m`, as a `usize`.
pub open spec fn word_at(m: Seq<u8>, off: int) -> usize {
    (le_decode(m.subrange(off, off + 8)) as u64) as usize
}

/// The 4-byte little-endian value at `off` of `m`.
pub open spec fn u32_at(m: Seq<u8>, off: int) -> u32 {
    (le_decode(m.subrange(off, off + 4)) as u64) as u32
}

/// The outcome of pushing `data` onto the stack buffer of `size` bytes that
/// starts at `start` in `m`: the result, and the memory afterwards.
///
/// The first word of the buffer is the stack pointer, relative to `start`.
/// A push writes `data` at the stack pointer, then the old stack pointer
/// behind it, then moves the stack pointer past both.
pub open spec fn spec_push(m: Seq<u8>, start: int, size: int, data: Seq<u8>) -> (
    Result<(), HyperlightError>,
    Seq<u8>,
) {
    let sp = word_at(m, start);
    let len = m.len() as int;
    if sp > size || sp < 8 {
        (Err(HyperlightError::StackPointerOutOfBounds(sp, size as usize)), m)
    } else if data.len() + 8 > size - sp {
        (
            Err(
                HyperlightError::NotEnoughSpaceInBuffer(
                    (data.len() + 8) as usize,
                    (size - sp) as usize,
                ),
            ),
            m,
        )
    } else {
        let abs = start + sp;
        if abs + data.len() > len {
            (
                Err(
                    HyperlightError::BoundsCheckFailed(
                        abs as usize,
                        data.len() as usize,
                        len as usize,
                    ),
                ),
                m,
            )
        } else {
            let m1 = update_bytes(m, abs, data);
            if abs + data.len() + 8 > len {
                (
                    Err(
                        HyperlightError::BoundsCheckFailed(
                            (abs + data.len()) as usize,
                            8,
                            len as usize,
                        ),
                    ),
                    m1,
                )
            } else {
                let m2 = update_bytes(m1, abs + data.len(), le_encode(sp as nat, 8));
                (Ok(()), update_bytes(m2, start, le_encode((sp + data.len() + 8) as nat, 8)))
            }
        }
    }
}

/// Whether popping from the stack buffer of `size` bytes at `start` in `m`
/// would panic: the stack pointer or the element offset read from memory
/// leads outside the address range, or the element's size does not fit.
pub open spec fn pop_panics(m: Seq<u8>, start: int, size: int) -> bool {
    let len = m.len() as int;
    let sp = word_at(m, start);
    &&& start + 8 <= len
    &&& 16 <= sp <= size
    &&& {
        ||| start + sp > len
        ||| {
            let rel = word_at(m, start + sp - 8);
            let ea = start + rel;
            ||| ea + 4 > usize::MAX
            ||| {
                &&& ea + 4 <= len
                &&& {
                    ||| u32_at(m, ea) + 4 > u32::MAX
                    ||| ea + u32_at(m, ea) + 4 > usize::MAX
                    ||| (ea + u32_at(m, ea) + 4 <= len && rel > sp)
                }
            }
        }
    }
}

/// The outcome of popping the top element off the stack buffer of `size`
/// bytes at `start` in `m`: the popped bytes (or the error), and the memory
/// afterwards.
///
/// The element is a size-prefixed buffer: its first four bytes hold the
/// number of bytes that follow them. Popping moves the stack pointer back to
/// the element and zeroes the memory that the element and its back-link
/// occupied.
pub open spec fn spec_pop(m: Seq<u8>, start: int, size: int) -> (
    Result<Seq<u8>, HyperlightError>,
    Seq<u8>,
) {
    let len = m.len() as int;
    if start + 8 > len {
        (Err(HyperlightError::BoundsCheckFailed(start as usize, 8, len as usize)), m)
    } else {
        let sp = word_at(m, start);
        if sp > size || sp < 16 {
            (Err(HyperlightError::StackPointerOutOfBounds(sp, size as usize)), m)
        } else {
            let rel = word_at(m, start + sp - 8);
            let ea = start + rel;
            if ea + 4 > len {
                (Err(HyperlightError::BoundsCheckFailed(ea as usize, 4, len as usize)), m)
            } else {
                let fb = u32_at(m, ea) + 4;
                if ea + fb > len {
                    (
                        Err(
                            HyperlightError::BoundsCheckFailed(
                                ea as usize,
                                fb as usize,
                                len as usize,
                            ),
                        ),
                        m,
                    )
                } else {
                    let m1 = update_bytes(m, start, le_encode(rel as nat, 8));
                    (
                        Ok(m.subrange(ea, ea + fb)),
                        update_bytes(m1, ea, repeat_byte(0, (sp - rel) as nat)),
                    )
                }
            }
        }
    }
}

/// Popping from a stack buffer right after a successful push gives back the
/// pushed element, and leaves the memory as it was before the push except
/// that the bytes the element and its back-link occupied are zero.
///
/// The element must be size-prefixed (its first four bytes hold the number
/// of bytes after them), and the stored stack pointer must fit in a `usize`.
pub proof fn lemma_pop_after_push_gives_back_data(
    m: Seq<u8>,
    start: int,
    size: int,
    data: Seq<u8>,
)
    requires
        0 <= start,
        start + 8 <= m.len() <= usize::MAX,
        le_decode(m.subrange(start, start + 8)) <= usize::MAX,
        spec_push(m, start, size, data).0 is Ok,
        4 <= data.len() <= u32::MAX,
        u32_at(data, 0) + 4 == data.len(),
    ensures
        spec_push(m, start, size, data).0 is Ok,
        !pop_panics(spec_push(m, start, size, data).1, start, size),
        spec_pop(spec_push(m, start, size, data).1, start, size).0 == Ok::<
            Seq<u8>,
            HyperlightError,
        >(data),
        spec_pop(spec_push(m, start, size, data).1, start, size).1 == update_bytes(
            m,
            start + word_at(m, start),
            zeros((data.len() + 8) as nat),
        ),
{
    let sp = word_at(m, start);
    let dl = data.len();
    let abs = start + sp;
    let m1 = update_bytes(m, abs, data);
    lemma_le_encode_len(sp as nat, 8);
    lemma_update_bytes_len(m, abs, data);
    let m2 = update_bytes(m1, abs + dl, le_encode(sp as nat, 8));
    lemma_update_bytes_len(m1, abs + dl, le_encode(sp as nat, 8));
    let sp2 = sp + dl + 8;
    lemma_le_encode_len(sp2 as nat, 8);
    let m3 = update_bytes(m2, start, le_encode(sp2 as nat, 8));
    lemma_update_bytes_len(m2, start, le_encode(sp2 as nat, 8));
    assert(spec_push(m, start, size, data) == (Ok::<(), HyperlightError>(()), m3));
    // The stack pointer after the push.
    lemma_pow256_values();
    assert(sp2 < pow256(8));
    lemma_decode_encode(sp2 as nat, 8);
    assert(m3.subrange(start, start + 8) =~= le_encode(sp2 as nat, 8));
    assert(word_at(m3, start) == sp2);
    // The back-link behind the element.
    assert(m3.subrange(abs + dl, abs + dl + 8) =~= le_encode(sp as nat, 8));
    assert(sp < pow256(8));
    lemma_decode_encode(sp as nat, 8);
    assert(start + sp2 - 8 == abs + dl);
    assert(word_at(m3, start + sp2 - 8) == sp);
    // The size prefix of the element.
    assert(m3.subrange(abs, abs + 4) =~= data.subrange(0, 4));
    assert(u32_at(m3, abs) == u32_at(data, 0));
    assert(m3.subrange(abs, abs + dl) =~= data);
    assert(!pop_panics(m3, start, size));
    // The memory after the pop.
    let m4 = update_bytes(m3, start, le_encode(sp as nat, 8));
    lemma_update_bytes_len(m3, start, le_encode(sp as nat, 8));
    let m5 = update_bytes(m4, abs, repeat_byte(0, (sp2 - sp) as nat));
    lemma_update_bytes_len(m4, abs, repeat_byte(0, (sp2 - sp) as nat));
    assert(spec_pop(m3, start, size) == (Ok::<Seq<u8>, HyperlightError>(data), m5));
    lemma_encode_decode(m.subrange(start, start + 8));
    assert(le_encode(sp as nat, 8) == m.subrange(start, start + 8));
    let expected = update_bytes(m, abs, zeros((dl + 8) as nat));
    lemma_update_bytes_len(m, abs, zeros((dl + 8) as nat));
    assert forall|j: int| 0 <= j < m.len() implies #[trigger] m5[j] == expected[j] by {
        if abs <= j < abs + dl + 8 {
        } else if start <= j < start + 8 {
            assert(m4[j] == le_encode(sp as nat, 8)[j - start]);
            assert(m.subrange(start, start + 8)[j - start] == m[j]);
        } else {
            assert(m5[j] == m4[j]);
            assert(m4[j] == m3[j]);
            assert(m3[j] == m2[j]);
            assert(m2[j] == m1[j]);
            assert(m1[j] == m[j]);
        }
    }
    assert(m5 =~= expected);
}

/// Reading `n` bytes where a value of `n` bytes was just written gives the
/// value back.
pub proof fn lemma_read_after_write(m: Seq<u8>, offset: int, n: nat, v: nat)
    requires
        0 <= offset,
        offset + n <= m.len(),
        n <= 8,
        v < pow256(n),
    ensures
        spec_read(spec_write(m, offset, le_encode(v, n)), offset, n as int) == Ok::<
            u64,
            HyperlightError,
        >(v as u64),
{
    lemma_decode_encode(v, n);
    lemma_update_bytes_len(m, offset, le_encode(v, n));
}

/// Reading an `i32` where one was just written gives it back.
pub proof fn lemma_read_write_i32(m: Seq<u8>, offset: int, val: i32)
    requires
        0 <= offset,
        offset + 4 <= m.len(),
    ensures
        spec_read(spec_write(m, offset, le_encode((val as u32) as nat, 4)), offset, 4) matches Ok(v)
            && (v as u32) as i32 == val,
{
    lemma_pow256_values();
    lemma_read_after_write(m, offset, 4, (val as u32) as nat);
    let u = val as u32;
    assert((u as i32) == val) by (bit_vector)
        requires
            u == val as u32,
    ;
}

/// Copying bytes into memory, where they fit, and reading the same range
/// back gives the bytes, and leaves the memory as long as it was.
pub proof fn lemma_copy_round_trip(m: Seq<u8>, offset: int, bytes: Seq<u8>)
    requires
        0 <= offset,
        offset + bytes.len() <= m.len(),
    ensures
        spec_bounds(offset, bytes.len() as int, m.len() as int) is Ok,
        spec_write(m, offset, bytes).len() == m.len(),
        spec_write(m, offset, bytes).subrange(offset, offset + bytes.len()) == bytes,
{
    lemma_update_bytes_len(m, offset, bytes);
}

/// A write leaves every read of bytes outside the written range unchanged.
pub proof fn lemma_write_preserves_other_reads(
    m: Seq<u8>,
    offset: int,
    bytes: Seq<u8>,
    other: int,
    n: int,
)
    requires
        0 <= offset,
        0 <= other,
        0 <= n,
        other + n <= offset || offset + bytes.len() <= other,
    ensures
        spec_read(spec_write(m, offset, bytes), other, n) == spec_read(m, other, n),
{
    if offset + bytes.len() <= m.len() {
        lemma_update_bytes_len(m, offset, bytes);
        if other + n <= m.len() {
            assert(spec_write(m, offset, bytes).subrange(other, other + n) =~= m.subrange(
                other,
                other + n,
            ));
        }
    }
}

/// A representation of the guest's physical memory, often referred to as
/// Guest Physical Memory or Guest Physical Addresses (GPA).
///
/// The usable memory is surrounded (in its raw size) by a guard page on
/// each side.
pub struct SharedMemory {
    data: Vec<u8>,
    base: usize,
}

impl View for SharedMemory {
    type V = Seq<u8>;

    closed spec fn view(&self) -> Seq<u8> {
        self.data@
    }
}

impl SharedMemory {
    #[verifier::type_invariant]
    spec fn inv(self) -> bool {
        &&& self.base + self.data@.len() <= usize::MAX
        &&& self.data@.len() + 2 * PAGE_SIZE_USIZE <= usize::MAX
    }

    /// The host address of the first usable byte.
    pub closed spec fn spec_base_addr(&self) -> usize {
        self.base
    }

    /// Create a new region of shared memory with the given minimum size in
    /// bytes, initialised to zero. Only the usable bytes are held here; the
    /// raw size counts, besides them, the two guard pages that surround the
    /// region where it is mapped for a guest.
    ///
    /// Returns `Err` if the size is zero, if the size together with the
    /// guard pages exceeds `usize::MAX`, or if the memory could not be
    /// allocated.
    pub fn new(min_size_bytes: usize) -> (r: Result<SharedMemory, HyperlightError>)
        ensures
            min_size_bytes == 0 ==> r == Err::<SharedMemory, _>(HyperlightError::ZeroSizedMemory),
            min_size_bytes > 0 && min_size_bytes + 2 * PAGE_SIZE_USIZE > usize::MAX ==> r
                == Err::<SharedMemory, _>(HyperlightError::MemoryRequiredExceedsMax),
            min_size_bytes > 0 && min_size_bytes + 2 * PAGE_SIZE_USIZE <= usize::MAX ==> {
                &&& r matches Ok(m) ==> m@ == zeros(min_size_bytes as nat)
                &&& r matches Err(e) ==> e == HyperlightError::MemoryAllocationFailed
                &&& min_size_bytes > isize::MAX ==> r is Err
            },
    {
        if min_size_bytes == 0 {
            return Err(HyperlightError::ZeroSizedMemory);
        }
        if min_size_bytes > usize::MAX - 2 * PAGE_SIZE_USIZE {
            return Err(HyperlightError::MemoryRequiredExceedsMax);
        }
        match try_zeroed_vec(min_size_bytes) {
            Some(data) => {
                let base = host_address_of(&data);
                Ok(SharedMemory { data, base })
            },
            None => Err(HyperlightError::MemoryAllocationFailed),
        }
    }

    /// Get the base address of shared memory as a `usize`, which is the
    /// first usable byte of the shared memory.
    pub fn base_addr(&self) -> (r: usize)
        ensures
            r == self.spec_base_addr(),
            r + self@.len() <= usize::MAX,
    {
        proof {
            use_type_invariant(self);
        }
        self.base
    }

    /// Return the length of usable memory contained in `self`, which does not
    /// include the surrounding guard pages.
    pub fn mem_size(&self) -> (r: usize)
        ensures
            r == self@.len(),
            r + 2 * PAGE_SIZE_USIZE <= usize::MAX,
            self.spec_base_addr() + r <= usize::MAX,
    {
        proof {
            use_type_invariant(self);
        }
        self.data.len()
    }

    /// The raw size of the memory region: the usable bytes and the two guard
    /// pages that surround them where the region is mapped for a guest. The
    /// guard pages are not held here.
    pub fn raw_mem_size(&self) -> (r: usize)
        ensures
            r == self@.len() + 2 * PAGE_SIZE_USIZE,
    {
        proof {
            use_type_invariant(self);
        }
        self.data.len() + 2 * PAGE_SIZE_USIZE
    }

    /// Move the contents out of `self`, leaving it empty for the moment.
    fn take_data(&mut self) -> (r: Vec<u8>)
        ensures
            r@ == old(self)@,
            final(self)@.len() == 0,
            final(self).spec_base_addr() == old(self).spec_base_addr(),
            r@.len() + 2 * PAGE_SIZE_USIZE <= usize::MAX,
            old(self).spec_base_addr() + r@.len() <= usize::MAX,
    {
        proof {
            use_type_invariant(&*self);
        }
        let mut data: Vec<u8> = Vec::new();
        std::mem::swap(&mut data, &mut self.data);
        data
    }

    /// Put contents back into `self` after `take_data`.
    fn restore_data(&mut self, data: Vec<u8>)
        requires
            data@.len() + 2 * PAGE_SIZE_USIZE <= usize::MAX,
            old(self).spec_base_addr() + data@.len() <= usize::MAX,
        ensures
            final(self)@ == data@,
            final(self).spec_base_addr() == old(self).spec_base_addr(),
    {
        let mut data = data;
        std::mem::swap(&mut data, &mut self.data);
    }

    fn check_bounds(&self, offset: usize, size: usize) -> (r: Result<(), HyperlightError>)
        ensures
            r == spec_bounds(offset as int, size as int, self@.len() as int),
    {
        let len = self.data.len();
        if offset > len || size > len - offset {
            Err(HyperlightError::BoundsCheckFailed(offset, size, len))
        } else {
            Ok(())
        }
    }

    /// Copies all bytes from `src` to `self` starting at `offset`.
    pub fn copy_from_slice(&mut self, src: &[u8], offset: usize) -> (r: Result<(), HyperlightError>)
        ensures
            r == spec_bounds(offset as int, src@.len() as int, old(self)@.len() as int),
            final(self)@ == spec_write(old(self)@, offset as int, src@),
            final(self).spec_base_addr() == old(self).spec_base_addr(),
    {
        self.check_bounds(offset, src.len())?;
        let mut data = self.take_data();
        write_bytes(&mut data, offset, src);
        self.restore_data(data);
        Ok(())
    }

    /// Copies the first `len` bytes of `src` into `self` starting at `offset`.
    pub fn copy_from_slice_subset(&mut self, src: &[u8], len: usize, offset: usize) -> (r: Result<
        (),
        HyperlightError,
    >)
        requires
            offset + len <= usize::MAX,
            len <= src@.len(),
        ensures
            r == spec_bounds(offset as int, len as int, old(self)@.len() as int),
            final(self)@ == spec_write(old(self)@, offset as int, src@.subrange(0, len as int)),
            final(self).spec_base_addr() == old(self).spec_base_addr(),
    {
        self.check_bounds(offset, len)?;
        let mut i: usize = 0;
        let ghost old_data = self.data@;
        let mut data = self.take_data();
        let dlen = data.len();
        while i < len
            invariant
                offset + len <= data@.len(),
                dlen == data@.len(),
                data@.len() == old_data.len(),
                len <= src@.len(),
                i <= len,
                forall|j: int|
                    0 <= j < data@.len() ==> #[trigger] data@[j] == (if offset <= j < offset + i {
                        src@[j - offset]
                    } else {
                        old_data[j]
                    }),
            decreases len - i,
        {
            data.set(offset + i, src[i]);
            i = i + 1;
        }
        assert(data@ =~= update_bytes(old_data, offset as int, src@.subrange(0, len as int)));
        self.restore_data(data);
        Ok(())
    }

    /// Fill the memory in the range `[offset, offset + len)` with `value`.
    pub fn fill(&mut self, value: u8, offset: usize, len: usize) -> (r: Result<(), HyperlightError>)
        ensures
            r == spec_bounds(offset as int, len as int, old(self)@.len() as int),
            final(self)@ == spec_write(old(self)@, offset as int, repeat_byte(value, len as nat)),
            final(self).spec_base_addr() == old(self).spec_base_addr(),
    {
        self.check_bounds(offset, len)?;
        let mut data = self.take_data();
        fill_bytes(&mut data, value, offset, len);
        self.restore_data(data);
        Ok(())
    }

    /// Copy all of `self` in the range `[offset, offset + dst.len())` into `dst`.
    pub fn copy_to_slice(&self, dst: &mut [u8], offset: usize) -> (r: Result<(), HyperlightError>)
        ensures
            r == spec_bounds(offset as int, old(dst)@.len() as int, self@.len() as int),
            r is Ok ==> final(dst)@ == self@.subrange(offset as int, offset + old(dst)@.len()),
            r is Err ==> final(dst)@ == old(dst)@,
    {
        self.check_bounds(offset, dst.len())?;
        read_bytes_into(&self.data, offset, dst);
        Ok(())
    }

    /// Copy the entire contents of `self` into a `Vec<u8>`, then return it.
    pub fn copy_all_to_vec(&self) -> (r: Result<Vec<u8>, HyperlightError>)
        ensures
            r matches Ok(v) && v@ == self@,
    {
        let mut out = zeroed_vec(self.data.len());
        read_bytes_into(&self.data, 0, out.as_mut_slice());
        assert(self.data@.subrange(0, self.data@.len() as int) =~= self.data@);
        Ok(out)
    }

    /// Return the address of memory at an offset to this `SharedMemory`,
    /// checking that the memory is within the bounds of the `SharedMemory`.
    pub fn calculate_address(&self, offset: usize) -> (r: Result<usize, HyperlightError>)
        ensures
            offset <= self@.len() ==> r == Ok::<usize, HyperlightError>(
                (self.spec_base_addr() + offset) as usize,
            ),
            offset > self@.len() ==> r == Err::<usize, _>(
                HyperlightError::BoundsCheckFailed(offset, 0, self@.len() as usize),
            ),
    {
        proof {
            use_type_invariant(self);
        }
        self.check_bounds(offset, 0)?;
        Ok(self.base + offset)
    }

    fn read_n(&self, offset: usize, n: usize) -> (r: Result<u64, HyperlightError>)
        requires
            n <= 8,
        ensures
            r == spec_read(self@, offset as int, n as int),
    {
        self.check_bounds(offset, n)?;
        Ok(read_le(self.data.as_slice(), offset, n))
    }

    fn write_n(&mut self, offset: usize, n: usize, value: u64) -> (r: Result<(), HyperlightError>)
        requires
            n <= 8,
        ensures
            r == spec_bounds(offset as int, n as int, old(self)@.len() as int),
            final(self)@ == spec_write(old(self)@, offset as int, le_encode(value as nat, n as nat)),
            final(self).spec_base_addr() == old(self).spec_base_addr(),
    {
        proof {
            lemma_le_encode_len(value as nat, n as nat);
        }
        self.check_bounds(offset, n)?;
        let bytes = encode_le(value, n);
        let mut data = self.take_data();
        write_bytes(&mut data, offset, bytes.as_slice());
        self.restore_data(data);
        Ok(())
    }

    /// Read a little-endian `u8` from the memory at the given offset.
    pub fn read_u8(&self, offset: usize) -> (r: Result<u8, HyperlightError>)
        ensures
            match spec_read(self@, offset as int, 1 as int) {
                Ok(v) => r == Ok::<u8, HyperlightError>((v as u8)),
                Err(e) => r == Err::<u8, HyperlightError>(e),
            },
    {
        proof {
            broadcast use vstd::layout::layout_of_primitives;
        }
        let v = self.read_n(offset, 1)?;
        Ok((v as u8))
    }

    /// Write `value` as little-endian bytes to the memory at the given offset.
    pub fn write_u8(&mut self, offset: usize, value: u8) -> (r: Result<(), HyperlightError>)
        ensures
            r == spec_bounds(offset as int, 1 as int, old(self)@.len() as int),
            final(self)@ == spec_write(old(self)@, offset as int, le_encode(value as nat, 1 as nat)),
            final(self).spec_base_addr() == old(self).spec_base_addr(),
    {
        proof {
            broadcast use vstd::layout::layout_of_primitives;
        }
        self.write_n(offset, 1, value as u64)
    }

    /// Read a little-endian `i8` from the memory at the given offset.
    pub fn read_i8(&self, offset: usize) -> (r: Result<i8, HyperlightError>)
        ensures
            match spec_read(self@, offset as int, 1 as int) {
                Ok(v) => r == Ok::<i8, HyperlightError>((v as u8) as i8),
                Err(e) => r == Err::<i8, HyperlightError>(e),
            },
    {
        proof {
            broadcast use vstd::layout::layout_of_primitives;
        }
        let v = self.read_n(offset, 1)?;
        Ok((v as u8) as i8)
    }

    /// Write `value` as little-endian bytes to the memory at the given offset.
    pub fn write_i8(&mut self, offset: usize, value: i8) -> (r: Result<(), HyperlightError>)
        ensures
            r == spec_bounds(offset as int, 1 as int, old(self)@.len() as int),
            final(self)@ == spec_write(old(self)@, offset as int, le_encode((value as u8) as nat, 1 as nat)),
            final(self).spec_base_addr() == old(self).spec_base_addr(),
    {
        proof {
            broadcast use vstd::layout::layout_of_primitives;
        }
        self.write_n(offset, 1, (value as u8) as u64)
    }

    /// Read a little-endian `u16` from the memory at the given offset.
    pub fn read_u16(&self, offset: usize) -> (r: Result<u16, HyperlightError>)
        ensures
            match spec_read(self@, offset as int, 2 as int) {
                Ok(v) => r == Ok::<u16, HyperlightError>((v as u16)),
                Err(e) => r == Err::<u16, HyperlightError>(e),
            },
    {
        proof {
            broadcast use vstd::layout::layout_of_primitives;
        }
        let v = self.read_n(offset, 2)?;
        Ok((v as u16))
    }

    /// Write `value` as little-endian bytes to the memory at the given offset.
    pub fn write_u16(&mut self, offset: usize, value: u16) -> (r: Result<(), HyperlightError>)
        ensures
            r == spec_bounds(offset as int, 2 as int, old(self)@.len() as int),
            final(self)@ == spec_write(old(self)@, offset as int, le_encode(value as nat, 2 as nat)),
            final(self).spec_base_addr() == old(self).spec_base_addr(),
    {
        proof {
            broadcast use vstd::layout::layout_of_primitives;
        }
        self.write_n(offset, 2, value as u64)
    }

    /// Read a little-endian `i16` from the memory at the given offset.
    pub fn read_i16(&self, offset: usize) -> (r: Result<i16, HyperlightError>)
        ensures
            match spec_read(self@, offset as int, 2 as int) {
                Ok(v) => r == Ok::<i16, HyperlightError>((v as u16) as i16),
                Err(e) => r == Err::<i16, HyperlightError>(e),
            },
    {
        proof {
            broadcast use vstd::layout::layout_of_primitives;
        }
        let v = self.read_n(offset, 2)?;
        Ok((v as u16) as i16)
    }

    /// Write `value` as little-endian bytes to the memory at the given offset.
    pub fn write_i16(&mut self, offset: usize, value: i16) -> (r: Result<(), HyperlightError>)
        ensures
            r == spec_bounds(offset as int, 2 as int, old(self)@.len() as int),
            final(self)@ == spec_write(old(self)@, offset as int, le_encode((value as u16) as nat, 2 as nat)),
            final(self).spec_base_addr() == old(self).spec_base_addr(),
    {
        proof {
            broadcast use vstd::layout::layout_of_primitives;
        }
        self.write_n(offset, 2, (value as u16) as u64)
    }

    /// Read a little-endian `u32` from the memory at the given offset.
    pub fn read_u32(&self, offset: usize) -> (r: Result<u32, HyperlightError>)
        ensures
            match spec_read(self@, offset as int, 4 as int) {
                Ok(v) => r == Ok::<u32, HyperlightError>((v as u32)),
                Err(e) => r == Err::<u32, HyperlightError>(e),
            },
    {
        proof {
            broadcast use vstd::layout::layout_of_primitives;
        }
        let v = self.read_n(offset, 4)?;
        Ok((v as u32))
    }

    /// Write `value` as little-endian bytes to the memory at the given offset.
    pub fn write_u32(&mut self, offset: usize, value: u32) -> (r: Result<(), HyperlightError>)
        ensures
            r == spec_bounds(offset as int, 4 as int, old(self)@.len() as int),
            final(self)@ == spec_write(old(self)@, offset as int, le_encode(value as nat, 4 as nat)),
            final(self).spec_base_addr() == old(self).spec_base_addr(),
    {
        proof {
            broadcast use vstd::layout::layout_of_primitives;
        }
        self.write_n(offset, 4, value as u64)
    }

    /// Read a little-endian `i32` from the memory at the given offset.
    pub fn read_i32(&self, offset: usize) -> (r: Result<i32, HyperlightError>)
        ensures
            match spec_read(self@, offset as int, 4 as int) {
                Ok(v) => r == Ok::<i32, HyperlightError>((v as u32) as i32),
                Err(e) => r == Err::<i32, HyperlightError>(e),
            },
    {
        proof {
            broadcast use vstd::layout::layout_of_primitives;
        }
        let v = self.read_n(offset, 4)?;
        Ok((v as u32) as i32)
    }

    /// Write `value` as little-endian bytes to the memory at the given offset.
    pub fn write_i32(&mut self, offset: usize, value: i32) -> (r: Result<(), HyperlightError>)
        ensures
            r == spec_bounds(offset as int, 4 as int, old(self)@.len() as int),
            final(self)@ == spec_write(old(self)@, offset as int, le_encode((value as u32) as nat, 4 as nat)),
            final(self).spec_base_addr() == old(self).spec_base_addr(),
    {
        proof {
            broadcast use vstd::layout::layout_of_primitives;
        }
        self.write_n(offset, 4, (value as u32) as u64)
    }

    /// Read a little-endian `u64` from the memory at the given offset.
    pub fn read_u64(&self, offset: usize) -> (r: Result<u64, HyperlightError>)
        ensures
            match spec_read(self@, offset as int, 8 as int) {
                Ok(v) => r == Ok::<u64, HyperlightError>((v as u64)),
                Err(e) => r == Err::<u64, HyperlightError>(e),
            },
    {
        proof {
            broadcast use vstd::layout::layout_of_primitives;
        }
        let v = self.read_n(offset, 8)?;
        Ok((v as u64))
    }

    /// Write `value` as little-endian bytes to the memory at the given offset.
    pub fn write_u64(&mut self, offset: usize, value: u64) -> (r: Result<(), HyperlightError>)
        ensures
            r == spec_bounds(offset as int, 8 as int, old(self)@.len() as int),
            final(self)@ == spec_write(old(self)@, offset as int, le_encode(value as nat, 8 as nat)),
            final(self).spec_base_addr() == old(self).spec_base_addr(),
    {
        proof {
            broadcast use vstd::layout::layout_of_primitives;
        }
        self.write_n(offset, 8, value as u64)
    }

    /// Read a little-endian `i64` from the memory at the given offset.
    pub fn read_i64(&self, offset: usize) -> (r: Result<i64, HyperlightError>)
        ensures
            match spec_read(self@, offset as int, 8 as int) {
                Ok(v) => r == Ok::<i64, HyperlightError>((v as u64) as i64),
                Err(e) => r == Err::<i64, HyperlightError>(e),
            },
    {
        proof {
            broadcast use vstd::layout::layout_of_primitives;
        }
        let v = self.read_n(offset, 8)?;
        Ok((v as u64) as i64)
    }

    /// Write `value` as little-endian bytes to the memory at the given offset.
    pub fn write_i64(&mut self, offset: usize, value: i64) -> (r: Result<(), HyperlightError>)
        ensures
            r == spec_bounds(offset as int, 8 as int, old(self)@.len() as int),
            final(self)@ == spec_write(old(self)@, offset as int, le_encode((value as u64) as nat, 8 as nat)),
            final(self).spec_base_addr() == old(self).spec_base_addr(),
    {
        proof {
            broadcast use vstd::layout::layout_of_primitives;
        }
        self.write_n(offset, 8, (value as u64) as u64)
    }

    /// Read a little-endian `usize` from the memory at the given offset.
    pub fn read_usize(&self, offset: usize) -> (r: Result<usize, HyperlightError>)
        ensures
            match spec_read(self@, offset as int, core::mem::size_of::<usize>() as int) {
                Ok(v) => r == Ok::<usize, HyperlightError>((v as usize)),
                Err(e) => r == Err::<usize, HyperlightError>(e),
            },
    {
        proof {
            broadcast use vstd::layout::layout_of_primitives;
        }
        let v = self.read_n(offset, core::mem::size_of::<usize>())?;
        Ok((v as usize))
    }

    /// Write `value` as little-endian bytes to the memory at the given offset.
    pub fn write_usize(&mut self, offset: usize, value: usize) -> (r: Result<(), HyperlightError>)
        ensures
            r == spec_bounds(offset as int, core::mem::size_of::<usize>() as int, old(self)@.len() as int),
            final(self)@ == spec_write(old(self)@, offset as int, le_encode(value as nat, core::mem::size_of::<usize>() as nat)),
            final(self).spec_base_addr() == old(self).spec_base_addr(),
    {
        proof {
            broadcast use vstd::layout::layout_of_primitives;
        }
        self.write_n(offset, core::mem::size_of::<usize>(), value as u64)
    }

    /// Read a little-endian `isize` from the memory at the given offset.
    pub fn read_isize(&self, offset: usize) -> (r: Result<isize, HyperlightError>)
        ensures
            match spec_read(self@, offset as int, core::mem::size_of::<usize>() as int) {
                Ok(v) => r == Ok::<isize, HyperlightError>((v as usize) as isize),
                Err(e) => r == Err::<isize, HyperlightError>(e),
            },
    {
        proof {
            broadcast use vstd::layout::layout_of_primitives;
        }
        let v = self.read_n(offset, core::mem::size_of::<usize>())?;
        Ok((v as usize) as isize)
    }

    /// Write `value` as little-endian bytes to the memory at the given offset.
    pub fn write_isize(&mut self, offset: usize, value: isize) -> (r: Result<(), HyperlightError>)
        ensures
            r == spec_bounds(offset as int, core::mem::size_of::<usize>() as int, old(self)@.len() as int),
            final(self)@ == spec_write(old(self)@, offset as int, le_encode((value as usize) as nat, core::mem::size_of::<usize>() as nat)),
            final(self).spec_base_addr() == old(self).spec_base_addr(),
    {
        proof {
            broadcast use vstd::layout::layout_of_primitives;
        }
        self.write_n(offset, core::mem::size_of::<usize>(), (value as usize) as u64)
    }

    /// Pushes the given data onto the stack buffer of `buffer_size` bytes
    /// that starts at `buffer_start_offset`.
    pub fn push_buffer(&mut self, buffer_start_offset: usize, buffer_size: usize, data: &[u8]) -> (r:
        Result<(), HyperlightError>)
        requires
            buffer_start_offset + 8 <= old(self)@.len(),
            buffer_start_offset + buffer_size <= usize::MAX,
            data@.len() + 8 <= usize::MAX,
        ensures
            (r, final(self)@) == spec_push(
                old(self)@,
                buffer_start_offset as int,
                buffer_size as int,
                data@,
            ),
            final(self).spec_base_addr() == old(self).spec_base_addr(),
    {
        let _mem_len = self.mem_size();
        let sp_u64 = match self.read_u64(buffer_start_offset) {
            Ok(v) => v,
            Err(_) => { return Err(HyperlightError::ArithmeticOverflow); },
        };
        let stack_pointer_rel = #[verifier::truncate] (sp_u64 as usize);
        if stack_pointer_rel > buffer_size || stack_pointer_rel < 8 {
            return Err(HyperlightError::StackPointerOutOfBounds(stack_pointer_rel, buffer_size));
        }
        let size_required = data.len() + 8;
        let size_available = buffer_size - stack_pointer_rel;
        if size_required > size_available {
            return Err(HyperlightError::NotEnoughSpaceInBuffer(size_required, size_available));
        }
        let stack_pointer_abs = stack_pointer_rel + buffer_start_offset;
        let ghost m = self@;
        self.copy_from_slice(data, stack_pointer_abs)?;
        proof {
            lemma_update_bytes_len(m, stack_pointer_abs as int, data@);
            lemma_le_encode_len(stack_pointer_rel as nat, 8);
        }
        self.write_u64(stack_pointer_abs + data.len(), stack_pointer_rel as u64)?;
        proof {
            lemma_update_bytes_len(
                update_bytes(m, stack_pointer_abs as int, data@),
                stack_pointer_abs + data@.len(),
                le_encode(stack_pointer_rel as nat, 8),
            );
        }
        let ghost m2 = self@;
        proof {
            lemma_le_encode_len((stack_pointer_rel + data@.len() + 8) as nat, 8);
        }
        let r = self.write_u64(buffer_start_offset, (stack_pointer_rel + data.len() + 8) as u64);
        proof {
            let sp = word_at(m, buffer_start_offset as int);
            assert(sp == stack_pointer_rel);
            let m1 = update_bytes(m, stack_pointer_abs as int, data@);
            assert(m2 == update_bytes(m1, stack_pointer_abs + data@.len(), le_encode(sp as nat, 8)));
            assert(r is Ok);
            assert(self@ == update_bytes(m2, buffer_start_offset as int, le_encode((sp + data@.len() + 8) as nat, 8)));
        }
        r
    }

    /// Pops the top element off the stack buffer of `buffer_size` bytes that
    /// starts at `buffer_start_offset`, and returns its bytes.
    ///
    /// The element must be a size-prefixed buffer (such as a size-prefixed
    /// flatbuffer): its first four bytes hold the number of bytes that
    /// follow them.
    pub fn try_pop_buffer(&mut self, buffer_start_offset: usize, buffer_size: usize) -> (r: Result<
        Vec<u8>,
        HyperlightError,
    >)
        requires
            buffer_start_offset + buffer_size <= usize::MAX,
            buffer_start_offset + 8 <= usize::MAX,
            !pop_panics(old(self)@, buffer_start_offset as int, buffer_size as int),
        ensures
            match spec_pop(old(self)@, buffer_start_offset as int, buffer_size as int) {
                (Ok(bytes), m) => r matches Ok(v) && v@ == bytes && final(self)@ == m,
                (Err(e), m) => r == Err::<Vec<u8>, HyperlightError>(e) && final(self)@ == m,
            },
            final(self).spec_base_addr() == old(self).spec_base_addr(),
    {
        let ghost m = self@;
        proof {
            use_type_invariant(&*self);
        }
        let _mem_len = self.mem_size();
        let sp_u64 = self.read_u64(buffer_start_offset)?;
        let stack_pointer_rel = #[verifier::truncate] (sp_u64 as usize);
        if stack_pointer_rel > buffer_size || stack_pointer_rel < 16 {
            return Err(HyperlightError::StackPointerOutOfBounds(stack_pointer_rel, buffer_size));
        }
        let last_element_offset_abs = stack_pointer_rel + buffer_start_offset;
        let rel_u64 = match self.read_u64(last_element_offset_abs - 8) {
            Ok(v) => v,
            Err(_) => { return Err(HyperlightError::ArithmeticOverflow); },
        };
        let last_element_offset_rel = #[verifier::truncate] (rel_u64 as usize);
        let last_element_offset_abs = last_element_offset_rel + buffer_start_offset;
        let size_u32 = self.read_u32(last_element_offset_abs)?;
        assert(stack_pointer_rel == word_at(m, buffer_start_offset as int));
        assert(last_element_offset_rel == word_at(m, buffer_start_offset + stack_pointer_rel - 8));
        assert(size_u32 == u32_at(m, last_element_offset_abs as int));
        let fb_buffer_size = (size_u32 + 4) as usize;
        let mut result_buffer = zeroed_vec(fb_buffer_size);
        self.copy_to_slice(result_buffer.as_mut_slice(), last_element_offset_abs)?;
        proof {
            lemma_le_encode_len(last_element_offset_rel as nat, 8);
            lemma_update_bytes_len(m, buffer_start_offset as int, le_encode(last_element_offset_rel as nat, 8));
        }
        self.write_u64(buffer_start_offset, last_element_offset_rel as u64)?;
        let num_bytes_to_zero = stack_pointer_rel - last_element_offset_rel;
        self.fill(0, last_element_offset_abs, num_bytes_to_zero)?;
        Ok(result_buffer)
    }
}

} // verus!
