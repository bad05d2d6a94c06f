//! The guest's physical memory as the host holds it, read and written by
//! offset.
use crate::error::HyperlightError;
use crate::mem::le_bytes::{
    encode_le, le_decode, le_encode, lemma_decode_encode, lemma_le_encode_len,
    lemma_update_bytes_len, pow256, read_bytes_into, read_le, update_bytes, write_bytes, zeros,
};
use crate::mem::shared_mem::{host_address_of, try_zeroed_vec};
use vstd::prelude::*;

verus! {

/// The outcome of checking that the range of `n` bytes at `offset` lies in
/// memory of `size` bytes: first the start, then the end.
pub open spec fn spec_range_check(offset: int, n: int, size: int) -> Result<(), HyperlightError> {
    if offset > size {
        Err(HyperlightError::OffsetOutOfBounds(offset as u64, size as u64))
    } else if n > size - offset {
        Err(HyperlightError::BoundsCheckFailed(offset as usize, n as usize, size as usize))
    } else {
        Ok(())
    }
}

/// The outcome of reading `n` little-endian bytes at `offset` of `m`.
pub open spec fn spec_guest_read(m: Seq<u8>, offset: int, n: int) -> Result<nat, HyperlightError> {
    match spec_range_check(offset, n, m.len() as int) {
        Ok(_) => Ok(le_decode(m.subrange(offset, offset + n))),
        Err(e) => Err(e),
    }
}

/// The memory after writing `bytes` at `offset` of `m`: unchanged where the
/// range does not fit.
pub open spec fn spec_guest_write(m: Seq<u8>, offset: int, bytes: Seq<u8>) -> Seq<u8> {
    if 0 <= offset && offset + bytes.len() <= m.len() {
        update_bytes(m, offset, bytes)
    } else {
        m
    }
}

/// Reading `n` bytes where a value of `n` bytes was just written gives the
/// value back.
pub proof fn lemma_guest_read_after_write(m: Seq<u8>, offset: int, n: nat, v: nat)
    requires
        0 <= offset,
        offset + n <= m.len(),
        v < pow256(n),
    ensures
        spec_guest_read(spec_guest_write(m, offset, le_encode(v, n)), offset, n as int) == Ok::<
            nat,
            HyperlightError,
        >(v),
{
    lemma_decode_encode(v, n);
    lemma_update_bytes_len(m, offset, le_encode(v, n));
}

/// A write leaves every read of bytes outside the written range unchanged.
pub proof fn lemma_guest_write_preserves_other_reads(
    m: Seq<u8>,
    offset: int,
    bytes: Seq<u8>,
    other: int,
    n: int,
)
    requires
        0 <= offset,
        0 <= other,
        0 <= n,
        other + n <= offset || offset + bytes.len() <= other,
    ensures
        spec_guest_read(spec_guest_write(m, offset, bytes), other, n) == spec_guest_read(
            m,
            other,
            n,
        ),
{
    if offset + bytes.len() <= m.len() {
        lemma_update_bytes_len(m, offset, bytes);
        if other + n <= m.len() {
            assert(spec_guest_write(m, offset, bytes).subrange(other, other + n) =~= m.subrange(
                other,
                other + n,
            ));
        }
    }
}

/// A representation of the guest's physical memory, often referred to as
/// Guest Physical Memory or Guest Physical Addresses (GPA).
pub struct GuestMemory {
    data: Vec<u8>,
    base: usize,
}

impl View for GuestMemory {
    type V = Seq<u8>;

    closed spec fn view(&self) -> Seq<u8> {
        self.data@
    }
}

impl GuestMemory {
    #[verifier::type_invariant]
    spec fn inv(self) -> bool {
        self.base + self.data@.len() <= usize::MAX
    }

    /// The host address of the first byte.
    pub closed spec fn spec_base_addr(&self) -> usize {
        self.base
    }

    /// Create a new region of guest memory with the given minimum size in
    /// bytes, initialised to zero.
    ///
    /// Returns `Err` if guest memory could not be allocated: always for a
    /// size of zero or of more than `isize::MAX` bytes.
    pub fn new(min_size_bytes: usize) -> (r: Result<GuestMemory, HyperlightError>)
        ensures
            min_size_bytes == 0 || min_size_bytes > isize::MAX ==> r == Err::<GuestMemory, _>(
                HyperlightError::MemoryAllocationFailed,
            ),
            r matches Ok(m) ==> m@ == zeros(min_size_bytes as nat),
            r matches Err(e) ==> e == HyperlightError::MemoryAllocationFailed,
    {
        if min_size_bytes == 0 {
            return Err(HyperlightError::MemoryAllocationFailed);
        }
        match try_zeroed_vec(min_size_bytes) {
            Some(data) => {
                let base = host_address_of(&data);
                Ok(GuestMemory { data, base })
            },
            None => Err(HyperlightError::MemoryAllocationFailed),
        }
    }

    /// Get the base address of guest memory as a `usize`.
    pub fn base_addr(&self) -> (r: usize)
        ensures
            r == self.spec_base_addr(),
            r + self@.len() <= usize::MAX,
    {
        proof {
            use_type_invariant(self);
        }
        self.base
    }

    /// Return the length of the memory contained in `self`.
    pub fn mem_size(&self) -> (r: usize)
        ensures
            r == self@.len(),
    {
        self.data.len()
    }

    /// Move the contents out of `self`, leaving it empty for the moment.
    fn take_data(&mut self) -> (r: Vec<u8>)
        ensures
            r@ == old(self)@,
            final(self).spec_base_addr() == old(self).spec_base_addr(),
            old(self).spec_base_addr() + r@.len() <= usize::MAX,
    {
        proof {
            use_type_invariant(&*self);
        }
        let mut data: Vec<u8> = Vec::new();
        std::mem::swap(&mut data, &mut self.data);
        data
    }

    /// Put contents back into `self` after `take_data`.
    fn restore_data(&mut self, data: Vec<u8>)
        requires
            old(self).spec_base_addr() + data@.len() <= usize::MAX,
        ensures
            final(self)@ == data@,
            final(self).spec_base_addr() == old(self).spec_base_addr(),
    {
        let mut data = data;
        std::mem::swap(&mut data, &mut self.data);
    }

    fn check_range(&self, offset: usize, n: usize) -> (r: Result<(), HyperlightError>)
        ensures
            r == spec_range_check(offset as int, n as int, self@.len() as int),
    {
        let size = self.data.len();
        if offset > size {
            Err(HyperlightError::OffsetOutOfBounds(offset as u64, size as u64))
        } else if n > size - offset {
            Err(HyperlightError::BoundsCheckFailed(offset, n, size))
        } else {
            Ok(())
        }
    }

    /// Check the range of `n` bytes at a 64-bit `offset`.
    fn check_range_u64(&self, offset: u64, n: usize) -> (r: Result<usize, HyperlightError>)
        ensures
            match spec_range_check(offset as int, n as int, self@.len() as int) {
                Ok(_) => r matches Ok(o) && o == offset,
                Err(e) => r == Err::<usize, HyperlightError>(e),
            },
    {
        let size = self.data.len();
        if offset > size as u64 {
            return Err(HyperlightError::OffsetOutOfBounds(offset, size as u64));
        }
        let off = offset as usize;
        self.check_range(off, n)?;
        Ok(off)
    }

    /// If all memory locations within the range
    /// `[offset, offset + from_bytes.len())` are valid, copy all bytes from
    /// `from_bytes` in order to `self` and return `Ok`. Otherwise, return
    /// `Err`.
    pub fn copy_from_slice(&mut self, from_bytes: &[u8], offset: usize) -> (r: Result<
        (),
        HyperlightError,
    >)
        ensures
            r == spec_range_check(offset as int, from_bytes@.len() as int, old(self)@.len() as int),
            final(self)@ == spec_guest_write(old(self)@, offset as int, from_bytes@),
            final(self).spec_base_addr() == old(self).spec_base_addr(),
    {
        self.check_range(offset, from_bytes.len())?;
        let mut data = self.take_data();
        write_bytes(&mut data, offset, from_bytes);
        proof {
            lemma_update_bytes_len(old(self)@, offset as int, from_bytes@);
        }
        self.restore_data(data);
        Ok(())
    }

    /// Copy the first `len` bytes of `slc` (all of it, where it is shorter)
    /// into `self` at `offset`, if they fit.
    pub fn copy_from_slice_subset(&mut self, slc: &[u8], len: usize, offset: usize) -> (r: Result<
        (),
        HyperlightError,
    >)
        ensures
            ({
                let num = if len > slc@.len() {
                    slc@.len() as int
                } else {
                    len as int
                };
                &&& r == spec_range_check(offset as int, num, old(self)@.len() as int)
                &&& final(self)@ == spec_guest_write(
                    old(self)@,
                    offset as int,
                    slc@.subrange(0, num),
                )
            }),
            final(self).spec_base_addr() == old(self).spec_base_addr(),
    {
        let num_bytes = if len > slc.len() {
            slc.len()
        } else {
            len
        };
        self.check_range(offset, num_bytes)?;
        let mut data = self.take_data();
        write_bytes(&mut data, offset, &slc[0..num_bytes]);
        proof {
            lemma_update_bytes_len(old(self)@, offset as int, slc@.subrange(0, num_bytes as int));
        }
        self.restore_data(data);
        Ok(())
    }

    /// Copy all of `self` in the range `[offset, offset + slc.len())` into
    /// `slc` and return `Ok`. If the range is invalid, return `Err`.
    pub fn copy_to_slice(&self, slc: &mut [u8], offset: usize) -> (r: Result<(), HyperlightError>)
        ensures
            r == spec_range_check(offset as int, old(slc)@.len() as int, self@.len() as int),
            r is Ok ==> final(slc)@ == self@.subrange(offset as int, offset + old(slc)@.len()),
            r is Err ==> final(slc)@ == old(slc)@,
    {
        self.check_range(offset, slc.len())?;
        read_bytes_into(&self.data, offset, slc);
        Ok(())
    }

    /// Copy the entire contents of `self` into a `Vec<u8>`, then return it.
    pub fn copy_all_to_vec(&self) -> (r: Result<Vec<u8>, HyperlightError>)
        ensures
            r matches Ok(v) && v@ == self@,
    {
        let mut out: Vec<u8> = Vec::new();
        let mut i: usize = 0;
        let n = self.data.len();
        while i < n
            invariant
                n == self@.len(),
                i <= n,
                out@ == self@.subrange(0, i as int),
            decreases n - i,
        {
            out.push(self.data[i]);
            i = i + 1;
            assert(out@ =~= self@.subrange(0, i as int));
        }
        assert(self@.subrange(0, n as int) =~= self@);
        Ok(out)
    }

    /// Return the address of memory at an offset to this `GuestMemory`,
    /// checking that the offset is within the bounds of the memory.
    pub fn calculate_address(&self, offset: usize) -> (r: Result<usize, HyperlightError>)
        ensures
            offset <= self@.len() ==> r == Ok::<usize, HyperlightError>(
                (self.spec_base_addr() + offset) as usize,
            ),
            offset > self@.len() ==> r == Err::<usize, _>(
                HyperlightError::OffsetOutOfBounds(offset as u64, self@.len() as u64),
            ),
    {
        proof {
            use_type_invariant(self);
        }
        let size = self.data.len();
        if offset > size {
            return Err(HyperlightError::OffsetOutOfBounds(offset as u64, size as u64));
        }
        Ok(self.base + offset)
    }

    /// Read an `i64` from guest memory starting at `offset`.
    ///
    /// Return `Ok` with the little-endian `i64` value in the range
    /// `[offset, offset + 8)` if that range lies in memory, and `Err`
    /// otherwise.
    pub fn read_i64(&self, offset: u64) -> (r: Result<i64, HyperlightError>)
        ensures
            match spec_guest_read(self@, offset as int, 8) {
                Ok(v) => r == Ok::<i64, HyperlightError>((v as u64) as i64),
                Err(e) => r == Err::<i64, HyperlightError>(e),
            },
    {
        let off = self.check_range_u64(offset, 8)?;
        let v = read_le(self.data.as_slice(), off, 8);
        Ok(v as i64)
    }

    /// Write `val` into guest memory at the given offset from the start of
    /// guest memory, as little-endian bytes.
    pub fn write_u64(&mut self, offset: usize, val: u64) -> (r: Result<(), HyperlightError>)
        ensures
            r == spec_range_check(offset as int, 8, old(self)@.len() as int),
            final(self)@ == spec_guest_write(old(self)@, offset as int, le_encode(val as nat, 8)),
            final(self).spec_base_addr() == old(self).spec_base_addr(),
    {
        self.write_le(offset, 8, val)
    }

    /// Read an `i32` from guest memory starting at `offset`.
    ///
    /// Return `Ok` with the little-endian `i32` value in the range
    /// `[offset, offset + 4)` if that range lies in memory, and `Err`
    /// otherwise.
    pub fn read_i32(&self, offset: u64) -> (r: Result<i32, HyperlightError>)
        ensures
            match spec_guest_read(self@, offset as int, 4) {
                Ok(v) => r == Ok::<i32, HyperlightError>((v as u32) as i32),
                Err(e) => r == Err::<i32, HyperlightError>(e),
            },
    {
        let off = self.check_range_u64(offset, 4)?;
        let v = read_le(self.data.as_slice(), off, 4);
        Ok((v as u32) as i32)
    }

    /// Read a `u8` (a byte) from guest memory at `offset`.
    ///
    /// Returns `Err` where `offset` lies beyond the end of memory, or at
    /// its very end, where no byte is left to read.
    pub fn read_u8(&self, offset: u64) -> (r: Result<u8, HyperlightError>)
        ensures
            offset > self@.len() ==> r == Err::<u8, _>(
                HyperlightError::OffsetOutOfBounds(offset, self@.len() as u64),
            ),
            offset == self@.len() ==> r == Err::<u8, _>(
                HyperlightError::UnexpectedEndOfMemory(offset),
            ),
            offset < self@.len() ==> r == Ok::<u8, HyperlightError>(self@[offset as int]),
    {
        let size = self.data.len();
        if offset > size as u64 {
            return Err(HyperlightError::OffsetOutOfBounds(offset, size as u64));
        }
        if offset == size as u64 {
            return Err(HyperlightError::UnexpectedEndOfMemory(offset));
        }
        Ok(self.data[offset as usize])
    }

    /// Write `val` to memory as little-endian bytes at `offset`.
    ///
    /// If `Ok` is returned, `self` will have been modified in place.
    /// Otherwise, no modifications will have been made.
    pub fn write_i32(&mut self, offset: usize, val: i32) -> (r: Result<(), HyperlightError>)
        ensures
            r == spec_range_check(offset as int, 4, old(self)@.len() as int),
            final(self)@ == spec_guest_write(
                old(self)@,
                offset as int,
                le_encode((val as u32) as nat, 4),
            ),
            final(self).spec_base_addr() == old(self).spec_base_addr(),
    {
        self.write_le(offset, 4, (val as u32) as u64)
    }

    fn write_le(&mut self, offset: usize, n: usize, value: u64) -> (r: Result<(), HyperlightError>)
        ensures
            r == spec_range_check(offset as int, n as int, old(self)@.len() as int),
            final(self)@ == spec_guest_write(old(self)@, offset as int, le_encode(value as nat, n as nat)),
            final(self).spec_base_addr() == old(self).spec_base_addr(),
    {
        proof {
            lemma_le_encode_len(value as nat, n as nat);
        }
        self.check_range(offset, n)?;
        let bytes = encode_le(value, n);
        let mut data = self.take_data();
        write_bytes(&mut data, offset, bytes.as_slice());
        proof {
            lemma_update_bytes_len(old(self)@, offset as int, bytes@);
        }
        self.restore_data(data);
        Ok(())
    }
}

} // verus!
