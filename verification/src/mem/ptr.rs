//! Pointers into an address space, kept as an offset from its base.
use crate::error::HyperlightError;
use crate::mem::ptr_addr_space::{AddressSpace, GuestAddressSpace, HostAddressSpace};
use crate::mem::ptr_offset::Offset;
use crate::mem::shared_mem::SharedMemory;
use vstd::prelude::*;

verus! {

/// A representation of a raw pointer inside a given address space.
///
/// Use this type to distinguish between an offset and a raw pointer.
#[derive(Debug, Clone, Eq, PartialEq)]
pub struct RawPtr(u64);

impl View for RawPtr {
    type V = u64;

    closed spec fn view(&self) -> u64 {
        self.0
    }
}

impl From<u64> for RawPtr {
    fn from(val: u64) -> (r: Self) {
        Self(val)
    }
}

impl vstd::std_specs::convert::FromSpecImpl<u64> for RawPtr {
    open spec fn obeys_from_spec() -> bool {
        true
    }

    closed spec fn from_spec(v: u64) -> Self {
        RawPtr(v)
    }
}

impl From<RawPtr> for u64 {
    fn from(val: RawPtr) -> (r: u64) {
        val.0
    }
}

impl vstd::std_specs::convert::FromSpecImpl<RawPtr> for u64 {
    open spec fn obeys_from_spec() -> bool {
        true
    }

    closed spec fn from_spec(v: RawPtr) -> u64 {
        v.0
    }
}

/// The absolute address of offset `off` in an address space based at
/// `base`, or `None` where it does not fit in a `u64`.
pub open spec fn absolute_of(base: u64, off: u64) -> Option<u64> {
    if base + off <= u64::MAX {
        Some((base + off) as u64)
    } else {
        None
    }
}

impl RawPtr {
    /// The raw pointer with value `val`.
    pub fn new(val: u64) -> (r: Self)
        ensures
            r@ == val,
    {
        Self(val)
    }

    /// The value of this raw pointer.
    pub fn as_u64(&self) -> (r: u64)
        ensures
            r == self@,
    {
        self.0
    }

    /// Convert a `usize` into a raw pointer; every `usize` fits.
    pub fn try_from_usize(val: usize) -> (r: Result<RawPtr, HyperlightError>)
        ensures
            r matches Ok(p) && p@ == val,
    {
        Ok(Self(val as u64))
    }

    /// Convert this raw pointer into a `usize`, or fail where it does not fit.
    pub fn try_to_usize(&self) -> (r: Result<usize, HyperlightError>)
        ensures
            self@ <= usize::MAX ==> r == Ok::<usize, HyperlightError>(self@ as usize),
            self@ > usize::MAX ==> r == Err::<usize, HyperlightError>(
                HyperlightError::ArithmeticOverflow,
            ),
    {
        if self.0 <= usize::MAX as u64 {
            Ok(self.0 as usize)
        } else {
            Err(HyperlightError::ArithmeticOverflow)
        }
    }

    /// The raw pointer `rhs` bytes past this one.
    pub fn add_offset(self, rhs: Offset) -> (r: RawPtr)
        requires
            self@ + rhs@ <= u64::MAX,
        ensures
            r@ == self@ + rhs@,
    {
        let val = self.0 + rhs.as_u64();
        RawPtr(val)
    }
}

/// A pointer into a specific `AddressSpace` `T`.
#[derive(Debug, Copy, Clone, Eq, PartialEq)]
pub struct Ptr<T: AddressSpace> {
    addr_space: T,
    offset: Offset,
}

/// Convenience type for representing a pointer into the host address space.
pub type HostPtr = Ptr<HostAddressSpace>;

/// Convenience type for representing a pointer into the guest address space.
pub type GuestPtr = Ptr<GuestAddressSpace>;

/// The pointer at the offset of `p` in the address space `tgt`.
pub open spec fn foreign<S: AddressSpace, T: AddressSpace>(p: Ptr<S>, tgt: T) -> Ptr<T> {
    Ptr::spec_new(tgt, p.off())
}

impl<T: AddressSpace> Ptr<T> {
    /// The address space of this pointer.
    pub closed spec fn space(&self) -> T {
        self.addr_space
    }

    /// The offset of this pointer into its address space.
    pub closed spec fn off(&self) -> u64 {
        self.offset@
    }

    /// The pointer at offset `off` in `addr_space`.
    pub closed spec fn spec_new(addr_space: T, off: u64) -> Ptr<T> {
        Ptr { addr_space, offset: Offset::spec_from_u64(off) }
    }

    /// Create a new pointer in the given `AddressSpace` `addr_space`
    /// from the given pointer `raw`. Returns `Ok` if subtracting
    /// the base address from `raw` succeeds (i.e. does not overflow)
    /// and a `Ptr<T>` can be successfully created.
    fn from_raw_ptr(addr_space: T, raw: RawPtr) -> (r: Result<Ptr<T>, HyperlightError>)
        ensures
            raw@ >= addr_space.spec_base() ==> r == Ok::<Ptr<T>, HyperlightError>(
                Self::spec_new(addr_space, (raw@ - addr_space.spec_base()) as u64),
            ),
            raw@ < addr_space.spec_base() ==> r == Err::<Ptr<T>, HyperlightError>(
                HyperlightError::PointerBelowBase(raw@, addr_space.spec_base()),
            ),
    {
        let base = addr_space.base();
        match raw.0.checked_sub(base) {
            Some(offset) => Ok(Self { addr_space, offset: Offset::new(offset) }),
            None => Err(HyperlightError::PointerBelowBase(raw.0, base)),
        }
    }

    /// Create a new `Ptr` into the given `addr_space` from the given
    /// `offset`.
    pub fn from_offset(addr_space: T, offset: Offset) -> (r: Ptr<T>)
        ensures
            r == Self::spec_new(addr_space, offset@),
    {
        proof {
            Offset::lemma_from_u64_view(offset);
        }
        Self { addr_space, offset }
    }

    /// Create a new `Ptr<Tgt>` from a source pointer and a target
    /// address space.
    fn from_foreign_ptr<Src: AddressSpace, Tgt: AddressSpace>(
        foreign_ptr: &Ptr<Src>,
        target_addr_space: Tgt,
    ) -> (r: Result<Ptr<Tgt>, HyperlightError>)
        ensures
            r == Ok::<Ptr<Tgt>, HyperlightError>(foreign(*foreign_ptr, target_addr_space)),
    {
        let offset = foreign_ptr.offset();
        proof {
            Offset::lemma_from_u64_view(offset);
        }
        let tgt = Ptr { addr_space: target_addr_space, offset };
        Ok(tgt)
    }

    /// Convert `self` into a new `Ptr` with a different address space.
    pub fn to_foreign_ptr<Tgt: AddressSpace>(&self, target_addr_space: Tgt) -> (r: Result<
        Ptr<Tgt>,
        HyperlightError,
    >)
        ensures
            r == Ok::<Ptr<Tgt>, HyperlightError>(foreign(*self, target_addr_space)),
    {
        Self::from_foreign_ptr(self, target_addr_space)
    }

    /// Get the base address for this pointer.
    fn base(&self) -> (r: u64)
        ensures
            r == self.space().spec_base(),
    {
        self.addr_space.base()
    }

    /// Get the offset into the pointer's address space.
    pub fn offset(&self) -> (r: Offset)
        ensures
            r@ == self.off(),
    {
        self.offset
    }

    /// Get the absolute value for the pointer represented by `self`, or an
    /// error where the base address plus the offset overflows.
    pub fn absolute(&self) -> (r: Result<u64, HyperlightError>)
        ensures
            absolute_of(self.space().spec_base(), self.off()) matches Some(a) ==> r == Ok::<
                u64,
                HyperlightError,
            >(a),
            absolute_of(self.space().spec_base(), self.off()) is None ==> r == Err::<
                u64,
                HyperlightError,
            >(HyperlightError::ArithmeticOverflow),
    {
        let offset_u64 = self.offset.as_u64();
        match self.base().checked_add(offset_u64) {
            Some(a) => Ok(a),
            None => Err(HyperlightError::ArithmeticOverflow),
        }
    }

    /// The pointer `rhs` bytes past this one, in the same address space.
    pub fn add(self, rhs: Offset) -> (r: Ptr<T>)
        requires
            self.off() + rhs@ <= u64::MAX,
        ensures
            r == Self::spec_new(self.space(), (self.off() + rhs@) as u64),
    {
        let offset = self.offset.add_offset(rhs);
        proof {
            Offset::lemma_from_u64_view(offset);
        }
        Self { addr_space: self.addr_space, offset }
    }

    /// The absolute value of this pointer as a `usize`, or an error where it
    /// overflows or does not fit.
    pub fn to_usize(&self) -> (r: Result<usize, HyperlightError>)
        ensures
            r == (match absolute_of(self.space().spec_base(), self.off()) {
                Some(a) => if a <= usize::MAX {
                    Ok::<usize, HyperlightError>(a as usize)
                } else {
                    Err(HyperlightError::ArithmeticOverflow)
                },
                None => Err(HyperlightError::ArithmeticOverflow),
            }),
    {
        let abs = self.absolute()?;
        if abs <= usize::MAX as u64 {
            Ok(abs as usize)
        } else {
            Err(HyperlightError::ArithmeticOverflow)
        }
    }

    /// The pointer that `spec_new` builds has the given address space and offset.
    pub proof fn lemma_spec_new(addr_space: T, off: u64)
        ensures
            Self::spec_new(addr_space, off).space() == addr_space,
            Self::spec_new(addr_space, off).off() == off,
    {
        Offset::lemma_from_u64_view_of(off);
    }

    /// Converting a pointer to another address space and back to its own
    /// gives back the same pointer.
    pub proof fn lemma_foreign_round_trip<Tgt: AddressSpace>(p: Ptr<T>, tgt: Tgt)
        ensures
            foreign(foreign(p, tgt), p.space()) == p,
            foreign(p, tgt).off() == p.off(),
            foreign(p, tgt).space() == tgt,
    {
        Offset::lemma_from_u64_view_of(p.offset@);
        Offset::lemma_from_u64_view(p.offset);
        Ptr::<Tgt>::lemma_spec_new(tgt, p.off());
    }
}

/// A pointer made from a raw address lying at or above the base of its
/// address space has that raw address as its absolute value.
pub proof fn lemma_absolute_of_raw(base: u64, raw: u64)
    requires
        raw >= base,
    ensures
        absolute_of(base, (raw - base) as u64) == Some(raw),
{
}

impl Ptr<HostAddressSpace> {
    /// Create a new `HostPtr` from the given `host_raw_ptr`, which must
    /// be a pointer in the host's address space.
    pub fn try_from_raw_ptr_and_mem(host_raw_ptr: RawPtr, shared_mem: &SharedMemory) -> (r: Result<
        HostPtr,
        HyperlightError,
    >)
        ensures
            host_raw_ptr@ >= shared_mem.spec_base_addr() ==> (r matches Ok(p) && p.space().spec_base()
                == shared_mem.spec_base_addr() && p.off() == host_raw_ptr@
                - shared_mem.spec_base_addr()),
            host_raw_ptr@ < shared_mem.spec_base_addr() ==> r == Err::<HostPtr, HyperlightError>(
                HyperlightError::PointerBelowBase(host_raw_ptr@, shared_mem.spec_base_addr() as u64),
            ),
    {
        let addr_space = HostAddressSpace::new(shared_mem)?;
        let r = HostPtr::from_raw_ptr(addr_space, host_raw_ptr);
        proof {
            if host_raw_ptr@ >= shared_mem.spec_base_addr() {
                Self::lemma_spec_new(addr_space, (host_raw_ptr@ - shared_mem.spec_base_addr()) as u64);
            }
        }
        r
    }

    /// Create a new `HostPtr` at `offset` of the host address space that
    /// starts at the base of `shared_mem`.
    pub fn try_from_offset_and_mem(offset: Offset, shared_mem: &SharedMemory) -> (r: Result<
        HostPtr,
        HyperlightError,
    >)
        ensures
            r matches Ok(p) && p.space().spec_base() == shared_mem.spec_base_addr() && p.off()
                == offset@,
    {
        let addr_space = HostAddressSpace::new(shared_mem)?;
        proof {
            Self::lemma_spec_new(addr_space, offset@);
        }
        Ok(Self::from_offset(addr_space, offset))
    }
}

impl Ptr<GuestAddressSpace> {
    /// Create a new `GuestPtr` from the given `guest_raw_ptr`, which must
    /// be a pointer in the guest's address space.
    pub fn try_from_raw_ptr(guest_raw_ptr: RawPtr) -> (r: Result<GuestPtr, HyperlightError>)
        ensures
            guest_raw_ptr@ >= crate::mem::layout::SandboxMemoryLayout::BASE_ADDRESS ==> (r matches Ok(
                p,
            ) && p.space().spec_base() == crate::mem::layout::SandboxMemoryLayout::BASE_ADDRESS
                && p.off() == guest_raw_ptr@ - crate::mem::layout::SandboxMemoryLayout::BASE_ADDRESS),
            guest_raw_ptr@ < crate::mem::layout::SandboxMemoryLayout::BASE_ADDRESS ==> r == Err::<
                GuestPtr,
                HyperlightError,
            >(
                HyperlightError::PointerBelowBase(
                    guest_raw_ptr@,
                    crate::mem::layout::SandboxMemoryLayout::BASE_ADDRESS as u64,
                ),
            ),
    {
        let addr_space = GuestAddressSpace::new()?;
        let r = GuestPtr::from_raw_ptr(addr_space, guest_raw_ptr);
        proof {
            if guest_raw_ptr@ >= crate::mem::layout::SandboxMemoryLayout::BASE_ADDRESS {
                Self::lemma_spec_new(
                    addr_space,
                    (guest_raw_ptr@ - crate::mem::layout::SandboxMemoryLayout::BASE_ADDRESS) as u64,
                );
            }
        }
        r
    }

    /// Create a new `GuestPtr` at `offset` of the guest address space.
    pub fn try_from_offset(offset: Offset) -> (r: Result<GuestPtr, HyperlightError>)
        ensures
            r matches Ok(p) && p.space().spec_base()
                == crate::mem::layout::SandboxMemoryLayout::BASE_ADDRESS && p.off() == offset@,
    {
        let addr_space = GuestAddressSpace::new()?;
        proof {
            Self::lemma_spec_new(addr_space, offset@);
        }
        Ok(Self::from_offset(addr_space, offset))
    }
}

} // verus!
