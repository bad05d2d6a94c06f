//! An offset into a given address space.
use crate::error::HyperlightError;
use core::cmp::Ordering;
use vstd::prelude::*;

verus! {

/// An offset into a given address space.
///
/// Use this type to distinguish between an offset and a raw pointer.
#[derive(Debug, Clone, Copy, PartialEq, Eq, Structural, PartialOrd, Ord)]
pub struct Offset(u64);

impl View for Offset {
    type V = u64;

    closed spec fn view(&self) -> u64 {
        self.0
    }
}

/// `usize` is at most 64 bits wide, so every `usize` fits in a `u64`.
pub fn usize_to_u64(v: usize) -> (r: u64)
    ensures
        r == v,
{
    v as u64
}

impl Offset {
    /// The offset with value `v`.
    pub closed spec fn spec_from_u64(v: u64) -> Offset {
        Offset(v)
    }

    /// An offset is the one built from its value.
    pub proof fn lemma_from_u64_view(o: Offset)
        ensures
            Self::spec_from_u64(o@) == o,
    {
    }

    /// The offset built from a value has that value.
    pub proof fn lemma_from_u64_view_of(v: u64)
        ensures
            Self::spec_from_u64(v)@ == v,
    {
    }

    /// Get the offset representing `0`.
    pub fn zero() -> (r: Self)
        ensures
            r@ == 0,
    {
        Offset(0)
    }

    /// Create an offset with the given value.
    pub fn new(val: u64) -> (r: Self)
        ensures
            r@ == val,
            r == Self::spec_from_u64(val),
    {
        Offset(val)
    }

    /// The value of this offset.
    pub fn as_u64(&self) -> (r: u64)
        ensures
            r == self@,
    {
        self.0
    }

    /// What `try_from_i64` gives for `val`.
    pub open spec fn try_from_i64_spec(val: i64) -> Result<Offset, HyperlightError> {
        if val < 0 {
            Err(HyperlightError::ArithmeticOverflow)
        } else {
            Ok(Self::spec_from_u64(val as u64))
        }
    }

    /// What `try_to_i64` gives for this offset.
    pub open spec fn try_to_i64_spec(self) -> Result<i64, HyperlightError> {
        if self@ > i64::MAX {
            Err(HyperlightError::ArithmeticOverflow)
        } else {
            Ok(self@ as i64)
        }
    }

    /// What `try_to_usize` gives for this offset.
    pub open spec fn try_to_usize_spec(self) -> Result<usize, HyperlightError> {
        if self@ > usize::MAX {
            Err(HyperlightError::ArithmeticOverflow)
        } else {
            Ok(self@ as usize)
        }
    }

    /// Converting an `i64` into an offset fails exactly for a negative
    /// value; converting the offset of a non-negative value back into an
    /// `i64` gives the value again.
    pub proof fn lemma_i64_round_trip(val: i64)
        ensures
            val < 0 ==> Self::try_from_i64_spec(val) is Err,
            val >= 0 ==> (Self::try_from_i64_spec(val) matches Ok(o) && o.try_to_i64_spec() == Ok::<
                i64,
                HyperlightError,
            >(val)),
    {
    }

    /// Converting a `usize` into an offset and back gives the same value.
    pub proof fn lemma_usize_round_trip(val: usize)
        ensures
            Self::spec_from_u64(val as u64).try_to_usize_spec() == Ok::<usize, HyperlightError>(val),
    {
    }

    /// The zero offset is the least of all offsets and adding it to an
    /// offset leaves that offset, on either side (over the offsets' values).
    pub proof fn lemma_zero_least_and_neutral(zero: Offset, o: Offset)
        requires
            zero@ == 0,
        ensures
            zero@ <= o@,
            o@ + zero@ == o@,
            zero@ + o@ == o@,
            o@ + zero@ <= u64::MAX,
    {
    }

    /// Adding a `usize` or a `u64` to the zero offset gives an offset of
    /// that number, which converts back into the same number.
    pub proof fn lemma_add_to_zero(zero: Offset, usize_val: usize, u64_val: u64)
        requires
            zero@ == 0,
        ensures
            zero@ + usize_val <= u64::MAX,
            zero@ + u64_val <= u64::MAX,
            Self::spec_from_u64((zero@ + usize_val) as u64).try_to_usize_spec() == Ok::<
                usize,
                HyperlightError,
            >(usize_val),
            Self::spec_from_u64((zero@ + u64_val) as u64)@ == u64_val,
    {
    }

    /// Convert a `usize` into an `Offset`. This never fails: a `usize` is
    /// never wider than the 64 bits of an offset.
    pub fn try_from_usize(val: usize) -> (r: Result<Offset, HyperlightError>)
        ensures
            r matches Ok(o) && o@ == val,
            r == Ok::<Offset, HyperlightError>(Self::spec_from_u64(val as u64)),
    {
        Ok(Offset(usize_to_u64(val)))
    }

    /// Convert an `i64` into an `Offset`, which fails exactly when the value
    /// is negative.
    pub fn try_from_i64(val: i64) -> (r: Result<Offset, HyperlightError>)
        ensures
            val >= 0 ==> (r matches Ok(o) && o@ == val),
            val < 0 ==> r == Err::<Offset, HyperlightError>(HyperlightError::ArithmeticOverflow),
            r == Self::try_from_i64_spec(val),
    {
        if val < 0 {
            Err(HyperlightError::ArithmeticOverflow)
        } else {
            Ok(Offset(val as u64))
        }
    }

    /// Convert `self` into an `i64`, which fails exactly when the offset is
    /// bigger than `i64::MAX`.
    pub fn try_to_i64(&self) -> (r: Result<i64, HyperlightError>)
        ensures
            self@ <= i64::MAX ==> (r matches Ok(v) && v == self@),
            self@ > i64::MAX ==> r == Err::<i64, HyperlightError>(
                HyperlightError::ArithmeticOverflow,
            ),
            r == self.try_to_i64_spec(),
    {
        if self.0 > 0x7fff_ffff_ffff_ffffu64 {
            Err(HyperlightError::ArithmeticOverflow)
        } else {
            Ok(self.0 as i64)
        }
    }

    /// Convert `self` into a `usize`, which fails exactly when the offset does
    /// not fit in a `usize` on this platform.
    pub fn try_to_usize(&self) -> (r: Result<usize, HyperlightError>)
        ensures
            self@ <= usize::MAX ==> (r matches Ok(v) && v == self@),
            self@ > usize::MAX ==> r == Err::<usize, HyperlightError>(
                HyperlightError::ArithmeticOverflow,
            ),
            r == self.try_to_usize_spec(),
    {
        if self.0 > usize_to_u64(usize::MAX) {
            Err(HyperlightError::ArithmeticOverflow)
        } else {
            Ok(self.0 as usize)
        }
    }

    /// The sum of two offsets.
    pub fn add_offset(self, rhs: Offset) -> (r: Offset)
        requires
            self@ + rhs@ <= u64::MAX,
        ensures
            r@ == self@ + rhs@,
    {
        Offset(self.0 + rhs.0)
    }

    /// Add a `usize` to an offset.
    pub fn add_usize(self, rhs: usize) -> (r: Offset)
        requires
            self@ + rhs <= u64::MAX,
        ensures
            r@ == self@ + rhs,
    {
        Offset(self.0 + usize_to_u64(rhs))
    }

    /// Add a `u64` to an offset.
    pub fn add_u64(self, rhs: u64) -> (r: Offset)
        requires
            self@ + rhs <= u64::MAX,
        ensures
            r@ == self@ + rhs,
    {
        Offset(self.0 + rhs)
    }

    /// Whether the offset equals the given `usize`.
    pub fn eq_usize(&self, other: usize) -> (r: bool)
        ensures
            r == (self@ == other),
    {
        self.0 == usize_to_u64(other)
    }

    /// Whether the offset equals the given `u64`.
    pub fn eq_u64(&self, other: u64) -> (r: bool)
        ensures
            r == (self@ == other),
    {
        self.0 == other
    }

    /// Compare the offset with a `usize`. The result is `None` exactly when
    /// the offset does not fit in a `usize`.
    pub fn partial_cmp_usize(&self, rhs: usize) -> (r: Option<Ordering>)
        ensures
            self@ > usize::MAX ==> r is None,
            self@ <= usize::MAX ==> r == Some(if self@ > rhs {
                Ordering::Greater
            } else if self@ == rhs {
                Ordering::Equal
            } else {
                Ordering::Less
            }),
    {
        match self.try_to_usize() {
            Ok(v) => {
                if v > rhs {
                    Some(Ordering::Greater)
                } else if v == rhs {
                    Some(Ordering::Equal)
                } else {
                    Some(Ordering::Less)
                }
            },
            Err(_) => None,
        }
    }

    /// Compare the offset with a `u64`.
    pub fn partial_cmp_u64(&self, rhs: u64) -> (r: Option<Ordering>)
        ensures
            r == Some(if self@ > rhs {
                Ordering::Greater
            } else if self@ == rhs {
                Ordering::Equal
            } else {
                Ordering::Less
            }),
    {
        if self.0 > rhs {
            Some(Ordering::Greater)
        } else if self.0 == rhs {
            Some(Ordering::Equal)
        } else {
            Some(Ordering::Less)
        }
    }

    /// Round `self` up to the next multiple of `alignment`.
    pub fn round_up_to(self, alignment: u64) -> (r: Offset)
        requires
            alignment > 0,
            self@ + alignment <= u64::MAX,
        ensures
            r@ == round_up(self@ as int, alignment as int),
    {
        let rem = self.0 % alignment;
        proof {
            vstd::arithmetic::div_mod::lemma_mod_decreases(self.0 as nat, alignment as nat);
            vstd::arithmetic::div_mod::lemma_mod_pos_bound(self.0 as int, alignment as int);
        }
        if rem == 0 {
            self
        } else {
            Offset(self.0 - rem + alignment)
        }
    }
}

/// `addr` rounded up to the next multiple of `alignment`.
pub open spec fn round_up(addr: int, alignment: int) -> int
    recommends
        alignment > 0,
{
    if addr % alignment == 0 {
        addr
    } else {
        addr - addr % alignment + alignment
    }
}

impl Default for Offset {
    fn default() -> (r: Self)
        ensures
            r@ == 0,
    {
        Offset(0)
    }
}

impl From<u64> for Offset {
    fn from(val: u64) -> Offset {
        Offset(val)
    }
}

impl vstd::std_specs::convert::FromSpecImpl<u64> for Offset {
    open spec fn obeys_from_spec() -> bool {
        true
    }

    closed spec fn from_spec(v: u64) -> Offset {
        Offset(v)
    }
}

impl From<Offset> for u64 {
    fn from(val: Offset) -> u64 {
        val.0
    }
}

impl vstd::std_specs::convert::FromSpecImpl<Offset> for u64 {
    open spec fn obeys_from_spec() -> bool {
        true
    }

    closed spec fn from_spec(v: Offset) -> u64 {
        v.0
    }
}

} // verus!
