//! An executable that a sandbox can load: a PE file.
use crate::error::HyperlightError;
use crate::mem::le_bytes::apply_writes;
use crate::mem::pe::pe_info::{patch_writes, pe_check, pe_headers_of, PEInfo};
use crate::mem::ptr_offset::Offset;
use vstd::prelude::*;

verus! {

/// An executable that a sandbox can load.
pub enum ExeInfo {
    /// A PE file.
    PE(PEInfo),
}

impl ExeInfo {
    /// Read an executable from its bytes.
    pub fn from_buf(buf: &[u8]) -> (r: Result<Self, HyperlightError>)
        ensures
            pe_headers_of(buf@) is None ==> r matches Err(HyperlightError::PeParseFailed(_)),
            pe_headers_of(buf@) matches Some(h) ==> match pe_check(h) {
                Ok(o) => r matches Ok(ExeInfo::PE(p)) && p.payload_spec() == buf@
                    && p.optional_header_spec() == o && p.sections_spec() == h.sections,
                Err(e) => r == Err::<Self, HyperlightError>(e),
            },
    {
        match PEInfo::new(buf) {
            Ok(pe) => Ok(ExeInfo::PE(pe)),
            Err(e) => Err(e),
        }
    }

    /// The stack size that the executable reserves.
    pub fn stack_reserve(&self) -> (r: u64)
        ensures
            match self {
                ExeInfo::PE(pe) => r == pe.optional_header_spec().size_of_stack_reserve,
            },
    {
        match self {
            ExeInfo::PE(pe) => pe.stack_reserve(),
        }
    }

    /// The heap size that the executable reserves.
    pub fn heap_reserve(&self) -> (r: u64)
        ensures
            match self {
                ExeInfo::PE(pe) => r == pe.optional_header_spec().size_of_heap_reserve,
            },
    {
        match self {
            ExeInfo::PE(pe) => pe.heap_reserve(),
        }
    }

    /// The offset of the executable's entry point.
    pub fn entrypoint(&self) -> (r: Offset)
        ensures
            match self {
                ExeInfo::PE(pe) => r@ == pe.optional_header_spec().address_of_entry_point,
            },
    {
        match self {
            ExeInfo::PE(pe) => Offset::new(pe.entry_point_offset()),
        }
    }

    /// The number of bytes that loading the executable takes.
    pub fn loaded_size(&self) -> (r: usize)
        ensures
            match self {
                ExeInfo::PE(pe) => r == pe.payload_spec().len(),
            },
    {
        match self {
            ExeInfo::PE(pe) => pe.get_payload().len(),
        }
    }

    /// Relocate the executable for `load_addr` and copy it to the start of
    /// `target`.
    pub fn load(&mut self, load_addr: usize, target: &mut [u8]) -> (r: Result<(), HyperlightError>)
        requires
            match *old(self) {
                ExeInfo::PE(pe) => pe.payload_spec().len() <= old(target)@.len(),
            },
        ensures
            final(target)@.len() == old(target)@.len(),
            match (*old(self), *final(self)) {
                (ExeInfo::PE(pe), ExeInfo::PE(pe2)) => match pe.relocation_patches_of(
                    pe.payload_spec(),
                    load_addr,
                ) {
                    Ok(ps) => r is Ok && pe2.payload_spec() == apply_writes(
                        pe.payload_spec(),
                        patch_writes(ps),
                    ) && final(target)@.subrange(0, pe2.payload_spec().len() as int)
                        == pe2.payload_spec() && final(target)@.subrange(
                        pe2.payload_spec().len() as int,
                        old(target)@.len() as int,
                    ) == old(target)@.subrange(
                        pe2.payload_spec().len() as int,
                        old(target)@.len() as int,
                    ),
                    Err(e) => r == Err::<(), HyperlightError>(e),
                },
            },
    {
        match self {
            ExeInfo::PE(pe) => {
                let patches = pe.get_exe_relocation_patches(pe.get_payload(), load_addr)?;
                proof {
                    crate::mem::pe::pe_info::lemma_patches_fit(pe.payload_spec(), pe, load_addr);
                }
                let _applied = PEInfo::apply_relocation_patches(pe.get_payload_mut(), patches)?;
                let payload = pe.get_payload();
                let n = payload.len();
                let mut i: usize = 0;
                while i < n
                    invariant
                        i <= n,
                        n == payload@.len(),
                        n <= target@.len(),
                        target@.len() == old(target)@.len(),
                        forall|j: int| 0 <= j < i ==> target@[j] == payload@[j],
                        forall|j: int| n <= j < target@.len() ==> target@[j] == old(target)@[j],
                    decreases n - i,
                {
                    target[i] = payload[i];
                    i = i + 1;
                }
                proof {
                    assert(target@.subrange(0, n as int) =~= payload@);
                    assert(target@.subrange(n as int, target@.len() as int) =~= old(target)@.subrange(
                        n as int,
                        old(target)@.len() as int,
                    ));
                }
                Ok(())
            },
        }
    }
}

} // verus!
