//! An owned representation of a PE file: just enough of it to relocate it
//! and run it within a sandbox.
use crate::error::HyperlightError;
use crate::mem::le_bytes::{
    le_encode, read_le, update_bytes, apply_writes, encode_le, lemma_update_bytes_len,
};
use crate::mem::pe::base_relocations::{
    base_relocations_of, get_base_relocations, le_at, BaseRelocation, DataDirectoryFields,
};
use crate::mem::pe::section_table::SectionFields;
use crate::error::HyperlightError::PeParseFailed;
use goblin::pe::header::CoffHeader;
use goblin::pe::PE;
use vstd::prelude::*;

verus! {

/// The machine type of x64 PE files.
pub const IMAGE_FILE_MACHINE_AMD64: u16 = 0x8664;
/// The characteristic of a PE file whose relocations were removed.
pub const CHARACTERISTICS_RELOCS_STRIPPED: u16 = 0x0001;
/// The characteristic of a PE file that is an executable image.
pub const CHARACTERISTICS_EXECUTABLE_IMAGE: u16 = 0x0002;
/// The base relocation type that applies the difference to a 64-bit field.
pub const IMAGE_REL_BASED_DIR64: u8 = 10;
/// The base relocation type that is skipped, used to pad a block.
pub const IMAGE_REL_BASED_ABSOLUTE: u8 = 0;

/// The fields of the optional header of a PE file that loading it reads.
#[derive(Debug, Clone, Copy, PartialEq, Eq)]
pub struct OptionalHeaderFields {
    pub address_of_entry_point: u32,
    pub image_base: u64,
    pub size_of_stack_reserve: u64,
    pub size_of_stack_commit: u64,
    pub size_of_heap_reserve: u64,
    pub size_of_heap_commit: u64,
    pub base_relocation_table: Option<DataDirectoryFields>,
}

/// The headers of a PE file that loading it reads, as the parser found them.
pub struct PeHeaders {
    pub machine: u16,
    pub characteristics: u16,
    pub is_64: bool,
    pub optional_header: Option<OptionalHeaderFields>,
    pub sections: Vec<SectionFields>,
}

/// The headers of a PE file, with the sections as a sequence.
pub struct PeHeadersView {
    pub machine: u16,
    pub characteristics: u16,
    pub is_64: bool,
    pub optional_header: Option<OptionalHeaderFields>,
    pub sections: Seq<SectionFields>,
}

impl View for PeHeaders {
    type V = PeHeadersView;

    open spec fn view(&self) -> PeHeadersView {
        PeHeadersView {
            machine: self.machine,
            characteristics: self.characteristics,
            is_64: self.is_64,
            optional_header: self.optional_header,
            sections: self.sections@,
        }
    }
}

/// The headers that `goblin::pe::PE::parse` finds in `bytes`, or `None`
/// where it fails.
pub uninterp spec fn pe_headers_of(bytes: Seq<u8>) -> Option<PeHeadersView>;

/// Parse `pe_bytes` with `goblin::pe::PE::parse` and keep the headers that
/// loading reads. The contract claims that the result is a function of the
/// bytes, named `pe_headers_of`, and that a PE32+ file has an optional
/// header (goblin sets `is_64` only from the optional header's magic).
#[verifier::external_body]
fn parse_pe(pe_bytes: &[u8]) -> (r: Result<PeHeaders, HyperlightError>)
    ensures
        r is Ok <==> pe_headers_of(pe_bytes@) is Some,
        r matches Ok(p) ==> Some(p@) == pe_headers_of(pe_bytes@),
        r matches Err(e) ==> e is PeParseFailed,
        r matches Ok(p) ==> (p@.is_64 ==> p@.optional_header is Some),
{
    let pe = PE::parse(pe_bytes).map_err(|e| PeParseFailed(e.to_string()))?;
    let optional_header = pe.header.optional_header.map(|o| { let w = o.windows_fields; OptionalHeaderFields {
        address_of_entry_point: o.standard_fields.address_of_entry_point, image_base: w.image_base,
        size_of_stack_reserve: w.size_of_stack_reserve, size_of_stack_commit: w.size_of_stack_commit,
        size_of_heap_reserve: w.size_of_heap_reserve, size_of_heap_commit: w.size_of_heap_commit,
        base_relocation_table: o.data_directories.get_base_relocation_table().map(|t| DataDirectoryFields { virtual_address: t.virtual_address, size: t.size }),
    } });
    let sections = pe.sections.iter().map(|s| SectionFields { virtual_address: s.virtual_address, virtual_size: s.virtual_size, pointer_to_raw_data: s.pointer_to_raw_data }).collect();
    let CoffHeader { machine, characteristics, .. } = pe.header.coff_header;
    Ok(PeHeaders { machine, characteristics, is_64: pe.is_64, optional_header, sections })
}

/// The optional header of the PE file with headers `h`, or the reason it
/// cannot be loaded.
pub open spec fn pe_check(h: PeHeadersView) -> Result<OptionalHeaderFields, HyperlightError> {
    if h.machine != IMAGE_FILE_MACHINE_AMD64 {
        Err(HyperlightError::PeNotX64)
    } else if !h.is_64 {
        Err(HyperlightError::PeNotPe32Plus)
    } else if h.characteristics & CHARACTERISTICS_EXECUTABLE_IMAGE != CHARACTERISTICS_EXECUTABLE_IMAGE {
        Err(HyperlightError::PeNotExecutable)
    } else if h.characteristics & CHARACTERISTICS_RELOCS_STRIPPED == CHARACTERISTICS_RELOCS_STRIPPED {
        Err(HyperlightError::PeRelocationsStripped)
    } else {
        Ok(h.optional_header.unwrap())
    }
}

/// A patch that relocates a symbol to its final destination.
#[derive(Debug, Copy, Clone, PartialEq, Eq)]
pub struct RelocationPatch {
    /// The offset of the address to patch.
    pub offset: usize,
    /// The new virtual address that should be written at offset.
    pub relocated_virtual_address: u64,
}

/// What relocation `reloc` asks of `payload` when the image moves by
/// `diff` (modulo 2^64): a patch, nothing, or an error.
pub open spec fn patch_for(payload: Seq<u8>, reloc: BaseRelocation, diff: u64) -> Result<
    Option<RelocationPatch>,
    HyperlightError,
> {
    if reloc.typ == IMAGE_REL_BASED_DIR64 {
        let off = reloc.page_base_rva + reloc.page_offset;
        if off + 8 > payload.len() {
            Err(HyperlightError::RelocationReadFailed(off as u64))
        } else {
            Ok(
                Some(
                    RelocationPatch {
                        offset: off as usize,
                        relocated_virtual_address: vstd::wrapping::u64_specs::wrapping_add(
                            le_at(payload, off, 8) as u64,
                            diff,
                        ),
                    },
                ),
            )
        }
    } else if reloc.typ == IMAGE_REL_BASED_ABSOLUTE {
        Ok(None)
    } else {
        Err(HyperlightError::UnsupportedRelocationType(reloc.typ))
    }
}

/// The patches that the first `n` relocations of `relocs` ask of
/// `payload`, in order, or the first error.
pub open spec fn patches_for(payload: Seq<u8>, relocs: Seq<BaseRelocation>, diff: u64, n: int) -> Result<
    Seq<RelocationPatch>,
    HyperlightError,
>
    decreases n,
{
    if n <= 0 {
        Ok(Seq::empty())
    } else {
        match patches_for(payload, relocs, diff, n - 1) {
            Err(e) => Err(e),
            Ok(ps) => match patch_for(payload, relocs[n - 1], diff) {
                Err(e) => Err(e),
                Ok(None) => Ok(ps),
                Ok(Some(p)) => Ok(ps.push(p)),
            },
        }
    }
}

/// The relocations of type DIR64 among `rs`, in their order.
pub open spec fn dir64_relocations(rs: Seq<BaseRelocation>) -> Seq<BaseRelocation>
    decreases rs.len(),
{
    if rs.len() == 0 {
        Seq::empty()
    } else if rs.last().typ == IMAGE_REL_BASED_DIR64 {
        dir64_relocations(rs.drop_last()).push(rs.last())
    } else {
        dir64_relocations(rs.drop_last())
    }
}

/// Finding the patches for the first `n` relocations of a payload held in
/// memory succeeds exactly when each of them is padding or a DIR64
/// relocation whose 8 bytes lie in the payload. The patches are then exactly the DIR64 relocations, in order:
/// as many as there are, the `k`-th at the page address plus page offset of
/// the `k`-th DIR64 relocation, holding the `u64` found there plus `diff`,
/// wrapping.
pub proof fn lemma_patches_are_dir64_relocations(
    payload: Seq<u8>,
    relocs: Seq<BaseRelocation>,
    diff: u64,
    n: int,
)
    requires
        0 <= n <= relocs.len(),
        payload.len() <= usize::MAX,
    ensures
        patches_for(payload, relocs, diff, n) is Ok <==> forall|i: int|
            0 <= i < n ==> (#[trigger] relocs[i]).typ == IMAGE_REL_BASED_ABSOLUTE || (relocs[i].typ
                == IMAGE_REL_BASED_DIR64 && relocs[i].page_base_rva + relocs[i].page_offset + 8
                <= payload.len()),
        patches_for(payload, relocs, diff, n) matches Ok(ps) ==> {
            let ds = dir64_relocations(relocs.take(n));
            &&& ps.len() == ds.len()
            &&& forall|k: int|
                0 <= k < ps.len() ==> (#[trigger] ps[k]).offset == ds[k].page_base_rva
                    + ds[k].page_offset && ps[k].relocated_virtual_address
                    == vstd::wrapping::u64_specs::wrapping_add(
                    le_at(payload, ds[k].page_base_rva + ds[k].page_offset, 8) as u64,
                    diff,
                )
        },
    decreases n,
{
    if n > 0 {
        lemma_patches_are_dir64_relocations(payload, relocs, diff, n - 1);
        let t = relocs.take(n - 1);
        let x = relocs[n - 1];
        assert(relocs.take(n).drop_last() =~= t);
        assert(relocs.take(n).last() == x);
        assert forall|i: int| 0 <= i < n - 1 implies #[trigger] t[i] == relocs[i] by {}
        if patches_for(payload, relocs, diff, n) is Ok {
            let ps = patches_for(payload, relocs, diff, n)->Ok_0;
            let ps0 = patches_for(payload, relocs, diff, n - 1)->Ok_0;
            let ds = dir64_relocations(relocs.take(n));
            let ds0 = dir64_relocations(t);
            if x.typ == IMAGE_REL_BASED_DIR64 {
                assert(ds == ds0.push(x));
                assert forall|k: int| 0 <= k < ps.len() implies (#[trigger] ps[k]).offset
                    == ds[k].page_base_rva + ds[k].page_offset && ps[k].relocated_virtual_address
                    == vstd::wrapping::u64_specs::wrapping_add(
                    le_at(payload, ds[k].page_base_rva + ds[k].page_offset, 8) as u64,
                    diff,
                ) by {
                    if k < ps0.len() {
                        assert(ps[k] == ps0[k]);
                        assert(ds[k] == ds0[k]);
                    } else {
                        assert(ds[k] == x);
                    }
                }
            } else {
                assert(ds == ds0);
            }
        }
    }
}

/// The patches for loading a payload held in memory at `addr`: none at the
/// preferred address; elsewhere, where the base relocation table can be
/// read, one for each DIR64 relocation of the table, in order, holding the
/// address found at the relocation's place moved by the distance from the
/// preferred address to `addr`.
pub proof fn lemma_relocation_patches_of_table(info: PEInfo, payload: Seq<u8>, addr: usize)
    requires
        payload.len() <= usize::MAX,
    ensures
        addr == info.optional_header_spec().image_base ==> info.relocation_patches_of(payload, addr)
            == Ok::<Seq<RelocationPatch>, HyperlightError>(Seq::empty()),
        addr != info.optional_header_spec().image_base ==> (base_relocations_of(
            payload,
            info.optional_header_spec().base_relocation_table,
            info.sections_spec(),
        ) matches Ok(rs) ==> {
            let diff = vstd::wrapping::u64_specs::wrapping_sub(
                addr as u64,
                info.optional_header_spec().image_base,
            );
            let ds = dir64_relocations(rs);
            &&& info.relocation_patches_of(payload, addr) is Ok <==> forall|i: int|
                0 <= i < rs.len() ==> (#[trigger] rs[i]).typ == IMAGE_REL_BASED_ABSOLUTE || (
                rs[i].typ == IMAGE_REL_BASED_DIR64 && rs[i].page_base_rva + rs[i].page_offset + 8
                <= payload.len())
            &&& info.relocation_patches_of(payload, addr) matches Ok(ps) ==> ps.len() == ds.len()
                && forall|k: int|
                0 <= k < ps.len() ==> (#[trigger] ps[k]).offset == ds[k].page_base_rva
                    + ds[k].page_offset && ps[k].relocated_virtual_address
                    == vstd::wrapping::u64_specs::wrapping_add(
                    le_at(payload, ds[k].page_base_rva + ds[k].page_offset, 8) as u64,
                    diff,
                )
        }),
{
    if addr != info.optional_header_spec().image_base {
        if let Ok(rs) = base_relocations_of(
            payload,
            info.optional_header_spec().base_relocation_table,
            info.sections_spec(),
        ) {
            let diff = vstd::wrapping::u64_specs::wrapping_sub(
                addr as u64,
                info.optional_header_spec().image_base,
            );
            lemma_patches_are_dir64_relocations(payload, rs, diff, rs.len() as int);
            assert(rs.take(rs.len() as int) =~= rs);
        }
    }
}

/// The writes that the patches `ps` make: each the little-endian encoding
/// of its address at its offset.
pub open spec fn patch_writes(ps: Seq<RelocationPatch>) -> Seq<(int, Seq<u8>)> {
    ps.map_values(|p: RelocationPatch| (p.offset as int, le_encode(p.relocated_virtual_address as nat, 8)))
}

/// Whether every one of the first `k` patches lies before the end of a
/// payload of `len` bytes.
pub open spec fn patches_in_payload(ps: Seq<RelocationPatch>, len: int, k: int) -> bool {
    forall|i: int| 0 <= i < k ==> (#[trigger] ps[i]).offset < len
}

/// Once the patches of a prefix of the relocations fail, those of every
/// longer prefix fail the same way.
proof fn lemma_patches_err_propagates(
    payload: Seq<u8>,
    relocs: Seq<BaseRelocation>,
    diff: u64,
    i: int,
    n: int,
)
    requires
        0 <= i <= n,
        patches_for(payload, relocs, diff, i) is Err,
    ensures
        patches_for(payload, relocs, diff, n) == patches_for(payload, relocs, diff, i),
    decreases n - i,
{
    if n > i {
        lemma_patches_err_propagates(payload, relocs, diff, i, n - 1);
    }
}

/// Every patch that the first `n` relocations ask of `payload` fits in it.
proof fn lemma_patches_for_fit(payload: Seq<u8>, relocs: Seq<BaseRelocation>, diff: u64, n: int)
    requires
        patches_for(payload, relocs, diff, n) is Ok,
    ensures
        forall|i: int|
            0 <= i < patches_for(payload, relocs, diff, n)->Ok_0.len() ==> #[trigger] patches_for(
                payload,
                relocs,
                diff,
                n,
            )->Ok_0[i].offset + 8 <= payload.len(),
    decreases n,
{
    if n > 0 {
        lemma_patches_for_fit(payload, relocs, diff, n - 1);
    }
}

/// Every patch that loading a PE file takes fits in its payload.
pub proof fn lemma_patches_fit(payload: Seq<u8>, info: &PEInfo, addr: usize)
    requires
        info.relocation_patches_of(payload, addr) is Ok,
    ensures
        forall|i: int|
            0 <= i < info.relocation_patches_of(payload, addr)->Ok_0.len() ==> #[trigger] info.relocation_patches_of(
                payload,
                addr,
            )->Ok_0[i].offset + 8 <= payload.len(),
{
    if addr != info.optional_header_spec().image_base {
        let diff = vstd::wrapping::u64_specs::wrapping_sub(
            addr as u64,
            info.optional_header_spec().image_base,
        );
        if let Ok(relocs) = base_relocations_of(
            payload,
            info.optional_header_spec().base_relocation_table,
            info.sections_spec(),
        ) {
            lemma_patches_for_fit(payload, relocs, diff, relocs.len() as int);
        }
    }
}

/// An owned representation of a PE file: its bytes and the headers that
/// loading it reads.
pub struct PEInfo {
    payload: Vec<u8>,
    payload_len: usize,
    optional_header: OptionalHeaderFields,
    sections: Vec<SectionFields>,
}

impl PEInfo {
    /// The bytes of the PE file.
    pub closed spec fn payload_spec(&self) -> Seq<u8> {
        self.payload@
    }

    /// The length of the PE file as it was read.
    pub closed spec fn payload_len_spec(&self) -> usize {
        self.payload_len
    }

    /// The optional header of the PE file.
    pub closed spec fn optional_header_spec(&self) -> OptionalHeaderFields {
        self.optional_header
    }

    /// The sections of the PE file.
    pub closed spec fn sections_spec(&self) -> Seq<SectionFields> {
        self.sections@
    }

    /// The patches that loading `payload` at `addr` takes, or the error
    /// that finding them meets.
    pub open spec fn relocation_patches_of(&self, payload: Seq<u8>, addr: usize) -> Result<
        Seq<RelocationPatch>,
        HyperlightError,
    > {
        if addr == self.optional_header_spec().image_base {
            Ok(Seq::empty())
        } else {
            let diff = vstd::wrapping::u64_specs::wrapping_sub(
                addr as u64,
                self.optional_header_spec().image_base,
            );
            match base_relocations_of(
                payload,
                self.optional_header_spec().base_relocation_table,
                self.sections_spec(),
            ) {
                Ok(relocs) => patches_for(payload, relocs, diff, relocs.len() as int),
                Err(e) => Err(e),
            }
        }
    }

    /// Apply the relocations of this PE file to `payload` for loading it at
    /// `addr`: find the patches, then apply them.
    pub fn relocate_payload(&self, payload: &mut [u8], addr: usize) -> (r: Result<(), HyperlightError>)
        ensures
            match self.relocation_patches_of(old(payload)@, addr) {
                Ok(ps) => r is Ok && final(payload)@ == apply_writes(old(payload)@, patch_writes(ps)),
                Err(e) => r == Err::<(), HyperlightError>(e) && final(payload)@ == old(payload)@,
            },
    {
        let patches = self.get_exe_relocation_patches(payload, addr)?;
        proof {
            lemma_patches_fit(old(payload)@, self, addr);
        }
        let _n = Self::apply_relocation_patches(payload, patches)?;
        Ok(())
    }

    /// Create a `PEInfo` from the bytes of a PE file and the headers that
    /// the parser found in them, where the file is an x64 executable image
    /// in the PE32+ format whose relocations were kept.
    pub fn from_headers(pe_bytes: &[u8], headers: PeHeaders) -> (r: Result<Self, HyperlightError>)
        requires
            headers@.is_64 ==> headers@.optional_header is Some,
        ensures
            match pe_check(headers@) {
                Ok(o) => r matches Ok(p) && p.payload_spec() == pe_bytes@ && p.payload_len_spec()
                    == pe_bytes@.len() && p.optional_header_spec() == o && p.sections_spec()
                    == headers@.sections,
                Err(e) => r == Err::<Self, HyperlightError>(e),
            },
    {
        if headers.machine != IMAGE_FILE_MACHINE_AMD64 {
            return Err(HyperlightError::PeNotX64);
        }
        if !headers.is_64 {
            return Err(HyperlightError::PeNotPe32Plus);
        }
        if headers.characteristics & CHARACTERISTICS_EXECUTABLE_IMAGE
            != CHARACTERISTICS_EXECUTABLE_IMAGE {
            return Err(HyperlightError::PeNotExecutable);
        }
        let optional_header = match headers.optional_header {
            Some(o) => o,
            None => {
                return Err(HyperlightError::PeNotPe32Plus);
            },
        };
        if headers.characteristics & CHARACTERISTICS_RELOCS_STRIPPED
            == CHARACTERISTICS_RELOCS_STRIPPED {
            return Err(HyperlightError::PeRelocationsStripped);
        }
        let mut payload: Vec<u8> = Vec::new();
        let mut i: usize = 0;
        while i < pe_bytes.len()
            invariant
                i <= pe_bytes@.len(),
                payload@ == pe_bytes@.subrange(0, i as int),
            decreases pe_bytes@.len() - i,
        {
            payload.push(pe_bytes[i]);
            i = i + 1;
            proof {
                assert(payload@ =~= pe_bytes@.subrange(0, i as int));
            }
        }
        proof {
            assert(payload@ =~= pe_bytes@);
        }
        Ok(Self { payload, payload_len: pe_bytes.len(), optional_header, sections: headers.sections })
    }

    /// Create a new `PEInfo` from a slice of bytes: `Ok` where `pe_bytes`
    /// can be parsed as a PE file and is one that can be loaded, and `Err`
    /// otherwise.
    pub fn new(pe_bytes: &[u8]) -> (r: Result<Self, HyperlightError>)
        ensures
            pe_headers_of(pe_bytes@) is None ==> r matches Err(HyperlightError::PeParseFailed(_)),
            pe_headers_of(pe_bytes@) matches Some(h) ==> match pe_check(h) {
                Ok(o) => r matches Ok(p) && p.payload_spec() == pe_bytes@ && p.payload_len_spec()
                    == pe_bytes@.len() && p.optional_header_spec() == o && p.sections_spec()
                    == h.sections,
                Err(e) => r == Err::<Self, HyperlightError>(e),
            },
    {
        let headers = parse_pe(pe_bytes)?;
        Self::from_headers(pe_bytes, headers)
    }

    /// Apply the patches to `payload`, in order, and return how many were
    /// applied: each writes its address as a little-endian `u64` at its
    /// offset. A patch whose offset lies at or beyond the end of `payload`
    /// is an error; the patches before it stay applied.
    pub fn apply_relocation_patches(payload: &mut [u8], patches: Vec<RelocationPatch>) -> (r: Result<
        usize,
        HyperlightError,
    >)
        requires
            forall|i: int|
                0 <= i < patches@.len() && patches_in_payload(patches@, old(payload)@.len() as int, i)
                    && #[trigger] patches@[i].offset < old(payload)@.len() ==> patches@[i].offset + 8
                    <= old(payload)@.len(),
        ensures
            final(payload)@.len() == old(payload)@.len(),
            r matches Ok(n) ==> n == patches@.len() && patches_in_payload(
                patches@,
                old(payload)@.len() as int,
                n as int,
            ) && final(payload)@ == apply_writes(old(payload)@, patch_writes(patches@)),
            r is Err ==> exists|k: int|
                0 <= k < patches@.len() && patches_in_payload(patches@, old(payload)@.len() as int, k)
                    && #[trigger] patches@[k].offset >= old(payload)@.len() && r
                    == Err::<usize, HyperlightError>(
                    HyperlightError::InvalidRelocationOffset(
                        patches@[k].offset,
                        old(payload)@.len() as usize,
                    ),
                ) && final(payload)@ == apply_writes(
                    old(payload)@,
                    patch_writes(patches@.take(k)),
                ),
    {
        let payload_len = payload.len();
        let mut applied: usize = 0;
        proof {
            assert(patch_writes(patches@.take(0)) =~= Seq::<(int, Seq<u8>)>::empty());
        }
        while applied < patches.len()
            invariant
                applied <= patches@.len(),
                payload_len == old(payload)@.len(),
                payload@.len() == payload_len,
                patches_in_payload(patches@, payload_len as int, applied as int),
                payload@ == apply_writes(old(payload)@, patch_writes(patches@.take(applied as int))),
                forall|i: int|
                    0 <= i < patches@.len() && patches_in_payload(patches@, payload_len as int, i)
                        && #[trigger] patches@[i].offset < payload_len ==> patches@[i].offset + 8
                        <= payload_len,
            decreases patches@.len() - applied,
        {
            let patch = patches[applied];
            if patch.offset >= payload_len {
                return Err(HyperlightError::InvalidRelocationOffset(patch.offset, payload_len));
            }
            let ghost prev = payload@;
            write_u64_le(payload, patch.offset, patch.relocated_virtual_address);
            proof {
                let w = patch_writes(patches@.take(applied + 1));
                assert(patches@.take(applied + 1).drop_last() =~= patches@.take(applied as int));
                assert(w.drop_last() =~= patch_writes(patches@.take(applied as int)));
                assert(w.last() == (patch.offset as int, le_encode(patch.relocated_virtual_address as nat, 8)));
            }
            applied = applied + 1;
        }
        proof {
            assert(patches@.take(applied as int) =~= patches@);
        }
        Ok(applied)
    }

    /// Get the patches to make to `payload` to load it at
    /// `address_to_load_at`: for each base relocation of type `DIR64`, the
    /// 64-bit address at its offset moved by the difference between the
    /// load address and the preferred one (modulo 2^64). There are none where
    /// the two addresses are equal.
    pub fn get_exe_relocation_patches(&self, payload: &[u8], address_to_load_at: usize) -> (r:
        Result<Vec<RelocationPatch>, HyperlightError>)
        ensures
            match self.relocation_patches_of(payload@, address_to_load_at) {
                Ok(ps) => r matches Ok(v) && v@ == ps,
                Err(e) => r == Err::<Vec<RelocationPatch>, HyperlightError>(e),
            },
    {
        let addr_diff = (address_to_load_at as u64).wrapping_sub(self.preferred_load_address());
        proof {
            assert(addr_diff == 0 <==> address_to_load_at == self.optional_header.image_base);
        }
        if addr_diff == 0 {
            return Ok(Vec::new());
        }
        let relocations = match get_base_relocations(
            payload,
            self.optional_header.base_relocation_table,
            self.sections.as_slice(),
        ) {
            Ok(v) => v,
            Err(e) => {
                return Err(e);
            },
        };
        let payload_len = payload.len();
        let mut patches: Vec<RelocationPatch> = Vec::new();
        let mut i: usize = 0;
        while i < relocations.len()
            invariant
                i <= relocations@.len(),
                payload_len == payload@.len(),
                patches_for(payload@, relocations@, addr_diff, i as int) == Ok::<
                    Seq<RelocationPatch>,
                    HyperlightError,
                >(patches@),
                address_to_load_at != self.optional_header_spec().image_base,
                addr_diff == vstd::wrapping::u64_specs::wrapping_sub(
                    address_to_load_at as u64,
                    self.optional_header_spec().image_base,
                ),
                base_relocations_of(
                    payload@,
                    self.optional_header_spec().base_relocation_table,
                    self.sections_spec(),
                ) == Ok::<Seq<BaseRelocation>, HyperlightError>(relocations@),
            decreases relocations@.len() - i,
        {
            let reloc = relocations[i];
            if reloc.typ == IMAGE_REL_BASED_DIR64 {
                let offset: u64 = reloc.page_base_rva as u64 + reloc.page_offset as u64;
                if offset > payload_len as u64 || 8 > payload_len as u64 - offset {
                    proof {
                        lemma_patches_err_propagates(payload@, relocations@, addr_diff, i + 1, relocations@.len() as int);
                    }
                    return Err(HyperlightError::RelocationReadFailed(offset));
                }
                let original_address = read_le(payload, offset as usize, 8);
                let relocated_virtual_address = original_address.wrapping_add(addr_diff);
                patches.push(RelocationPatch { offset: offset as usize, relocated_virtual_address });
            } else if reloc.typ != IMAGE_REL_BASED_ABSOLUTE {
                proof {
                    lemma_patches_err_propagates(payload@, relocations@, addr_diff, i + 1, relocations@.len() as int);
                }
                return Err(HyperlightError::UnsupportedRelocationType(reloc.typ));
            }
            i = i + 1;
        }
        Ok(patches)
    }

    /// Get the bytes of the PE file.
    pub fn get_payload(&self) -> (r: &[u8])
        ensures
            r@ == self.payload_spec(),
    {
        self.payload.as_slice()
    }

    /// Get the bytes of the PE file, to change them.
    pub fn get_payload_mut(&mut self) -> (r: &mut [u8])
        ensures
            r@ == old(self).payload_spec(),
            final(self).payload_spec() == final(r)@,
            final(self).payload_len_spec() == old(self).payload_len_spec(),
            final(self).optional_header_spec() == old(self).optional_header_spec(),
            final(self).sections_spec() == old(self).sections_spec(),
    {
        self.payload.as_mut_slice()
    }

    /// Get the length of the entire PE file payload.
    pub fn get_payload_len(&self) -> (r: usize)
        ensures
            r == self.payload_len_spec(),
    {
        self.payload_len
    }

    /// Get the entry point offset from the PE file's optional header.
    pub fn entry_point_offset(&self) -> (r: u64)
        ensures
            r == self.optional_header_spec().address_of_entry_point,
    {
        self.optional_header.address_of_entry_point as u64
    }

    /// Get the load address specified in the PE file's optional header.
    pub fn preferred_load_address(&self) -> (r: u64)
        ensures
            r == self.optional_header_spec().image_base,
    {
        self.optional_header.image_base
    }

    /// Return the stack reserve field from the optional header.
    pub fn stack_reserve(&self) -> (r: u64)
        ensures
            r == self.optional_header_spec().size_of_stack_reserve,
    {
        self.optional_header.size_of_stack_reserve
    }

    /// Return the stack commit field from the optional header.
    pub fn stack_commit(&self) -> (r: u64)
        ensures
            r == self.optional_header_spec().size_of_stack_commit,
    {
        self.optional_header.size_of_stack_commit
    }

    /// Return the heap reserve field from the optional header.
    pub fn heap_reserve(&self) -> (r: u64)
        ensures
            r == self.optional_header_spec().size_of_heap_reserve,
    {
        self.optional_header.size_of_heap_reserve
    }

    /// Return the heap commit field from the optional header.
    pub fn heap_commit(&self) -> (r: u64)
        ensures
            r == self.optional_header_spec().size_of_heap_commit,
    {
        self.optional_header.size_of_heap_commit
    }
}

/// Write `value` as a little-endian `u64` at `offset` of `payload`.
fn write_u64_le(payload: &mut [u8], offset: usize, value: u64)
    requires
        offset + 8 <= old(payload)@.len(),
    ensures
        final(payload)@ == update_bytes(old(payload)@, offset as int, le_encode(value as nat, 8)),
        final(payload)@.len() == old(payload)@.len(),
{
    let n = payload.len();
    let bytes = encode_le(value, 8);
    let mut i: usize = 0;
    while i < 8
        invariant
            i <= 8,
            bytes@ == le_encode(value as nat, 8),
            bytes@.len() == 8,
            offset + 8 <= payload@.len(),
            payload@.len() == old(payload)@.len(),
            n == payload@.len(),
            forall|j: int|
                0 <= j < payload@.len() ==> #[trigger] payload@[j] == (if offset <= j < offset + i {
                    bytes@[j - offset]
                } else {
                    old(payload)@[j]
                }),
        decreases 8 - i,
    {
        payload[offset + i] = bytes[i];
        i = i + 1;
    }
    assert(payload@ =~= update_bytes(old(payload)@, offset as int, le_encode(value as nat, 8)));
    proof {
        lemma_update_bytes_len(old(payload)@, offset as int, le_encode(value as nat, 8));
    }
}

} // verus!
