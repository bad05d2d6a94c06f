//! The base relocation table of a PE file: blocks of relocations, each block
//! a page's relative virtual address and size followed by two-byte entries
//! of a type (the high four bits) and an offset in the page (the low twelve).
use crate::error::HyperlightError;
use crate::mem::le_bytes::{le_decode, lemma_le_decode_bound, lemma_pow256_values, read_le};
use crate::mem::pe::section_table::SectionFields;
use vstd::prelude::*;

verus! {

/// A data directory of a PE file: where a table lies in memory, relative
/// to the image base, and its size.
#[derive(Debug, Clone, Copy, PartialEq, Eq)]
pub struct DataDirectoryFields {
    pub virtual_address: u32,
    pub size: u32,
}

/// One base relocation: the page it applies to, the offset in the page and
/// its type.
#[derive(Debug, Clone, Copy, PartialEq, Eq)]
pub struct BaseRelocation {
    pub page_base_rva: u32,
    pub page_offset: u16,
    pub typ: u8,
}

/// The little-endian value of the `n` bytes at `i` of `d`.
pub open spec fn le_at(d: Seq<u8>, i: int, n: int) -> int {
    le_decode(d.subrange(i, i + n)) as int
}

/// The relocation that the entry at `i` of `d` describes in the page at
/// `rva`.
pub open spec fn entry_at(d: Seq<u8>, i: int, rva: u32) -> BaseRelocation {
    BaseRelocation {
        page_base_rva: rva,
        page_offset: (le_at(d, i, 2) % 4096) as u16,
        typ: (le_at(d, i, 2) / 4096) as u8,
    }
}

/// The `count` relocations of the entries starting at `pos` of `d`, in the
/// page at `rva`.
pub open spec fn block_entries(d: Seq<u8>, pos: int, count: nat, rva: u32) -> Seq<BaseRelocation> {
    Seq::new(count, |k: int| entry_at(d, pos + 2 * k, rva))
}

/// The relocations of the blocks of `d` from `pos` to `end`, or `None`
/// where a block is cut short or says it is shorter than its header.
pub open spec fn parse_blocks(d: Seq<u8>, pos: int, end: int) -> Option<Seq<BaseRelocation>>
    decreases end - pos,
{
    if pos >= end {
        Some(Seq::empty())
    } else if pos + 8 > end {
        None
    } else {
        let size = le_at(d, pos + 4, 4);
        if size < 8 || pos + size > end {
            None
        } else {
            match parse_blocks(d, pos + size, end) {
                Some(rest) => Some(
                    block_entries(d, pos + 8, ((size - 8) / 2) as nat, le_at(d, pos, 4) as u32)
                        + rest,
                ),
                None => None,
            }
        }
    }
}

/// A single block that spans `[pos, pos + size)`, where `size` is the size
/// its header records (at least its 8-byte header), holds `(size - 8) / 2`
/// relocations, in the order of its two-byte entries: each for the page
/// whose address the header records, with the entry's low twelve bits as
/// the offset in the page and its high four bits as the type.
pub proof fn lemma_single_block(d: Seq<u8>, pos: int)
    requires
        le_at(d, pos + 4, 4) >= 8,
    ensures
        ({
            let size = le_at(d, pos + 4, 4);
            parse_blocks(d, pos, pos + size) matches Some(s) && s.len() == (size - 8) / 2
                && forall|k: int|
                0 <= k < s.len() ==> #[trigger] s[k] == BaseRelocation {
                    page_base_rva: le_at(d, pos, 4) as u32,
                    page_offset: (le_at(d, pos + 8 + 2 * k, 2) % 4096) as u16,
                    typ: (le_at(d, pos + 8 + 2 * k, 2) / 4096) as u8,
                }
        }),
{
    let size = le_at(d, pos + 4, 4);
    let e = block_entries(d, pos + 8, ((size - 8) / 2) as nat, le_at(d, pos, 4) as u32);
    assert(parse_blocks(d, pos + size, pos + size) == Some(Seq::<BaseRelocation>::empty()));
    assert(e + Seq::<BaseRelocation>::empty() =~= e);
}

/// The relocations of a table are those of its first part followed by
/// those of the rest: where the blocks from `pos` end exactly at `mid`,
/// parsing on to `end` gives the relocations up to `mid` followed by those
/// of the blocks from `mid` to `end`, and fails exactly where those fail.
/// With `lemma_single_block`, the relocations of well-formed blocks are the
/// concatenation, block by block in order, of each block's entries.
pub proof fn lemma_blocks_concatenate(d: Seq<u8>, pos: int, mid: int, end: int)
    requires
        pos <= mid <= end,
        parse_blocks(d, pos, mid) is Some,
    ensures
        parse_blocks(d, pos, end) == match parse_blocks(d, mid, end) {
            Some(b) => Some(parse_blocks(d, pos, mid)->Some_0 + b),
            None => None::<Seq<BaseRelocation>>,
        },
    decreases mid - pos,
{
    if pos >= mid {
        match parse_blocks(d, mid, end) {
            Some(b) => assert(Seq::<BaseRelocation>::empty() + b =~= b),
            None => {},
        }
    } else {
        let size = le_at(d, pos + 4, 4);
        lemma_blocks_concatenate(d, pos + size, mid, end);
        let e = block_entries(d, pos + 8, ((size - 8) / 2) as nat, le_at(d, pos, 4) as u32);
        match parse_blocks(d, mid, end) {
            Some(b) => {
                let a = parse_blocks(d, pos + size, mid)->Some_0;
                assert(e + (a + b) =~= (e + a) + b);
            },
            None => {},
        }
    }
}

/// The file offset of relative virtual address `rva` according to the first
/// of the sections `ss` from index `i` on whose memory range holds it.
pub open spec fn file_offset_from(ss: Seq<SectionFields>, rva: u32, i: int) -> Option<int>
    decreases ss.len() - i,
{
    if i < 0 || i >= ss.len() {
        None
    } else if ss[i].virtual_address <= rva < ss[i].virtual_address + ss[i].virtual_size {
        Some(rva - ss[i].virtual_address + ss[i].pointer_to_raw_data)
    } else {
        file_offset_from(ss, rva, i + 1)
    }
}

/// The file offset of a relative virtual address comes from the first
/// section whose memory range holds it, whatever that section's place: the
/// address less the section's start plus the section's file offset. Where
/// no section holds the address, there is none.
pub proof fn lemma_file_offset_from_first_holding_section(ss: Seq<SectionFields>, rva: u32)
    ensures
        forall|i: int|
            #![trigger ss[i]]
            0 <= i < ss.len() && ss[i].virtual_address <= rva < ss[i].virtual_address
                + ss[i].virtual_size && (forall|j: int|
                #![trigger ss[j]]
                0 <= j < i ==> !(ss[j].virtual_address <= rva < ss[j].virtual_address
                    + ss[j].virtual_size)) ==> file_offset_from(ss, rva, 0) == Some(
                rva - ss[i].virtual_address + ss[i].pointer_to_raw_data,
            ),
        (forall|j: int|
            #![trigger ss[j]]
            0 <= j < ss.len() ==> !(ss[j].virtual_address <= rva < ss[j].virtual_address
                + ss[j].virtual_size)) ==> file_offset_from(ss, rva, 0) is None,
{
    assert forall|i: int|
        #![trigger ss[i]]
        0 <= i < ss.len() && ss[i].virtual_address <= rva < ss[i].virtual_address
            + ss[i].virtual_size && (forall|j: int|
            #![trigger ss[j]]
            0 <= j < i ==> !(ss[j].virtual_address <= rva < ss[j].virtual_address
                + ss[j].virtual_size)) implies file_offset_from(ss, rva, 0) == Some(
        rva - ss[i].virtual_address + ss[i].pointer_to_raw_data,
    ) by {
        lemma_file_offset_skips_to(ss, rva, 0, i);
    }
    if forall|j: int|
        #![trigger ss[j]]
        0 <= j < ss.len() ==> !(ss[j].virtual_address <= rva < ss[j].virtual_address
            + ss[j].virtual_size) {
        lemma_file_offset_skips_to(ss, rva, 0, ss.len() as int);
    }
}

/// No section from `k` up to `i` holds `rva`, so the lookup from `k` is the
/// lookup from `i`.
proof fn lemma_file_offset_skips_to(ss: Seq<SectionFields>, rva: u32, k: int, i: int)
    requires
        0 <= k <= i <= ss.len(),
        forall|j: int|
            #![trigger ss[j]]
            k <= j < i ==> !(ss[j].virtual_address <= rva < ss[j].virtual_address
                + ss[j].virtual_size),
    ensures
        file_offset_from(ss, rva, k) == file_offset_from(ss, rva, i),
    decreases i - k,
{
    if k < i {
        lemma_file_offset_skips_to(ss, rva, k + 1, i);
    }
}

/// The base relocations of the PE file `d`, whose base relocation table is
/// `table` and whose sections are `ss`.
pub open spec fn base_relocations_of(
    d: Seq<u8>,
    table: Option<DataDirectoryFields>,
    ss: Seq<SectionFields>,
) -> Result<Seq<BaseRelocation>, HyperlightError> {
    match table {
        None => Ok(Seq::empty()),
        Some(t) => if t.size == 0 {
            Ok(Seq::empty())
        } else {
            match file_offset_from(ss, t.virtual_address, 0) {
                None => Err(HyperlightError::RelocationTableNotInSection(t.virtual_address)),
                Some(off) => if off + t.size > d.len() {
                    Err(HyperlightError::MalformedBaseRelocations)
                } else {
                    match parse_blocks(d, off, off + t.size) {
                        Some(s) => Ok(s),
                        None => Err(HyperlightError::MalformedBaseRelocations),
                    }
                },
            }
        },
    }
}

/// `acc` followed by the relocations of `rest`, where there are any.
pub open spec fn prepend(acc: Seq<BaseRelocation>, rest: Option<Seq<BaseRelocation>>) -> Option<
    Seq<BaseRelocation>,
> {
    match rest {
        Some(r) => Some(acc + r),
        None => None,
    }
}

/// Find the file offset of relative virtual address `rva` in the sections.
fn file_offset_of_rva(sections: &[SectionFields], rva: u32) -> (r: Option<u64>)
    ensures
        match file_offset_from(sections@, rva, 0) {
            Some(o) => r == Some(o as u64) && 0 <= o <= u64::MAX,
            None => r is None,
        },
{
    let mut i: usize = 0;
    while i < sections.len()
        invariant
            i <= sections@.len(),
            file_offset_from(sections@, rva, 0) == file_offset_from(sections@, rva, i as int),
        decreases sections@.len() - i,
    {
        let s = sections[i];
        if s.virtual_address <= rva && (rva as u64) < (s.virtual_address as u64) + (s.virtual_size as u64) {
            return Some((rva - s.virtual_address) as u64 + s.pointer_to_raw_data as u64);
        }
        i = i + 1;
    }
    None
}

/// Parse the base relocation table of the PE file `payload`, whose table
/// is `table` and whose sections are `sections`. No table, or an empty
/// one, has no relocations.
pub fn get_base_relocations(
    payload: &[u8],
    table: Option<DataDirectoryFields>,
    sections: &[SectionFields],
) -> (r: Result<Vec<BaseRelocation>, HyperlightError>)
    ensures
        match base_relocations_of(payload@, table, sections@) {
            Ok(s) => r matches Ok(v) && v@ == s,
            Err(e) => r == Err::<Vec<BaseRelocation>, HyperlightError>(e),
        },
{
    let len = payload.len();
    let t = match table {
        None => {
            return Ok(Vec::new());
        },
        Some(t) => t,
    };
    if t.size == 0 {
        return Ok(Vec::new());
    }
    let start = match file_offset_of_rva(sections, t.virtual_address) {
        None => {
            return Err(HyperlightError::RelocationTableNotInSection(t.virtual_address));
        },
        Some(o) => o,
    };
    if start > len as u64 || (t.size as u64) > len as u64 - start {
        return Err(HyperlightError::MalformedBaseRelocations);
    }
    let start = start as usize;
    let end = start + t.size as usize;
    match parse_block_range(payload, start, end) {
        Some(v) => Ok(v),
        None => Err(HyperlightError::MalformedBaseRelocations),
    }
}

/// Parse the blocks of `d` from `start` to `end`.
fn parse_block_range(d: &[u8], start: usize, end: usize) -> (r: Option<Vec<BaseRelocation>>)
    requires
        start <= end <= d@.len(),
    ensures
        match parse_blocks(d@, start as int, end as int) {
            Some(s) => r matches Some(v) && v@ == s,
            None => r is None,
        },
{
    let mut acc: Vec<BaseRelocation> = Vec::new();
    let mut pos = start;
    proof {
        match parse_blocks(d@, start as int, end as int) {
            Some(s) => assert(acc@ + s =~= s),
            None => {},
        }
    }
    while pos < end
        invariant
            start <= pos <= end <= d@.len(),
            parse_blocks(d@, start as int, end as int) == prepend(acc@, parse_blocks(d@, pos as int, end as int)),
        decreases end - pos,
    {
        if end - pos < 8 {
            return None;
        }
        let rva = read_le(d, pos, 4);
        let size_u64 = read_le(d, pos + 4, 4);
        proof {
            lemma_pow256_values();
            lemma_le_decode_bound(d@.subrange(pos + 4, pos + 8));
            lemma_le_decode_bound(d@.subrange(pos as int, pos + 4));
        }
        if size_u64 < 8 || size_u64 > (end - pos) as u64 {
            return None;
        }
        let size = size_u64 as usize;
        let count = (size - 8) / 2;
        let ghost acc0 = acc@;
        let ghost rva32 = rva as u32;
        let mut k: usize = 0;
        while k < count
            invariant
                k <= count,
                count == (size - 8) / 2,
                pos + size <= end <= d@.len(),
                rva32 == rva as u32,
                acc@ == acc0 + block_entries(d@, pos + 8, k as nat, rva32),
            decreases count - k,
        {
            let e = read_le(d, pos + 8 + 2 * k, 2);
            proof {
                lemma_pow256_values();
                lemma_le_decode_bound(d@.subrange(pos + 8 + 2 * k, pos + 8 + 2 * k + 2));
            }
            let reloc = BaseRelocation {
                page_base_rva: rva as u32,
                page_offset: (e % 4096) as u16,
                typ: (e / 4096) as u8,
            };
            acc.push(reloc);
            k = k + 1;
            proof {
                assert(acc@ =~= acc0 + block_entries(d@, pos + 8, k as nat, rva32));
            }
        }
        let ghost old_pos = pos;
        pos = pos + size;
        proof {
            let e = block_entries(d@, old_pos + 8, count as nat, rva32);
            match parse_blocks(d@, pos as int, end as int) {
                Some(rest) => {
                    assert(acc0 + (e + rest) =~= (acc0 + e) + rest);
                },
                None => {},
            }
        }
    }
    proof {
        assert(acc@ + Seq::<BaseRelocation>::empty() =~= acc@);
    }
    Some(acc)
}

} // verus!
