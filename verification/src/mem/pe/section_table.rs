//! The sections of a PE file, and where a relative virtual address lies in
//! the file.
use vstd::prelude::*;

verus! {

/// The fields of a section header of a PE file that loading it reads.
#[derive(Debug, Clone, Copy, PartialEq, Eq)]
pub struct SectionFields {
    /// The address of the section in memory, relative to the image base.
    pub virtual_address: u32,
    /// The size of the section in memory.
    pub virtual_size: u32,
    /// The offset of the section's data in the file.
    pub pointer_to_raw_data: u32,
}

/// Whether section `s` holds relative virtual address `rva` in its memory
/// range, from its start up to but not including its end.
pub open spec fn section_holds(s: SectionFields, rva: u64) -> bool {
    s.virtual_address <= rva && rva < s.virtual_address + s.virtual_size
}

/// The file offset of `rva` according to the first of the sections `ss`
/// from index `i` on that holds it.
pub open spec fn offset_from_rva_from(ss: Seq<SectionFields>, rva: u64, i: int) -> Option<u64>
    decreases ss.len() - i,
{
    if i < 0 || i >= ss.len() {
        None
    } else if section_holds(ss[i], rva) {
        Some((rva - ss[i].virtual_address + ss[i].pointer_to_raw_data) as u64)
    } else {
        offset_from_rva_from(ss, rva, i + 1)
    }
}

/// Determine the offset of a value from its relative virtual address
/// (RVA): look up the section that contains the RVA, and apply the
/// difference between the section's virtual address and the RVA to the
/// section's raw address.
pub fn calculate_offset_from_rva(sections: &[SectionFields], rva: u64) -> (r: Option<u64>)
    ensures
        r == offset_from_rva_from(sections@, rva, 0),
{
    let mut i: usize = 0;
    while i < sections.len()
        invariant
            i <= sections@.len(),
            offset_from_rva_from(sections@, rva, 0) == offset_from_rva_from(sections@, rva, i as int),
        decreases sections@.len() - i,
    {
        let s = sections[i];
        let section_rva = s.virtual_address as u64;
        if section_rva <= rva && rva < section_rva + (s.virtual_size as u64) {
            let raw_offset = s.pointer_to_raw_data as u64;
            let offset = rva - section_rva + raw_offset;
            return Some(offset);
        }
        i = i + 1;
    }
    None
}

/// The file offset of a relative virtual address comes from the first
/// section whose memory range, from its start up to but not including its
/// end, holds it, whatever that section's place in the table: the address
/// less the section's start plus the section's file offset. Where no section
/// holds the address, there is none.
pub proof fn lemma_offset_from_first_holding_section(ss: Seq<SectionFields>, rva: u64)
    ensures
        forall|i: int|
            #![trigger ss[i]]
            0 <= i < ss.len() && ss[i].virtual_address <= rva < ss[i].virtual_address
                + ss[i].virtual_size && (forall|j: int|
                #![trigger ss[j]]
                0 <= j < i ==> !(ss[j].virtual_address <= rva < ss[j].virtual_address
                    + ss[j].virtual_size)) ==> offset_from_rva_from(ss, rva, 0) == Some(
                (rva - ss[i].virtual_address + ss[i].pointer_to_raw_data) as u64,
            ),
        (forall|j: int|
            #![trigger ss[j]]
            0 <= j < ss.len() ==> !(ss[j].virtual_address <= rva < ss[j].virtual_address
                + ss[j].virtual_size)) ==> offset_from_rva_from(ss, rva, 0) is None,
{
    assert forall|i: int|
        #![trigger ss[i]]
        0 <= i < ss.len() && ss[i].virtual_address <= rva < ss[i].virtual_address
            + ss[i].virtual_size && (forall|j: int|
            #![trigger ss[j]]
            0 <= j < i ==> !(ss[j].virtual_address <= rva < ss[j].virtual_address
                + ss[j].virtual_size)) implies offset_from_rva_from(ss, rva, 0) == Some(
        (rva - ss[i].virtual_address + ss[i].pointer_to_raw_data) as u64,
    ) by {
        lemma_offset_skips_to(ss, rva, 0, i);
    }
    if forall|j: int|
        #![trigger ss[j]]
        0 <= j < ss.len() ==> !(ss[j].virtual_address <= rva < ss[j].virtual_address
            + ss[j].virtual_size) {
        lemma_offset_skips_to(ss, rva, 0, ss.len() as int);
    }
}

/// No section from `k` up to `i` holds `rva`, so the lookup from `k` is the
/// lookup from `i`.
proof fn lemma_offset_skips_to(ss: Seq<SectionFields>, rva: u64, k: int, i: int)
    requires
        0 <= k <= i <= ss.len(),
        forall|j: int|
            #![trigger ss[j]]
            k <= j < i ==> !(ss[j].virtual_address <= rva < ss[j].virtual_address
                + ss[j].virtual_size),
    ensures
        offset_from_rva_from(ss, rva, k) == offset_from_rva_from(ss, rva, i),
    decreases i - k,
{
    if k < i {
        lemma_offset_skips_to(ss, rva, k + 1, i);
    }
}

} // verus!
