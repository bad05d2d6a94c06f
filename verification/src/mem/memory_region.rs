//! The regions of guest memory, each with its permissions, and a builder
//! that lays them out one after another.
use crate::error::HyperlightError;
use crate::mem::layout::PAGE_SIZE_USIZE;
use crate::mem::ptr_offset::round_up;
use core::ops::Range;
use vstd::prelude::*;

verus! {

/// The bit of the flag that allows the guest to read.
pub const READ_BIT: u32 = 1;
/// The bit of the flag that allows the guest to write.
pub const WRITE_BIT: u32 = 2;
/// The bit of the flag that allows the guest to execute.
pub const EXECUTE_BIT: u32 = 4;

/// The mapping permission of the Microsoft hypervisor for a readable range.
pub const HV_MAP_GPA_READABLE: u32 = 1;
/// The mapping permission of the Microsoft hypervisor for a writable range.
pub const HV_MAP_GPA_WRITABLE: u32 = 2;
/// The mapping permission of the Microsoft hypervisor for an executable range.
pub const HV_MAP_GPA_EXECUTABLE: u32 = 12;
/// The flag of a memory region of the Microsoft hypervisor's user memory
/// interface that the guest may write.
pub const MSHV_MEM_WRITABLE: u8 = 1;
/// The flag of a memory region of the Microsoft hypervisor's user memory
/// interface that the guest may execute.
pub const MSHV_MEM_EXECUTABLE: u8 = 2;
/// The number of bits of a page number within an address.
pub const PAGE_SHIFT: u64 = 12;

/// Flags representing memory permission for a memory region: a set of
/// `READ`, `WRITE` and `EXECUTE`.
#[derive(Copy, Clone, Debug, PartialEq, Eq)]
pub struct MemoryRegionFlags {
    bits: u32,
}

impl View for MemoryRegionFlags {
    type V = u32;

    closed spec fn view(&self) -> u32 {
        self.bits
    }
}

/// The flag bits of `f` include those of `g`.
pub open spec fn flags_contain(f: u32, g: u32) -> bool {
    f & g == g
}

impl MemoryRegionFlags {
    #[verifier::type_invariant]
    spec fn inv(self) -> bool {
        self.bits <= 7
    }

    /// No permissions.
    pub fn none() -> (r: Self)
        ensures
            r@ == 0,
    {
        Self { bits: 0 }
    }

    /// The flags that allow the guest to read, and nothing else.
    pub closed spec fn read_spec() -> Self {
        Self { bits: READ_BIT }
    }

    /// The flags that allow the guest to write, and nothing else.
    pub closed spec fn write_spec() -> Self {
        Self { bits: WRITE_BIT }
    }

    /// The flags that allow the guest to execute, and nothing else.
    pub closed spec fn execute_spec() -> Self {
        Self { bits: EXECUTE_BIT }
    }

    /// The flags of a memory access of type `access_type` as the Microsoft
    /// hypervisor reports it: a read, a write, or otherwise an execution.
    pub open spec fn access_type_spec(access_type: u8) -> Self {
        if access_type == 0 {
            Self::read_spec()
        } else if access_type == 1 {
            Self::write_spec()
        } else {
            Self::execute_spec()
        }
    }

    /// Allow the guest to read.
    pub fn read() -> (r: Self)
        ensures
            r@ == READ_BIT,
            r == Self::read_spec(),
    {
        Self { bits: READ_BIT }
    }

    /// Allow the guest to write.
    pub fn write() -> (r: Self)
        ensures
            r@ == WRITE_BIT,
            r == Self::write_spec(),
    {
        Self { bits: WRITE_BIT }
    }

    /// Allow the guest to execute.
    pub fn execute() -> (r: Self)
        ensures
            r@ == EXECUTE_BIT,
            r == Self::execute_spec(),
    {
        Self { bits: EXECUTE_BIT }
    }

    /// The raw bits of these flags.
    pub fn bits(&self) -> (r: u32)
        ensures
            r == self@,
            r <= 7,
    {
        proof {
            use_type_invariant(self);
        }
        self.bits
    }

    /// The flags of both `self` and `other`.
    pub fn union(self, other: Self) -> (r: Self)
        ensures
            r@ == self@ | other@,
    {
        proof {
            use_type_invariant(&self);
            use_type_invariant(&other);
            let (a, b) = (self.bits, other.bits);
            assert(a <= 7 && b <= 7 ==> a | b <= 7) by (bit_vector);
        }
        Self { bits: self.bits | other.bits }
    }

    /// Whether `self` holds every flag of `other`.
    pub fn contains(&self, other: Self) -> (r: bool)
        ensures
            r == flags_contain(self@, other@),
    {
        self.bits & other.bits == other.bits
    }

    /// Whether `self` holds no flag.
    pub fn is_empty(&self) -> (r: bool)
        ensures
            r == (self@ == 0),
    {
        self.bits == 0
    }

    /// The flags of a memory access of the given type as the Microsoft
    /// hypervisor reports it: `0` for a read, `1` for a write, `2` for an
    /// execution; any other type is an error.
    pub fn try_from_access_type(access_type: u8) -> (r: Result<Self, HyperlightError>)
        ensures
            access_type == 0 ==> (r matches Ok(f) && f@ == READ_BIT),
            access_type == 1 ==> (r matches Ok(f) && f@ == WRITE_BIT),
            access_type == 2 ==> (r matches Ok(f) && f@ == EXECUTE_BIT),
            access_type <= 2 ==> r == Ok::<Self, HyperlightError>(Self::access_type_spec(access_type)),
            access_type > 2 ==> r == Err::<Self, HyperlightError>(
                HyperlightError::UnknownMemoryAccessType(access_type),
            ),
    {
        match access_type {
            0 => Ok(Self::read()),
            1 => Ok(Self::write()),
            2 => Ok(Self::execute()),
            _ => Err(HyperlightError::UnknownMemoryAccessType(access_type)),
        }
    }

    /// The flags of a user memory region of the Microsoft hypervisor for
    /// these permissions: memory is always readable there, and may be
    /// writable and executable as well.
    pub fn mshv_mem_flags(&self) -> (r: u8)
        ensures
            r == (if flags_contain(self@, WRITE_BIT) { MSHV_MEM_WRITABLE } else { 0 }) | (
            if flags_contain(self@, EXECUTE_BIT) {
                MSHV_MEM_EXECUTABLE
            } else {
                0
            }),
    {
        let wr: u8 = if self.bits & WRITE_BIT == WRITE_BIT {
            MSHV_MEM_WRITABLE
        } else {
            0
        };
        let ex: u8 = if self.bits & EXECUTE_BIT == EXECUTE_BIT {
            MSHV_MEM_EXECUTABLE
        } else {
            0
        };
        wr | ex
    }

    /// The mapping permissions of the Microsoft hypervisor for these flags.
    pub fn hv_map_gpa_flags(&self) -> (r: u32)
        ensures
            r == (if flags_contain(self@, READ_BIT) { HV_MAP_GPA_READABLE } else { 0 }) | (if flags_contain(
                self@,
                WRITE_BIT,
            ) {
                HV_MAP_GPA_WRITABLE
            } else {
                0
            }) | (if flags_contain(self@, EXECUTE_BIT) {
                HV_MAP_GPA_EXECUTABLE
            } else {
                0
            }),
    {
        let rd: u32 = if self.bits & READ_BIT == READ_BIT {
            HV_MAP_GPA_READABLE
        } else {
            0
        };
        let wr: u32 = if self.bits & WRITE_BIT == WRITE_BIT {
            HV_MAP_GPA_WRITABLE
        } else {
            0
        };
        let ex: u32 = if self.bits & EXECUTE_BIT == EXECUTE_BIT {
            HV_MAP_GPA_EXECUTABLE
        } else {
            0
        };
        rd | wr | ex
    }

    /// The names of the flags held, joined by `" | "`, or `"NONE"`.
    pub fn to_string(&self) -> (r: String)
        ensures
            r@ == flags_text(self@),
    {
        proof {
            use_type_invariant(self);
            reveal_strlit("NONE");
            reveal_strlit("READ");
            reveal_strlit("WRITE");
            reveal_strlit("EXECUTE");
            reveal_strlit("READ | WRITE");
            reveal_strlit("READ | EXECUTE");
            reveal_strlit("WRITE | EXECUTE");
            reveal_strlit("READ | WRITE | EXECUTE");
        }
        let s = match self.bits {
            0 => "NONE",
            1 => "READ",
            2 => "WRITE",
            3 => "READ | WRITE",
            4 => "EXECUTE",
            5 => "READ | EXECUTE",
            6 => "WRITE | EXECUTE",
            _ => "READ | WRITE | EXECUTE",
        };
        s.to_string()
    }
}

/// The names of the flags in `bits`, joined by `" | "`, or `"NONE"`.
pub open spec fn flags_text(bits: u32) -> Seq<char> {
    let read: Seq<char> = seq!['R', 'E', 'A', 'D'];
    let write: Seq<char> = seq!['W', 'R', 'I', 'T', 'E'];
    let exec: Seq<char> = seq!['E', 'X', 'E', 'C', 'U', 'T', 'E'];
    let sep: Seq<char> = seq![' ', '|', ' '];
    if bits == 0 {
        seq!['N', 'O', 'N', 'E']
    } else if bits == 1 {
        read
    } else if bits == 2 {
        write
    } else if bits == 3 {
        read + sep + write
    } else if bits == 4 {
        exec
    } else if bits == 5 {
        read + sep + exec
    } else if bits == 6 {
        write + sep + exec
    } else {
        read + sep + write + sep + exec
    }
}

/// The kind of a memory region, for debugging.
#[derive(Debug, PartialEq, Eq, Copy, Clone)]
pub enum MemoryRegionType {
    PageTables,
    Code,
    Peb,
    HostFunctionDefinitions,
    HeGeIdOdPc,
    Heap,
    GuardPage,
    Stack,
}

/// Represents a single memory region inside the guest. All memory within a
/// region has the same memory permissions.
#[derive(Debug, PartialEq, Eq)]
pub struct MemoryRegion {
    /// The range of guest memory addresses.
    pub guest_region: Range<usize>,
    /// The range of host memory addresses.
    pub host_region: Range<usize>,
    /// Memory access flags for the given region.
    pub flags: MemoryRegionFlags,
    /// The type of memory region.
    pub region_type: MemoryRegionType,
}

/// The fields of the region that the Microsoft hypervisor maps for a
/// memory region.
#[derive(Debug, Clone, Copy, PartialEq, Eq)]
pub struct MshvMemRegionFields {
    /// The size of the region in bytes.
    pub size: u64,
    /// The guest page number of the region's start.
    pub guest_pfn: u64,
    /// The host address of the region's start.
    pub userspace_addr: u64,
    /// The mapping permissions.
    pub flags: u32,
    /// The same permissions as flags of the user memory interface.
    pub mem_flags: u8,
}

impl Clone for MemoryRegion {
    fn clone(&self) -> (r: Self)
        ensures
            r == *self,
    {
        MemoryRegion {
            guest_region: Range { start: self.guest_region.start, end: self.guest_region.end },
            host_region: Range { start: self.host_region.start, end: self.host_region.end },
            flags: self.flags,
            region_type: self.region_type,
        }
    }
}

impl MemoryRegion {
    /// The size, guest page number, host address and mapping permissions
    /// with which the Microsoft hypervisor maps this region.
    pub fn mshv_fields(&self) -> (r: MshvMemRegionFields)
        requires
            self.guest_region.start <= self.guest_region.end,
        ensures
            r.size == self.guest_region.end - self.guest_region.start,
            r.guest_pfn == self.guest_region.start as u64 >> PAGE_SHIFT,
            r.userspace_addr == self.host_region.start,
            r.flags == (if flags_contain(self.flags@, READ_BIT) { HV_MAP_GPA_READABLE } else { 0 }) | (
            if flags_contain(self.flags@, WRITE_BIT) {
                HV_MAP_GPA_WRITABLE
            } else {
                0
            }) | (if flags_contain(self.flags@, EXECUTE_BIT) {
                HV_MAP_GPA_EXECUTABLE
            } else {
                0
            }),
            r.mem_flags == (if flags_contain(self.flags@, WRITE_BIT) {
                MSHV_MEM_WRITABLE
            } else {
                0
            }) | (if flags_contain(self.flags@, EXECUTE_BIT) {
                MSHV_MEM_EXECUTABLE
            } else {
                0
            }),
    {
        let size = (self.guest_region.end - self.guest_region.start) as u64;
        let guest_pfn = (self.guest_region.start as u64) >> PAGE_SHIFT;
        let userspace_addr = self.host_region.start as u64;
        MshvMemRegionFields {
            size,
            guest_pfn,
            userspace_addr,
            flags: self.flags.hv_map_gpa_flags(),
            mem_flags: self.flags.mshv_mem_flags(),
        }
    }
}

/// Whether the regions `s` follow one another without gaps, the first
/// starting at `gb` in guest memory and at `hb` in host memory, each as long
/// in guest memory as in host memory.
pub open spec fn regions_contiguous(s: Seq<MemoryRegion>, gb: int, hb: int) -> bool {
    &&& forall|i: int|
        0 <= i < s.len() ==> (#[trigger] s[i]).guest_region.start <= s[i].guest_region.end
            && s[i].guest_region.end - s[i].guest_region.start == s[i].host_region.end
            - s[i].host_region.start
    &&& s.len() > 0 ==> s[0].guest_region.start == gb && s[0].host_region.start == hb
    &&& forall|i: int, j: int|
        0 <= i && j == i + 1 && j < s.len() ==> (#[trigger] s[j]).guest_region.start == (
        #[trigger] s[i]).guest_region.end && s[j].host_region.start == s[i].host_region.end
}

/// Where the next region of `s` starts in guest memory.
pub open spec fn guest_end(s: Seq<MemoryRegion>, gb: int) -> int {
    if s.len() == 0 {
        gb
    } else {
        s.last().guest_region.end as int
    }
}

/// Where the next region of `s` starts in host memory.
pub open spec fn host_end(s: Seq<MemoryRegion>, hb: int) -> int {
    if s.len() == 0 {
        hb
    } else {
        s.last().host_region.end as int
    }
}

/// The region of `size` bytes that follows the regions `s`.
pub open spec fn next_region(
    s: Seq<MemoryRegion>,
    gb: int,
    hb: int,
    size: int,
    flags: MemoryRegionFlags,
    region_type: MemoryRegionType,
) -> MemoryRegion {
    MemoryRegion {
        guest_region: Range {
            start: guest_end(s, gb) as usize,
            end: (guest_end(s, gb) + size) as usize,
        },
        host_region: Range { start: host_end(s, hb) as usize, end: (host_end(s, hb) + size) as usize },
        flags,
        region_type,
    }
}

/// Appending the next region to regions that follow one another keeps them so.
proof fn lemma_contiguous_push(
    s: Seq<MemoryRegion>,
    gb: int,
    hb: int,
    size: int,
    flags: MemoryRegionFlags,
    region_type: MemoryRegionType,
)
    requires
        regions_contiguous(s, gb, hb),
        0 <= gb <= usize::MAX,
        0 <= hb <= usize::MAX,
        0 <= size,
        guest_end(s, gb) + size <= usize::MAX,
        host_end(s, hb) + size <= usize::MAX,
    ensures
        regions_contiguous(s.push(next_region(s, gb, hb, size, flags, region_type)), gb, hb),
{
    let t = s.push(next_region(s, gb, hb, size, flags, region_type));
    let n = s.len() as int;
    lemma_regions_end_at_least_base(s, gb, hb);
    assert forall|i: int| 0 <= i < t.len() implies (#[trigger] t[i]).guest_region.start
        <= t[i].guest_region.end && t[i].guest_region.end - t[i].guest_region.start
        == t[i].host_region.end - t[i].host_region.start by {
        if i < n {
            assert(t[i] == s[i]);
        }
    }
    assert forall|i: int, j: int| 0 <= i && j == i + 1 && j < t.len() implies (
    #[trigger] t[j]).guest_region.start == (#[trigger] t[i]).guest_region.end
        && t[j].host_region.start == t[i].host_region.end by {
        assert(t[i] == s[i]);
        if j < n {
            assert(t[j] == s[j]);
        } else {
            assert(s.last() == s[i]);
        }
    }
    if n > 0 {
        assert(t[0] == s[0]);
    }
}

/// Builds a vector of memory regions that follow one another.
pub struct MemoryRegionVecBuilder {
    guest_base_phys_addr: usize,
    host_base_virt_addr: usize,
    regions: Vec<MemoryRegion>,
}

impl MemoryRegionVecBuilder {
    #[verifier::type_invariant]
    spec fn inv(self) -> bool {
        regions_contiguous(
            self.regions@,
            self.guest_base_phys_addr as int,
            self.host_base_virt_addr as int,
        )
    }

    /// The regions pushed so far.
    pub closed spec fn regions(&self) -> Seq<MemoryRegion> {
        self.regions@
    }

    /// Where the first region starts in guest memory.
    pub closed spec fn guest_base(&self) -> usize {
        self.guest_base_phys_addr
    }

    /// Where the first region starts in host memory.
    pub closed spec fn host_base(&self) -> usize {
        self.host_base_virt_addr
    }

    /// A builder with no regions, whose first region will start at the
    /// given guest and host addresses.
    pub fn new(guest_base_phys_addr: usize, host_base_virt_addr: usize) -> (r: Self)
        ensures
            r.regions() == Seq::<MemoryRegion>::empty(),
            r.guest_base() == guest_base_phys_addr,
            r.host_base() == host_base_virt_addr,
    {
        Self { guest_base_phys_addr, host_base_virt_addr, regions: Vec::new() }
    }

    /// Push a region of `size` bytes right after the last one, and return
    /// the size of all regions so far.
    pub fn push(&mut self, size: usize, flags: MemoryRegionFlags, region_type: MemoryRegionType) -> (r:
        usize)
        requires
            guest_end(old(self).regions(), old(self).guest_base() as int) + size <= usize::MAX,
            host_end(old(self).regions(), old(self).host_base() as int) + size <= usize::MAX,
        ensures
            final(self).guest_base() == old(self).guest_base(),
            final(self).host_base() == old(self).host_base(),
            final(self).regions() == old(self).regions().push(
                next_region(
                    old(self).regions(),
                    old(self).guest_base() as int,
                    old(self).host_base() as int,
                    size as int,
                    flags,
                    region_type,
                ),
            ),
            r == guest_end(final(self).regions(), final(self).guest_base() as int) - final(self).guest_base(),
    {
        proof {
            use_type_invariant(&*self);
            lemma_regions_end_at_least_base(
                self.regions@,
                self.guest_base_phys_addr as int,
                self.host_base_virt_addr as int,
            );
            lemma_contiguous_push(
                self.regions@,
                self.guest_base_phys_addr as int,
                self.host_base_virt_addr as int,
                size as int,
                flags,
                region_type,
            );
        }
        let n = self.regions.len();
        let (g, h) = if n == 0 {
            (self.guest_base_phys_addr, self.host_base_virt_addr)
        } else {
            (self.regions[n - 1].guest_region.end, self.regions[n - 1].host_region.end)
        };
        let new_region = MemoryRegion {
            guest_region: Range { start: g, end: g + size },
            host_region: Range { start: h, end: h + size },
            flags,
            region_type,
        };
        let ret = g + size;
        assert(new_region == next_region(
            self.regions@,
            self.guest_base_phys_addr as int,
            self.host_base_virt_addr as int,
            size as int,
            flags,
            region_type,
        ));
        let mut regions = Vec::new();
        core::mem::swap(&mut regions, &mut self.regions);
        regions.push(new_region);
        self.regions = regions;
        ret - self.guest_base_phys_addr
    }

    /// Push a memory region of `size` bytes rounded up to a whole number of
    /// pages, and return the size of all regions so far.
    pub fn push_page_aligned(
        &mut self,
        size: usize,
        flags: MemoryRegionFlags,
        region_type: MemoryRegionType,
    ) -> (r: usize)
        requires
            size + PAGE_SIZE_USIZE <= usize::MAX,
            guest_end(old(self).regions(), old(self).guest_base() as int) + round_up(
                size as int,
                PAGE_SIZE_USIZE as int,
            ) <= usize::MAX,
            host_end(old(self).regions(), old(self).host_base() as int) + round_up(
                size as int,
                PAGE_SIZE_USIZE as int,
            ) <= usize::MAX,
        ensures
            final(self).guest_base() == old(self).guest_base(),
            final(self).host_base() == old(self).host_base(),
            final(self).regions().len() == old(self).regions().len() + 1,
            final(self).regions().drop_last() == old(self).regions(),
            final(self).regions().last().guest_region.start == guest_end(
                old(self).regions(),
                old(self).guest_base() as int,
            ),
            final(self).regions().last().guest_region.end - final(self).regions().last().guest_region.start == round_up(size as int, PAGE_SIZE_USIZE as int),
            final(self).regions().last().flags == flags,
            final(self).regions().last().region_type == region_type,
            r == guest_end(final(self).regions(), final(self).guest_base() as int) - final(self).guest_base(),
    {
        let t: usize = size + (PAGE_SIZE_USIZE - 1);
        let mask: usize = !(PAGE_SIZE_USIZE - 1);
        let aligned_size = t & mask;
        proof {
            lemma_page_align(size, t, mask);
        }
        let r = self.push(aligned_size, flags, region_type);
        proof {
            assert(self.regions().drop_last() =~= old(self).regions());
        }
        r
    }

    /// Consume the builder and return its memory regions, which follow one
    /// another without gaps from the builder's base addresses.
    pub fn build(self) -> (r: Vec<MemoryRegion>)
        ensures
            r@ == self.regions(),
            regions_contiguous(r@, self.guest_base() as int, self.host_base() as int),
    {
        proof {
            use_type_invariant(&self);
        }
        self.regions
    }
}

/// Regions that follow one another end no lower than where they start.
proof fn lemma_regions_end_at_least_base(s: Seq<MemoryRegion>, gb: int, hb: int)
    requires
        regions_contiguous(s, gb, hb),
    ensures
        guest_end(s, gb) >= gb,
        host_end(s, hb) >= hb,
    decreases s.len(),
{
    if s.len() > 0 {
        let t = s.drop_last();
        assert(regions_contiguous(t, gb, hb)) by {
            assert forall|i: int| 0 <= i < t.len() implies (#[trigger] t[i]).guest_region.start
                <= t[i].guest_region.end && t[i].guest_region.end - t[i].guest_region.start
                == t[i].host_region.end - t[i].host_region.start by {
                assert(t[i] == s[i]);
            }
            assert forall|i: int, j: int| 0 <= i && j == i + 1 && j < t.len() implies (
            #[trigger] t[j]).guest_region.start == (#[trigger] t[i]).guest_region.end
                && t[j].host_region.start == t[i].host_region.end by {
                assert(t[i] == s[i]);
                assert(t[j] == s[j]);
            }
            if t.len() > 0 {
                assert(t[0] == s[0]);
            }
        }
        lemma_regions_end_at_least_base(t, gb, hb);
        let n = s.len() - 1;
        assert(s[n] == s.last());
        if n > 0 {
            assert(t.last() == s[n - 1]);
            assert(s[n].guest_region.start == s[n - 1].guest_region.end);
        }
    }
}

/// The total length of the guest ranges of regions `s`.
pub open spec fn regions_len(s: Seq<MemoryRegion>) -> int
    decreases s.len(),
{
    if s.len() == 0 {
        0
    } else {
        regions_len(s.drop_last()) + (s.last().guest_region.end - s.last().guest_region.start)
    }
}

/// Regions that follow one another from guest base `gb` and host base `hb`
/// tile memory: each starts, in guest and in host memory, at its base plus
/// the total length of the regions before it, and the next one would start
/// at the base plus the total length of all of them. So after pushes of
/// sizes `s_0`, ..., `s_k` a builder's regions have those sizes in turn,
/// and the `j`-th push returned `s_0 + ... + s_j`.
pub proof fn lemma_regions_tile(s: Seq<MemoryRegion>, gb: int, hb: int)
    requires
        regions_contiguous(s, gb, hb),
    ensures
        guest_end(s, gb) == gb + regions_len(s),
        host_end(s, hb) == hb + regions_len(s),
        forall|i: int|
            0 <= i < s.len() ==> (#[trigger] s[i]).guest_region.start == gb + regions_len(
                s.take(i),
            ) && s[i].host_region.start == hb + regions_len(s.take(i)),
    decreases s.len(),
{
    if s.len() > 0 {
        let t = s.drop_last();
        assert(regions_contiguous(t, gb, hb)) by {
            assert forall|i: int| 0 <= i < t.len() implies (#[trigger] t[i]).guest_region.start
                <= t[i].guest_region.end && t[i].guest_region.end - t[i].guest_region.start
                == t[i].host_region.end - t[i].host_region.start by {
                assert(t[i] == s[i]);
            }
            assert forall|i: int, j: int| 0 <= i && j == i + 1 && j < t.len() implies (
            #[trigger] t[j]).guest_region.start == (#[trigger] t[i]).guest_region.end
                && t[j].host_region.start == t[i].host_region.end by {
                assert(t[i] == s[i]);
                assert(t[j] == s[j]);
            }
            if t.len() > 0 {
                assert(t[0] == s[0]);
            }
        }
        lemma_regions_tile(t, gb, hb);
        let n = s.len() - 1;
        assert(s[n] == s.last());
        assert(s.take(n) =~= t);
        if n > 0 {
            assert(t.last() == s[n - 1]);
            assert(s[n].guest_region.start == s[n - 1].guest_region.end);
            assert(s[n].host_region.start == s[n - 1].host_region.end);
        } else {
            assert(t =~= Seq::<MemoryRegion>::empty());
        }
        assert forall|i: int| 0 <= i < s.len() implies (#[trigger] s[i]).guest_region.start == gb
            + regions_len(s.take(i)) && s[i].host_region.start == hb + regions_len(s.take(i)) by {
            if i < n {
                assert(s[i] == t[i]);
                assert(s.take(i) =~= t.take(i));
            }
        }
    }
}

/// Rounding up to a page with a mask is rounding up to a multiple of the
/// page size.
proof fn lemma_page_align(size: usize, t: usize, mask: usize)
    requires
        size + PAGE_SIZE_USIZE <= usize::MAX,
        t == size + (PAGE_SIZE_USIZE - 1),
        mask == !((PAGE_SIZE_USIZE - 1) as usize),
    ensures
        (t & mask) as int == round_up(size as int, PAGE_SIZE_USIZE as int),
{
    assert(t & mask == if size % 0x1000 == 0 {
        size
    } else {
        (size - size % 0x1000 + 0x1000) as usize
    }) by (bit_vector)
        requires
            t == size + 0xfff,
            mask == !0xfffusize,
    ;
}

} // verus!
