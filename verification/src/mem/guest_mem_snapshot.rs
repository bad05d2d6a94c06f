//! A guest memory together with a copy of its contents taken earlier.
use crate::error::HyperlightError;
use crate::mem::guest_mem::{spec_guest_write, spec_range_check, GuestMemory};
use crate::mem::le_bytes::lemma_update_bytes_len;
use vstd::prelude::*;

verus! {

/// Writing a memory's full-length copy back over it is always in range and
/// leaves exactly the copy.
pub proof fn lemma_restore_gives_back_snapshot(mem: Seq<u8>, snapshot: Seq<u8>)
    requires
        snapshot.len() == mem.len(),
    ensures
        spec_range_check(0, snapshot.len() as int, mem.len() as int) is Ok,
        spec_guest_write(mem, 0, snapshot) == snapshot,
{
    lemma_update_bytes_len(mem, 0, snapshot);
    assert(spec_guest_write(mem, 0, snapshot) =~= snapshot);
}

/// A guest memory together with a snapshot of the memory therein.
pub struct GuestMemorySnapshot {
    snapshot: Vec<u8>,
    gm: GuestMemory,
}

impl GuestMemorySnapshot {
    /// The contents recorded by the last snapshot.
    pub closed spec fn snapshot_spec(&self) -> Seq<u8> {
        self.snapshot@
    }

    /// The memory whose contents are recorded.
    pub closed spec fn memory_spec(&self) -> GuestMemory {
        self.gm
    }

    /// Take a snapshot of the memory in `gm`, then create a new instance of
    /// `Self` with the snapshot stored therein.
    pub fn new(gm: GuestMemory) -> (r: Result<GuestMemorySnapshot, HyperlightError>)
        ensures
            r matches Ok(s) && s.snapshot_spec() == gm@ && s.memory_spec() == gm,
    {
        let snapshot = match gm.copy_all_to_vec() {
            Ok(v) => v,
            Err(e) => return Err(e),
        };
        Ok(GuestMemorySnapshot { snapshot, gm })
    }

    /// The memory whose contents are recorded.
    pub fn get_memory(&self) -> (r: &GuestMemory)
        ensures
            *r == self.memory_spec(),
    {
        &self.gm
    }

    /// The memory whose contents are recorded, to be changed in place.
    pub fn get_memory_mut(&mut self) -> (r: &mut GuestMemory)
        ensures
            *r == old(self).memory_spec(),
            final(self).memory_spec() == *final(r),
            final(self).snapshot_spec() == old(self).snapshot_spec(),
    {
        &mut self.gm
    }

    /// Take another snapshot of the stored memory, then store it.
    pub fn replace_snapshot(&mut self) -> (r: Result<(), HyperlightError>)
        ensures
            r is Ok,
            final(self).snapshot_spec() == old(self).memory_spec()@,
            final(self).memory_spec() == old(self).memory_spec(),
    {
        let new_snapshot = match self.gm.copy_all_to_vec() {
            Ok(v) => v,
            Err(e) => return Err(e),
        };
        self.snapshot = new_snapshot;
        Ok(())
    }

    /// Copy the recorded contents back into the stored memory, from its
    /// start.
    pub fn restore_from_snapshot(&mut self) -> (r: Result<(), HyperlightError>)
        ensures
            r == spec_range_check(
                0,
                old(self).snapshot_spec().len() as int,
                old(self).memory_spec()@.len() as int,
            ),
            final(self).memory_spec()@ == spec_guest_write(
                old(self).memory_spec()@,
                0,
                old(self).snapshot_spec(),
            ),
            final(self).memory_spec().spec_base_addr() == old(self).memory_spec().spec_base_addr(),
            final(self).snapshot_spec() == old(self).snapshot_spec(),
    {
        self.gm.copy_from_slice(self.snapshot.as_slice(), 0)
    }
}

} // verus!
