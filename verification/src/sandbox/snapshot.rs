//! A snapshot of the state of a sandbox.
use vstd::prelude::*;

verus! {

/// A snapshot of the internal state of a sandbox: a copy of its memory.
pub struct Snapshot {
    mem: Vec<u8>,
}

impl Snapshot {
    /// The memory that the snapshot holds.
    pub closed spec fn mem_spec(&self) -> Seq<u8> {
        self.mem@
    }

    /// A snapshot holding the memory `mem`.
    pub fn new(mem: Vec<u8>) -> (r: Self)
        ensures
            r.mem_spec() == mem@,
    {
        Self { mem }
    }

    /// Get a reference to the snapshot of memory.
    pub fn get_mem(&self) -> (r: &Vec<u8>)
        ensures
            r@ == self.mem_spec(),
    {
        &self.mem
    }
}

} // verus!
