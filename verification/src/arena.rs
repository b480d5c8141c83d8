//! The scratch memory of one frame: a region of fixed capacity that is
//! filled from the front and emptied as a whole.

use vstd::prelude::*;

verus! {

/// The number of bytes that the scratch memory of a frame can hold.
pub const SCRATCH_CAPACITY: usize = 0x100000;

/// The bound that the engine's command encoding puts on the size of one
/// region: a region has fewer bytes than this.
pub const REGION_LIMIT: usize = 0x80000000;

/// Scratch memory. Its view is the bytes stored so far, in the order in
/// which they were stored.
pub struct Arena {
    bytes: Vec<u8>,
}

impl View for Arena {
    type V = Seq<u8>;

    closed spec fn view(&self) -> Seq<u8> {
        self.bytes@
    }
}

impl Arena {
    /// Whether `n` more bytes can be stored as one region.
    pub open spec fn has_room(self, n: nat) -> bool {
        n < REGION_LIMIT && self@.len() + n <= SCRATCH_CAPACITY
    }

    /// Empty scratch memory.
    pub fn new() -> (a: Arena)
        ensures
            a@ == Seq::<u8>::empty(),
    {
        Arena { bytes: Vec::new() }
    }

    /// The number of bytes stored.
    pub fn used(&self) -> (n: usize)
        ensures
            n == self@.len(),
    {
        self.bytes.len()
    }

    /// The number of bytes that can still be stored.
    pub fn remaining(&self) -> (n: usize)
        ensures
            self@.len() <= SCRATCH_CAPACITY ==> n == SCRATCH_CAPACITY - self@.len(),
            self@.len() > SCRATCH_CAPACITY ==> n == 0,
    {
        let used: usize = self.bytes.len();
        if used <= SCRATCH_CAPACITY {
            SCRATCH_CAPACITY - used
        } else {
            0
        }
    }

    /// The bytes stored.
    pub fn as_slice(&self) -> (s: &[u8])
        ensures
            s@ == self@,
    {
        self.bytes.as_slice()
    }

    /// Forgets all that was stored.
    pub fn reset(&mut self)
        ensures
            final(self)@ == Seq::<u8>::empty(),
    {
        self.bytes.clear();
    }

    /// Stores a copy of `data` as one region behind what is there, and
    /// returns where the region begins. What was stored before stays where
    /// it was.
    pub fn allocate(&mut self, data: &[u8]) -> (offset: usize)
        requires
            old(self).has_room(data@.len()),
        ensures
            offset == old(self)@.len(),
            final(self)@ == old(self)@ + data@,
    {
        let offset: usize = self.bytes.len();
        self.bytes.extend_from_slice(data);
        offset
    }
}

} // verus!
