//! Read-only memory mapped at a base address.

use vstd::prelude::*;

verus! {

/// A ROM image whose first byte sits at `offset`.
pub struct Rom {
    pub data: Vec<u8>,
    pub offset: u16,
}

impl Rom {
    /// Whether `address` falls inside the image.
    pub open spec fn covers(&self, address: u16) -> bool {
        self.offset <= address && (address - self.offset) < self.data@.len()
    }

    /// A ROM of `capacity` bytes all holding `pattern`.
    pub fn new(capacity: usize, offset: u16, pattern: u8) -> (r: Self)
        ensures
            r.offset == offset,
            r.data@ == Seq::new(capacity as nat, |_i: int| pattern),
    {
        let mut data: Vec<u8> = Vec::new();
        let mut i: usize = 0;
        while i < capacity
            invariant
                i <= capacity,
                data@ == Seq::new(i as nat, |_i: int| pattern),
            decreases capacity - i,
        {
            data.push(pattern);
            i = i + 1;
            assert(data@ =~= Seq::new(i as nat, |_i: int| pattern));
        }
        Self { data, offset }
    }

    /// Wraps an image already in memory.
    pub fn from_bytes(data: Vec<u8>, offset: u16) -> (r: Self)
        ensures
            r.offset == offset,
            r.data@ == data@,
    {
        Self { data, offset }
    }

    /// The byte at `address`.
    pub fn read(&self, address: u16) -> (r: u8)
        requires
            self.covers(address),
        ensures
            r == self.data@[(address - self.offset) as int],
    {
        self.data[(address - self.offset) as usize]
    }
}

} // verus!
