//! Random-access memory.

use vstd::prelude::*;
use super::traits::Mmu;

verus! {

/// A RAM bank of fixed size, addressed from zero.
pub struct Ram {
    pub data: Vec<u8>,
}

/// What a read of `address` returns from `data`: the byte there, or 0 past the end.
pub open spec fn ram_peek(data: Seq<u8>, address: u16) -> u8 {
    if (address as int) < data.len() {
        data[address as int]
    } else {
        0
    }
}

/// `data` after a write of `value` to `address`; writes past the end are lost.
pub open spec fn ram_poke(data: Seq<u8>, address: u16, value: u8) -> Seq<u8> {
    if (address as int) < data.len() {
        data.update(address as int, value)
    } else {
        data
    }
}

impl Ram {
    /// `capacity` bytes, all zero.
    pub fn new(capacity: usize) -> (r: Ram)
        ensures
            r.data@ == Seq::new(capacity as nat, |_i: int| 0u8),
    {
        let mut data: Vec<u8> = Vec::new();
        let mut i: usize = 0;
        while i < capacity
            invariant
                i <= capacity,
                data@ == Seq::new(i as nat, |_i: int| 0u8),
            decreases capacity - i,
        {
            data.push(0);
            i = i + 1;
            assert(data@ =~= Seq::new(i as nat, |_i: int| 0u8));
        }
        Ram { data }
    }

    /// Sets every byte to `value`.
    pub fn fill(&mut self, value: u8)
        ensures
            final(self).data@ == Seq::new(old(self).data@.len(), |_i: int| value),
    {
        let n = self.data.len();
        let mut i: usize = 0;
        while i < n
            invariant
                i <= n,
                n == self.data@.len(),
                forall|j: int| 0 <= j < i ==> self.data@[j] == value,
            decreases n - i,
        {
            self.data.set(i, value);
            i = i + 1;
        }
        assert(self.data@ =~= Seq::new(n as nat, |_i: int| value));
    }

    /// The byte at `address`.
    pub fn read(&self, address: u16) -> (r: u8)
        requires
            (address as int) < self.data@.len(),
        ensures
            r == self.data@[address as int],
    {
        self.data[address as usize]
    }

    /// Stores `value` at `address`.
    pub fn write(&mut self, address: u16, value: u8)
        requires
            (address as int) < old(self).data@.len(),
        ensures
            final(self).data@ == old(self).data@.update(address as int, value),
    {
        self.data.set(address as usize, value);
    }
}

impl View for Ram {
    type V = Seq<u8>;

    open spec fn view(&self) -> Seq<u8> {
        self.data@
    }
}

/// RAM seen directly by the CPU: no banking, reads past the end give 0.
impl Mmu for Ram {
    open spec fn peek(mem: Seq<u8>, address: u16) -> u8 {
        ram_peek(mem, address)
    }

    open spec fn poke(mem: Seq<u8>, address: u16, value: u8) -> Seq<u8> {
        ram_poke(mem, address, value)
    }

    open spec fn banked(mem: Seq<u8>, mode: u8) -> Seq<u8> {
        mem
    }

    fn switch_banks(&mut self, _mode: u8) {
    }

    fn read(&self, address: u16) -> (value: u8) {
        if (address as usize) < self.data.len() {
            self.data[address as usize]
        } else {
            0
        }
    }

    fn write(&mut self, address: u16, value: u8) {
        if (address as usize) < self.data.len() {
            self.data.set(address as usize, value);
        }
    }
}

} // verus!
