//! The keyboard matrix as the CIA scans it: eight rows of eight keys, a
//! cleared bit for a pressed key.

use vstd::prelude::*;

verus! {

/// The keyboard matrix.
pub struct Keyboard {
    pub matrix: [u8; 8],
}

impl Keyboard {
    /// A matrix with no key pressed.
    pub fn new() -> (r: Keyboard)
        ensures
            r.matrix@ == Seq::new(8, |_i: int| 0xffu8),
    {
        let r = Keyboard { matrix: [0xff, 0xff, 0xff, 0xff, 0xff, 0xff, 0xff, 0xff] };
        assert(r.matrix@ =~= Seq::new(8, |_i: int| 0xffu8));
        r
    }

    /// Row `row` of the matrix.
    pub fn get_row(&self, row: u8) -> (r: u8)
        requires
            row < 8,
        ensures
            r == self.matrix@[row as int],
    {
        self.matrix[row as usize]
    }

    /// Sets row `row` of the matrix.
    pub fn set_row(&mut self, row: u8, value: u8)
        requires
            row < 8,
        ensures
            final(self).matrix@ == old(self).matrix@.update(row as int, value),
    {
        self.matrix[row as usize] = value;
    }
}

} // verus!
