//! A source of tape pulses.

use vstd::prelude::*;

verus! {

/// The longest pulse a tape delivers, in cycles.
pub const MAX_PULSE: u32 = 0x00ff_ffff;

/// A tape image the datassette plays.
pub trait Tape {
    /// Whether the tape can be played from where it stands, and from any
    /// position it can seek to.
    spec fn inv(&self) -> bool;

    /// The next pulse's length in cycles, or `None` at the end of the tape.
    spec fn next_pulse(&self) -> Option<u32>;

    /// The tape once its next pulse has been read.
    spec fn after_read(&self) -> Self where Self: Sized;

    /// The tape after a seek to `pos`, and whether `pos` is on it.
    spec fn after_seek(&self, pos: usize) -> (Self, bool) where Self: Sized;

    /// Reads the next pulse; a pulse is at most 2^24 - 1 cycles, the longest
    /// a TAP image holds.
    fn read_pulse(&mut self) -> (r: Option<u32>)
        where Self: Sized
        requires
            old(self).inv(),
        ensures
            final(self).inv(),
            r == old(self).next_pulse(),
            *final(self) == old(self).after_read(),
            r matches Some(p) ==> p <= MAX_PULSE,
    ;

    /// Whether the tape can be played from position `pos`.
    spec fn can_seek(&self, pos: usize) -> bool;

    /// A playable tape can always be rewound.
    proof fn lemma_rewind(&self)
        requires
            self.inv(),
        ensures
            self.can_seek(0),
    ;

    /// Moves to position `pos`; returns whether it is on the tape.
    fn seek(&mut self, pos: usize) -> (r: bool)
        where Self: Sized
        requires
            old(self).inv(),
            old(self).can_seek(pos),
        ensures
            final(self).inv(),
            (*final(self), r) == old(self).after_seek(pos),
    ;
}

} // verus!
