//! The expansion port's GAME and EXROM lines.

use vstd::prelude::*;

verus! {

/// The GAME and EXROM lines (both high when no cartridge pulls them).
pub struct ExpansionPortIo {
    pub game: bool,
    pub exrom: bool,
}

impl ExpansionPortIo {
    /// Both lines high.
    pub fn new() -> (r: ExpansionPortIo)
        ensures
            r.game && r.exrom,
    {
        ExpansionPortIo { game: true, exrom: true }
    }

    /// Releases both lines.
    pub fn reset(&mut self)
        ensures
            final(self).game && final(self).exrom,
    {
        self.game = true;
        self.exrom = true;
    }

    /// Sets the lines as a cartridge drives them.
    pub fn update(&mut self, game: bool, exrom: bool)
        ensures
            final(self).game == game,
            final(self).exrom == exrom,
    {
        self.game = game;
        self.exrom = exrom;
    }
}

} // verus!
