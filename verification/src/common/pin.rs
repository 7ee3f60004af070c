//! A two-state signal pin that remembers its previous level.

use vstd::prelude::*;

verus! {

/// The level of a pin.
#[derive(Clone, Copy, PartialEq, Eq, Structural)]
pub enum State {
    High,
    Low,
}

/// A signal pin: its current level and the level before the last change.
pub struct Pin {
    pub state: State,
    pub last: State,
}

impl Pin {
    /// A pin that is high and was high.
    pub fn new_high() -> (p: Pin)
        ensures
            p.state == State::High,
            p.last == State::High,
    {
        Pin { state: State::High, last: State::High }
    }

    /// A pin that is low and was low.
    pub fn new_low() -> (p: Pin)
        ensures
            p.state == State::Low,
            p.last == State::Low,
    {
        Pin { state: State::Low, last: State::Low }
    }

    /// The last change took the pin from high to low.
    pub fn is_falling(&self) -> (r: bool)
        ensures
            r == (self.last == State::High && self.state == State::Low),
    {
        self.last == State::High && self.state == State::Low
    }

    /// The pin is high.
    pub fn is_high(&self) -> (r: bool)
        ensures
            r == (self.state == State::High),
    {
        self.state == State::High
    }

    /// The pin is low.
    pub fn is_low(&self) -> (r: bool)
        ensures
            r == (self.state == State::Low),
    {
        self.state == State::Low
    }

    /// The last change took the pin from low to high.
    pub fn is_rising(&self) -> (r: bool)
        ensures
            r == (self.last == State::Low && self.state == State::High),
    {
        self.last == State::Low && self.state == State::High
    }

    /// Drives the pin high when `active`, low otherwise; the old level becomes the last one.
    pub fn set_active(&mut self, active: bool)
        ensures
            final(self).last == old(self).state,
            final(self).state == (if active { State::High } else { State::Low }),
    {
        if active {
            self.set(State::High);
        } else {
            self.set(State::Low);
        }
    }

    fn set(&mut self, state: State)
        ensures
            final(self).last == old(self).state,
            final(self).state == state,
    {
        self.last = self.state;
        self.state = state;
    }
}

} // verus!
