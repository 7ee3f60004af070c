//! The time-of-day clock: tenths, seconds, minutes, hours and AM/PM.

use vstd::prelude::*;

verus! {

/// A 12-hour time-of-day clock advanced in tenths of a second.
pub struct Rtc {
    pub enabled: bool,
    pub hours: u8,
    pub minutes: u8,
    pub seconds: u8,
    pub tenth: u8,
    pub pm: bool,
}

/// The clock after one tick; each unit rolls over into the next
/// (10 tenths, 60 seconds, 60 minutes); hour 12 flips AM/PM and hour 13 becomes 1.
pub open spec fn ticked(c: Rtc) -> Rtc {
    if !c.enabled {
        c
    } else if c.tenth + 1 != 10 {
        Rtc { tenth: (c.tenth + 1) as u8, ..c }
    } else if c.seconds + 1 != 60 {
        Rtc { tenth: 0, seconds: (c.seconds + 1) as u8, ..c }
    } else if c.minutes + 1 != 60 {
        Rtc { tenth: 0, seconds: 0, minutes: (c.minutes + 1) as u8, ..c }
    } else {
        let h = c.hours + 1;
        Rtc {
            tenth: 0,
            seconds: 0,
            minutes: 0,
            hours: if h == 13 { 1 } else { h as u8 },
            pm: if h == 12 { !c.pm } else { c.pm },
            ..c
        }
    }
}

/// Whether a clock shows a time of day: tenths below 10, seconds and
/// minutes below 60, hours at most 12.
pub open spec fn valid_time(c: Rtc) -> bool {
    c.tenth < 10 && c.seconds < 60 && c.minutes < 60 && c.hours <= 12
}

/// A tick takes a time of day to a time of day.
pub proof fn law_tick_keeps_time(c: Rtc)
    requires
        valid_time(c),
    ensures
        valid_time(ticked(c)),
{
}

/// The time of day a clock shows, in tenths of a second since midnight:
/// hours 12 and 0 count as 0, and PM adds twelve hours.
pub open spec fn tenths_of_day(c: Rtc) -> int {
    ((((c.hours as int % 12) + if c.pm { 12int } else { 0int }) * 60 + c.minutes) * 60 + c.seconds) * 10
        + c.tenth
}

/// A tick of a running clock that shows a time of day moves it on by one
/// tenth of a second, around the clock: 11:59:59.9 AM becomes 12:00:00.0
/// PM, 12:59:59.9 becomes 1:00:00.0, and 11:59:59.9 PM becomes midnight.
pub proof fn law_tick_advances_tenth(c: Rtc)
    requires
        c.enabled,
        valid_time(c),
    ensures
        tenths_of_day(ticked(c)) == (tenths_of_day(c) + 1) % 864000,
{
    let h = if c.pm { 12int } else { 0int };
    assert(0 <= tenths_of_day(c) < 864000) by (nonlinear_arith)
        requires
            c.tenth < 10,
            c.seconds < 60,
            c.minutes < 60,
            0 <= c.hours as int % 12 < 12,
            h == 0 || h == 12,
            tenths_of_day(c) == ((((c.hours as int % 12) + h) * 60 + c.minutes) * 60 + c.seconds) * 10
                + c.tenth,
    ;
}

/// A stopped clock does not move.
pub proof fn law_stopped_clock(c: Rtc)
    requires
        !c.enabled,
    ensures
        ticked(c) == c,
{
}

/// A running clock at 00:00:00.0 AM.
pub open spec fn rtc_zero() -> Rtc {
    Rtc { enabled: true, hours: 0, minutes: 0, seconds: 0, tenth: 0, pm: false }
}

impl Rtc {
    /// A tick that would carry past 255 in a unit panics; these states leave room.
    pub open spec fn can_tick(&self) -> bool {
        &&& self.tenth < 255
        &&& self.seconds < 255
        &&& self.minutes < 255
        &&& self.hours < 255
    }

    /// Running, at 00:00:00.0 AM.
    pub fn new() -> (r: Rtc)
        ensures
            r == rtc_zero(),
    {
        Rtc { enabled: true, hours: 0, minutes: 0, seconds: 0, tenth: 0, pm: false }
    }

    /// A copy of this clock.
    pub fn copy(&self) -> (r: Rtc)
        ensures
            r == *self,
    {
        Rtc {
            enabled: self.enabled,
            hours: self.hours,
            minutes: self.minutes,
            seconds: self.seconds,
            tenth: self.tenth,
            pm: self.pm,
        }
    }

    /// The hours.
    pub fn get_hours(&self) -> (r: u8)
        ensures
            r == self.hours,
    {
        self.hours
    }

    /// The minutes.
    pub fn get_minutes(&self) -> (r: u8)
        ensures
            r == self.minutes,
    {
        self.minutes
    }

    /// The seconds.
    pub fn get_seconds(&self) -> (r: u8)
        ensures
            r == self.seconds,
    {
        self.seconds
    }

    /// The tenths of a second.
    pub fn get_tenth(&self) -> (r: u8)
        ensures
            r == self.tenth,
    {
        self.tenth
    }

    /// Whether it is PM.
    pub fn get_pm(&self) -> (r: bool)
        ensures
            r == self.pm,
    {
        self.pm
    }

    /// Starts or stops the clock.
    pub fn set_enabled(&mut self, enabled: bool)
        ensures
            *final(self) == (Rtc { enabled, ..*old(self) }),
    {
        self.enabled = enabled;
    }

    /// Sets the hours.
    pub fn set_hours(&mut self, value: u8)
        ensures
            *final(self) == (Rtc { hours: value, ..*old(self) }),
    {
        self.hours = value;
    }

    /// Sets the minutes.
    pub fn set_minutes(&mut self, value: u8)
        ensures
            *final(self) == (Rtc { minutes: value, ..*old(self) }),
    {
        self.minutes = value;
    }

    /// Sets the seconds.
    pub fn set_seconds(&mut self, value: u8)
        ensures
            *final(self) == (Rtc { seconds: value, ..*old(self) }),
    {
        self.seconds = value;
    }

    /// Sets the tenths.
    pub fn set_tenth(&mut self, value: u8)
        ensures
            *final(self) == (Rtc { tenth: value, ..*old(self) }),
    {
        self.tenth = value;
    }

    /// Sets AM/PM.
    pub fn set_pm(&mut self, pm: bool)
        ensures
            *final(self) == (Rtc { pm, ..*old(self) }),
    {
        self.pm = pm;
    }

    /// Advances the clock by a tenth of a second when it runs.
    pub fn tick(&mut self)
        requires
            old(self).can_tick(),
        ensures
            *final(self) == ticked(*old(self)),
    {
        if self.enabled {
            self.tenth = self.tenth + 1;
            if self.tenth == 10 {
                self.tenth = 0;
                self.seconds = self.seconds + 1;
                if self.seconds == 60 {
                    self.seconds = 0;
                    self.minutes = self.minutes + 1;
                    if self.minutes == 60 {
                        self.minutes = 0;
                        self.hours = self.hours + 1;
                        if self.hours == 12 {
                            self.pm = !self.pm;
                        }
                        if self.hours == 13 {
                            self.hours = 1;
                        }
                    }
                }
            }
        }
    }

    /// Two clocks show the same time when hours, minutes, seconds and tenths agree.
    pub fn same_time(&self, other: &Rtc) -> (r: bool)
        ensures
            r == (self.hours == other.hours && self.minutes == other.minutes
                && self.seconds == other.seconds && self.tenth == other.tenth),
    {
        self.hours == other.hours && self.minutes == other.minutes && self.seconds == other.seconds
            && self.tenth == other.tenth
    }
}

} // verus!
