//! Time of day as kept by the real-time clock, and its carry arithmetic.
use vstd::prelude::*;

verus! {

/// A time of day: hours, minutes and seconds.
#[derive(Clone, Copy, Debug, PartialEq, Eq, Structural)]
pub struct Time {
    pub hours: u8,
    pub minutes: u8,
    pub seconds: u8,
}

impl Time {
    /// A time whose fields lie on a 24-hour clock face.
    pub open spec fn valid(self) -> bool {
        self.hours < 24 && self.minutes < 60 && self.seconds < 60
    }

    /// Seconds elapsed since midnight.
    pub open spec fn seconds_of_day(self) -> int {
        self.hours * 3600 + self.minutes * 60 + self.seconds
    }

    /// What `add_hours` leaves behind: one wrap at 24 hours, no more.
    pub open spec fn with_hours_added(self, hours: u8) -> Time {
        if self.hours + hours < 24 {
            Time { hours: (self.hours + hours) as u8, minutes: self.minutes, seconds: self.seconds }
        } else {
            Time { hours: (self.hours + hours - 24) as u8, minutes: self.minutes, seconds: self.seconds }
        }
    }

    /// What `add_minutes` leaves behind: one wrap at 60 minutes, carrying one hour.
    pub open spec fn with_minutes_added(self, minutes: u8) -> Time {
        if self.minutes + minutes < 60 {
            Time { hours: self.hours, minutes: (self.minutes + minutes) as u8, seconds: self.seconds }
        } else {
            Time {
                hours: self.hours,
                minutes: (self.minutes + minutes - 60) as u8,
                seconds: self.seconds,
            }.with_hours_added(1)
        }
    }

    /// What `add_seconds` leaves behind: one wrap at 60 seconds, carrying one minute.
    pub open spec fn with_seconds_added(self, seconds: u8) -> Time {
        if self.seconds + seconds < 60 {
            Time { hours: self.hours, minutes: self.minutes, seconds: (self.seconds + seconds) as u8 }
        } else {
            Time {
                hours: self.hours,
                minutes: self.minutes,
                seconds: (self.seconds + seconds - 60) as u8,
            }.with_minutes_added(1)
        }
    }

    /// The additions in `add_hours` stay within `u8`.
    pub open spec fn can_add_hours(self, hours: u8) -> bool {
        self.hours + hours <= u8::MAX
    }

    /// The additions in `add_minutes`, and the hour it may carry, stay within `u8`.
    pub open spec fn can_add_minutes(self, minutes: u8) -> bool {
        &&& self.minutes + minutes <= u8::MAX
        &&& self.minutes + minutes >= 60 ==> self.can_add_hours(1)
    }

    /// The additions in `add_seconds`, and the minute it may carry, stay within `u8`.
    pub open spec fn can_add_seconds(self, seconds: u8) -> bool {
        &&& self.seconds + seconds <= u8::MAX
        &&& self.seconds + seconds >= 60 ==> self.can_add_minutes(1)
    }

    /// Adds `seconds`; a sum of 60 or more wraps once and carries one minute.
    pub fn add_seconds(&mut self, seconds: u8)
        requires
            old(self).can_add_seconds(seconds),
        ensures
            *final(self) == old(self).with_seconds_added(seconds),
    {
        if self.seconds + seconds < 60 {
            self.seconds = self.seconds + seconds;
        } else {
            self.seconds = self.seconds + seconds - 60;
            self.add_minutes(1);
        }
    }

    /// Adds `minutes`; a sum of 60 or more wraps once and carries one hour.
    pub fn add_minutes(&mut self, minutes: u8)
        requires
            old(self).can_add_minutes(minutes),
        ensures
            *final(self) == old(self).with_minutes_added(minutes),
    {
        if self.minutes + minutes < 60 {
            self.minutes = self.minutes + minutes;
        } else {
            self.minutes = self.minutes + minutes - 60;
            self.add_hours(1);
        }
    }

    /// Adds `hours`; a sum of 24 or more wraps once.
    pub fn add_hours(&mut self, hours: u8)
        requires
            old(self).can_add_hours(hours),
        ensures
            *final(self) == old(self).with_hours_added(hours),
    {
        if self.hours + hours < 24 {
            self.hours = self.hours + hours;
        } else {
            self.hours = self.hours + hours - 24;
        }
    }
}

/// On a valid time, `add_hours` is addition on the 24-hour clock as long as the
/// sum of hours stays under 48 (beyond that the single wrap leaves 24 or more).
pub proof fn lemma_add_hours_wraps_day(t: Time, hours: u8)
    requires
        t.valid(),
        t.hours + hours < 48,
    ensures
        t.can_add_hours(hours),
        t.with_hours_added(hours).valid(),
        t.with_hours_added(hours).seconds_of_day() == (t.seconds_of_day() + 3600 * hours) % 86400,
{
    let total = t.seconds_of_day() + 3600 * hours;
    if t.hours + hours < 24 {
        assert(0 <= total < 86400);
        vstd::arithmetic::div_mod::lemma_small_mod(total as nat, 86400);
    } else {
        assert(86400 <= total < 2 * 86400);
        vstd::arithmetic::div_mod::lemma_small_mod((total - 86400) as nat, 86400);
        vstd::arithmetic::div_mod::lemma_mod_sub_multiples_vanish(total, 86400);
    }
}

/// On a valid time, `add_minutes` is addition on the 24-hour clock as long as the
/// sum of minutes stays under 120.
pub proof fn lemma_add_minutes_wraps_day(t: Time, minutes: u8)
    requires
        t.valid(),
        t.minutes + minutes < 120,
    ensures
        t.can_add_minutes(minutes),
        t.with_minutes_added(minutes).valid(),
        t.with_minutes_added(minutes).seconds_of_day() == (t.seconds_of_day() + 60 * minutes)
            % 86400,
{
    let total = t.seconds_of_day() + 60 * minutes;
    if t.minutes + minutes < 60 {
        assert(0 <= total < 86400);
        vstd::arithmetic::div_mod::lemma_small_mod(total as nat, 86400);
    } else {
        let carried = Time { hours: t.hours, minutes: (t.minutes + minutes - 60) as u8, seconds: t.seconds };
        lemma_add_hours_wraps_day(carried, 1);
        assert(carried.seconds_of_day() + 3600 == total);
    }
}

/// On a valid time, `add_seconds` is addition on the 24-hour clock as long as the
/// sum of seconds stays under 120.
pub proof fn lemma_add_seconds_wraps_day(t: Time, seconds: u8)
    requires
        t.valid(),
        t.seconds + seconds < 120,
    ensures
        t.can_add_seconds(seconds),
        t.with_seconds_added(seconds).valid(),
        t.with_seconds_added(seconds).seconds_of_day() == (t.seconds_of_day() + seconds) % 86400,
{
    let total = t.seconds_of_day() + seconds;
    if t.seconds + seconds < 60 {
        assert(0 <= total < 86400);
        vstd::arithmetic::div_mod::lemma_small_mod(total as nat, 86400);
    } else {
        let carried = Time { hours: t.hours, minutes: t.minutes, seconds: (t.seconds + seconds - 60) as u8 };
        lemma_add_minutes_wraps_day(carried, 1);
        assert(carried.seconds_of_day() + 60 == total);
    }
}

} // verus!
