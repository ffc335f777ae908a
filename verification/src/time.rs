//! The sampled time of day, and the clock it is read from.

use crate::digits::{ones, tens};
use chrono::{DateTime, FixedOffset, Timelike, Utc};
use vstd::prelude::*;

verus! {

/// The offset from UTC, in seconds, at which the clock shows the time
/// (one hour east).
pub const UTC_OFFSET_SECONDS: i32 = 3600;

/// A time of day as the clock's mathematics sees it.
pub struct TimeOfDay {
    pub hour: nat,
    pub minute: nat,
    pub second: nat,
}

impl TimeOfDay {
    /// The hour is one of 0 to 23, the minute and the second one of 0 to 59.
    pub open spec fn valid(self) -> bool {
        &&& self.hour < 24
        &&& self.minute < 60
        &&& self.second < 60
    }

    /// The six digits that the clock shows, from left to right: the tens and
    /// ones of the hour, of the minute and of the second.
    pub open spec fn digits(self) -> Seq<nat> {
        seq![
            tens(self.hour),
            ones(self.hour),
            tens(self.minute),
            ones(self.minute),
            tens(self.second),
            ones(self.second),
        ]
    }
}

/// An offset is one that a clock can be set to when it is less than a day
/// either way.
pub open spec fn valid_offset(offset_seconds: int) -> bool {
    -86_400 < offset_seconds < 86_400
}

/// A time of day read from the clock: an hour from 0 to 23, a minute and a
/// second from 0 to 59.
#[derive(Clone, Copy, Debug, PartialEq, Eq, Structural)]
pub struct SampledTime {
    hour: u32,
    minute: u32,
    second: u32,
}

impl View for SampledTime {
    type V = TimeOfDay;

    closed spec fn view(&self) -> TimeOfDay {
        TimeOfDay { hour: self.hour as nat, minute: self.minute as nat, second: self.second as nat }
    }
}

impl SampledTime {
    /// Every sampled time is a time of day.
    #[verifier::type_invariant]
    pub open spec fn in_range(self) -> bool {
        self@.valid()
    }

    /// The time of day with the given hour, minute and second, if there is
    /// such a time.
    pub fn new(hour: u32, minute: u32, second: u32) -> (time: Option<SampledTime>)
        ensures
            time.is_some() <==> hour < 24 && minute < 60 && second < 60,
            time matches Some(t) ==> t@ == (TimeOfDay {
                hour: hour as nat,
                minute: minute as nat,
                second: second as nat,
            }),
    {
        if hour < 24 && minute < 60 && second < 60 {
            Some(SampledTime { hour, minute, second })
        } else {
            None
        }
    }

    /// Midnight, the time at which every circle is dark.
    pub fn midnight() -> (time: SampledTime)
        ensures
            time@ == (TimeOfDay { hour: 0, minute: 0, second: 0 }),
    {
        SampledTime { hour: 0, minute: 0, second: 0 }
    }

    /// The hour, from 0 to 23.
    pub fn hour(&self) -> (hour: u32)
        ensures
            hour == self@.hour,
            hour < 24,
    {
        proof {
            use_type_invariant(self);
        }
        self.hour
    }

    /// The minute, from 0 to 59.
    pub fn minute(&self) -> (minute: u32)
        ensures
            minute == self@.minute,
            minute < 60,
    {
        proof {
            use_type_invariant(self);
        }
        self.minute
    }

    /// The second, from 0 to 59.
    pub fn second(&self) -> (second: u32)
        ensures
            second == self@.second,
            second < 60,
    {
        proof {
            use_type_invariant(self);
        }
        self.second
    }

    /// The six digits that the clock shows for this time, from left to right.
    pub fn digits(&self) -> (digits: [u32; 6])
        ensures
            digits@.len() == 6,
            forall|i: int| 0 <= i < 6 ==> digits@[i] == #[trigger] self@.digits()[i],
            forall|i: int| 0 <= i < 6 ==> #[trigger] digits@[i] <= 9,
    {
        proof {
            use_type_invariant(self);
        }
        [
            self.hour / 10,
            self.hour % 10,
            self.minute / 10,
            self.minute % 10,
            self.second / 10,
            self.second % 10,
        ]
    }
}

/// `chrono::FixedOffset`, an offset from UTC, carried from where it is made
/// to where the clock is read.
#[verifier::external_type_specification]
#[verifier::external_body]
pub struct ExFixedOffset(FixedOffset);

/// `chrono::FixedOffset::east_opt`: an offset east of UTC is made exactly of
/// a number of seconds that is less than a day either way.
pub assume_specification[ FixedOffset::east_opt ](secs: i32) -> (offset: Option<FixedOffset>)
    ensures
        offset.is_some() <==> valid_offset(secs as int),
;

/// `std::time::SystemTime::now`, taken over by chrono's
/// `DateTime::<Utc>::from`, moved to `offset` by `DateTime::with_timezone` and
/// read through `Timelike::hour`, `minute` and `second`: the hour, minute and
/// second that the system clock shows at that offset. Which time that is
/// depends on the moment of the call; the three numbers are those of a time
/// of day, the hour below 24, the minute and the second below 60 (a leap
/// second shows as second 59). The conversion takes a clock on either side of
/// the year 1970, within the 262 000 years either way that chrono's dates
/// span, and reads no time zone data.
#[verifier::external_body]
fn wall_clock(offset: &FixedOffset) -> (reading: (u32, u32, u32))
    ensures
        reading.0 < 24,
        reading.1 < 60,
        reading.2 < 60,
{
    let now = DateTime::<Utc>::from(std::time::SystemTime::now()).with_timezone(offset);
    (now.hour(), now.minute(), now.second())
}

/// Reads the time of day that the system clock shows `offset_seconds` east of
/// UTC.
pub fn sample(offset_seconds: i32) -> (time: SampledTime)
    requires
        valid_offset(offset_seconds as int),
    ensures
        time@.valid(),
{
    let offset = FixedOffset::east_opt(offset_seconds).unwrap();
    let reading: (u32, u32, u32) = wall_clock(&offset);
    SampledTime::new(reading.0, reading.1, reading.2).unwrap()
}

} // verus!
