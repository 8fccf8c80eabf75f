//! The decoded wall-clock snapshot that readers get.
use vstd::prelude::*;

use radio_datetime_utils::RadioDateTimeUtils;

use crate::decoder::{
    day_field, hour_field, leap_second_field, minute_field, month_field, record_is_blank, year_field,
};

verus! {

/// Decoded date and time of day; each field is absent until the decoder
/// has produced it.
#[derive(Clone, Copy, Debug, PartialEq, Eq, Structural)]
pub struct WallClock {
    /// Year within the century (0 to 99).
    pub year: Option<u8>,
    pub month: Option<u8>,
    pub day: Option<u8>,
    pub hour: Option<u8>,
    pub minute: Option<u8>,
    /// Leap-second status bits of the decoder.
    pub leap_second: Option<u8>,
}

/// The snapshot with every field absent.
pub open spec fn unknown_spec() -> WallClock {
    WallClock { year: None, month: None, day: None, hour: None, minute: None, leap_second: None }
}

/// The snapshot of a decoder's date/time record: its six fields, copied.
pub open spec fn wall_clock_of(rdt: RadioDateTimeUtils) -> WallClock {
    WallClock {
        year: year_field(rdt),
        month: month_field(rdt),
        day: day_field(rdt),
        hour: hour_field(rdt),
        minute: minute_field(rdt),
        leap_second: leap_second_field(rdt),
    }
}

/// The snapshot of a blank record is the unknown one.
pub proof fn lemma_blank_record_unknown(rdt: RadioDateTimeUtils)
    requires
        record_is_blank(rdt),
    ensures
        wall_clock_of(rdt) == unknown_spec(),
{
}

impl WallClock {
    /// Whether every field is present.
    pub open spec fn is_complete_spec(self) -> bool {
        &&& self.year is Some
        &&& self.month is Some
        &&& self.day is Some
        &&& self.hour is Some
        &&& self.minute is Some
        &&& self.leap_second is Some
    }

    /// Whether every field is absent.
    pub open spec fn is_unknown_spec(self) -> bool {
        self == unknown_spec()
    }

    /// The snapshot with every field absent.
    pub fn unknown() -> (r: WallClock)
        ensures
            r == unknown_spec(),
    {
        WallClock { year: None, month: None, day: None, hour: None, minute: None, leap_second: None }
    }

    /// Whether every field is present.
    pub fn is_complete(&self) -> (r: bool)
        ensures
            r == self.is_complete_spec(),
    {
        self.year.is_some() && self.month.is_some() && self.day.is_some() && self.hour.is_some()
            && self.minute.is_some() && self.leap_second.is_some()
    }

    /// Whether every field is absent.
    pub fn is_unknown(&self) -> (r: bool)
        ensures
            r == self.is_unknown_spec(),
    {
        self.year.is_none() && self.month.is_none() && self.day.is_none() && self.hour.is_none()
            && self.minute.is_none() && self.leap_second.is_none()
    }

    /// Copies the fields of the decoder's date/time record.
    pub fn from_radio(rdt: &RadioDateTimeUtils) -> (r: WallClock)
        ensures
            r == wall_clock_of(*rdt),
    {
        WallClock {
            year: rdt.get_year(),
            month: rdt.get_month(),
            day: rdt.get_day(),
            hour: rdt.get_hour(),
            minute: rdt.get_minute(),
            leap_second: rdt.get_leap_second(),
        }
    }
}

} // verus!
