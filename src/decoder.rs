//! The DCF77 decoder and its date/time record, from the `dcf77_utils` and
//! `radio_datetime_utils` crates.
//!
//! Both are carried as opaque values: the decoder's bookkeeping (pulse
//! classification, parity and BCD decoding, frame assembly) is its own, and
//! nothing here states what it computes. Each call that changes the decoder
//! has a name for the decoder it leaves ([`after_edge`], [`after_second`],
//! [`after_decode`], [`after_reset`]): the decoder is a plain value, so each
//! is a function of the call's arguments. The record's fields are named
//! after their getters. Parts of the hidden state are named besides, because
//! two calls can overflow a counter there:
//!
//! - `handle_new_edge` adds the gap since the stored edge timestamp to that
//!   timestamp when the gap is below the spike limit; where the new timestamp
//!   has wrapped past 2^32 µs below the stored one, the sum overflows. Named:
//!   [`edge_origin`] and [`spike_limit_of`].
//! - `decode_time` adds one to three `u8` counters of the date/time record
//!   (minutes running, summer-time and leap-second announcements), and
//!   compares twice two of them with the first. Named: [`decode_tally`].
//!
//! `decode_time` can also panic when asked to add a minute: where the record
//! holds February with a day after the 29th and the added minute passes
//! midnight, the month's last day is unwrapped from `None`. Named:
//! [`record_of`], [`month_field`], [`day_field`].
//!
//! The callers keep those inputs out, as the `requires` below ask.
use vstd::prelude::*;

use dcf77_utils::DCF77Utils;
use radio_datetime_utils::RadioDateTimeUtils;

verus! {

/// The decoder state of `dcf77_utils`.
#[verifier::external_type_specification]
#[verifier::external_body]
pub struct ExDCF77Utils(DCF77Utils);

/// The date/time record of `radio_datetime_utils`, as the decoder hands it out.
#[verifier::external_type_specification]
#[verifier::external_body]
pub struct ExRadioDateTimeUtils(RadioDateTimeUtils);

/// The timestamp (µs) that the decoder measures the next edge from: `None`
/// while it has seen no edge, else its stored `t0`.
pub uninterp spec fn edge_origin(decoder: DCF77Utils) -> Option<u32>;

/// The decoder's spike limit in µs: shorter gaps between edges are ignored.
pub uninterp spec fn spike_limit_of(decoder: DCF77Utils) -> u32;

/// The largest of the three `u8` counters of the decoder's date/time record
/// that `decode_time` raises: `minutes_running`, `dst_count` and
/// `leap_second_count`.
pub uninterp spec fn decode_tally(decoder: DCF77Utils) -> nat;

/// The decoder after `handle_new_edge(is_high_edge, t)`.
pub uninterp spec fn after_edge(decoder: DCF77Utils, is_high_edge: bool, t: u32) -> DCF77Utils;

/// The decoder after `increase_second()`.
pub uninterp spec fn after_second(decoder: DCF77Utils) -> DCF77Utils;

/// The decoder after `decode_time(need_add_minute, strict_checks)`.
pub uninterp spec fn after_decode(decoder: DCF77Utils, need_add_minute: bool, strict_checks: bool) -> DCF77Utils;

/// The decoder after `reset()`.
pub uninterp spec fn after_reset(decoder: DCF77Utils) -> DCF77Utils;

/// The decoder's new-minute flag, as `is_new_minute` reads it.
pub uninterp spec fn new_minute_of(decoder: DCF77Utils) -> bool;

/// The decoder's date/time record, as `get_radio_datetime` copies it.
pub uninterp spec fn record_of(decoder: DCF77Utils) -> RadioDateTimeUtils;

/// The year of a date/time record, as `get_year` reads it.
pub uninterp spec fn year_field(rdt: RadioDateTimeUtils) -> Option<u8>;

/// The month of a date/time record, as `get_month` reads it.
pub uninterp spec fn month_field(rdt: RadioDateTimeUtils) -> Option<u8>;

/// The day of the month of a date/time record, as `get_day` reads it.
pub uninterp spec fn day_field(rdt: RadioDateTimeUtils) -> Option<u8>;

/// The hour of a date/time record, as `get_hour` reads it.
pub uninterp spec fn hour_field(rdt: RadioDateTimeUtils) -> Option<u8>;

/// The minute of a date/time record, as `get_minute` reads it.
pub uninterp spec fn minute_field(rdt: RadioDateTimeUtils) -> Option<u8>;

/// The leap-second bits of a date/time record, as `get_leap_second` reads them.
pub uninterp spec fn leap_second_field(rdt: RadioDateTimeUtils) -> Option<u8>;

/// A record whose six fields read by this library are all absent.
pub open spec fn record_is_blank(rdt: RadioDateTimeUtils) -> bool {
    &&& year_field(rdt) is None
    &&& month_field(rdt) is None
    &&& day_field(rdt) is None
    &&& hour_field(rdt) is None
    &&& minute_field(rdt) is None
    &&& leap_second_field(rdt) is None
}

/// A record that holds February with a day after the 29th: adding a minute
/// to it across midnight panics.
pub open spec fn february_overrun(month: Option<u8>, day: Option<u8>) -> bool {
    &&& month == Some(2u8)
    &&& day matches Some(d) && d > 29
}

/// The gap from `t0` to `t` in µs, with wrap-around at 2^32.
pub open spec fn wrapped_gap(t0: u32, t: u32) -> int {
    if t >= t0 {
        t - t0
    } else {
        0x1_0000_0000 - t0 + t
    }
}

/// Whether `handle_new_edge` can take timestamp `t` without overflowing: the
/// decoder has no stored edge, or `t` does not lie below the stored one, or
/// the wrapped gap is not a spike (the decoder then stores `t` directly).
pub open spec fn edge_fits(decoder: DCF77Utils, t: u32) -> bool {
    edge_origin(decoder) matches Some(t0) ==> t >= t0 || wrapped_gap(t0, t) >= spike_limit_of(decoder)
}

/// Relies on `DCF77Utils::new`: a decoder that has seen no edge, with the
/// default spike limit of 30 ms, a blank date/time record, and record
/// counters at 0.
pub assume_specification[ DCF77Utils::new ]() -> (r: DCF77Utils)
    ensures
        edge_origin(r) is None,
        spike_limit_of(r) == 30_000,
        decode_tally(r) == 0,
        record_is_blank(record_of(r)),
;

/// Relies on `DCF77Utils::handle_new_edge`: classifies the pulse or pause that
/// ends at microsecond timestamp `t` and updates the decoder's flags and bits.
/// Timestamps are compared with wrap-around at 2^32. The first edge only
/// stores `t`; a spike moves the stored timestamp up by the gap, which lands
/// on `t` where `t` is not below it; any other edge stores `t`. The spike
/// limit and the date/time record are not touched.
pub assume_specification[ DCF77Utils::handle_new_edge ](
    decoder: &mut DCF77Utils,
    is_high_edge: bool,
    t: u32,
)
    requires
        edge_fits(*old(decoder), t),
    ensures
        *final(decoder) == after_edge(*old(decoder), is_high_edge, t),
        edge_origin(*final(decoder)) == Some(t),
        spike_limit_of(*final(decoder)) == spike_limit_of(*old(decoder)),
        decode_tally(*final(decoder)) == decode_tally(*old(decoder)),
;

/// Relies on `DCF77Utils::increase_second`: advances or wraps the decoder's
/// second counter (which wraps below 62); the result tells a normal advance
/// from a forced wrap. Only the second counters change.
pub assume_specification[ DCF77Utils::increase_second ](decoder: &mut DCF77Utils) -> (r: bool)
    ensures
        *final(decoder) == after_second(*old(decoder)),
        edge_origin(*final(decoder)) == edge_origin(*old(decoder)),
        spike_limit_of(*final(decoder)) == spike_limit_of(*old(decoder)),
        decode_tally(*final(decoder)) == decode_tally(*old(decoder)),
;

/// Relies on `DCF77Utils::is_new_minute`: reads the decoder's minute-mark flag.
pub assume_specification[ DCF77Utils::is_new_minute ](decoder: &DCF77Utils) -> (r: bool)
    ensures
        r == new_minute_of(*decoder),
;

/// Relies on `DCF77Utils::decode_time`: decodes the bits of the minute that
/// just ended into the decoder's date/time record. Each of the record's
/// three counters goes up by at most one (or back to 0 at minute 0), and
/// twice a counter must stay within `u8`; adding a minute needs a record
/// that is not a February overrun. The edge timestamp and the spike limit
/// are not touched.
pub assume_specification[ DCF77Utils::decode_time ](
    decoder: &mut DCF77Utils,
    need_add_minute: bool,
    strict_checks: bool,
)
    requires
        decode_tally(*old(decoder)) < 127,
        need_add_minute ==> !february_overrun(
            month_field(record_of(*old(decoder))),
            day_field(record_of(*old(decoder))),
        ),
    ensures
        *final(decoder) == after_decode(*old(decoder), need_add_minute, strict_checks),
        decode_tally(*final(decoder)) <= decode_tally(*old(decoder)) + 1,
        edge_origin(*final(decoder)) == edge_origin(*old(decoder)),
        spike_limit_of(*final(decoder)) == spike_limit_of(*old(decoder)),
;

/// Relies on `DCF77Utils::reset`: forgets the stored edge, the bits, the
/// second counter and the date/time record (whose counters go back to 0);
/// the spike limit goes back to 30 ms.
pub assume_specification[ DCF77Utils::reset ](decoder: &mut DCF77Utils)
    ensures
        *final(decoder) == after_reset(*old(decoder)),
        edge_origin(*final(decoder)) is None,
        spike_limit_of(*final(decoder)) == 30_000,
        decode_tally(*final(decoder)) == 0,
;

/// Relies on `DCF77Utils::get_radio_datetime`: a copy of the decoder's
/// date/time record.
pub assume_specification[ DCF77Utils::get_radio_datetime ](decoder: &DCF77Utils) -> (r: RadioDateTimeUtils)
    ensures
        r == record_of(*decoder),
;

/// Relies on `RadioDateTimeUtils::get_year`: the two-digit year, if known.
pub assume_specification[ RadioDateTimeUtils::get_year ](rdt: &RadioDateTimeUtils) -> (r: Option<u8>)
    ensures
        r == year_field(*rdt),
;

/// Relies on `RadioDateTimeUtils::get_month`: the month, if known.
pub assume_specification[ RadioDateTimeUtils::get_month ](rdt: &RadioDateTimeUtils) -> (r: Option<u8>)
    ensures
        r == month_field(*rdt),
;

/// Relies on `RadioDateTimeUtils::get_day`: the day of the month, if known.
pub assume_specification[ RadioDateTimeUtils::get_day ](rdt: &RadioDateTimeUtils) -> (r: Option<u8>)
    ensures
        r == day_field(*rdt),
;

/// Relies on `RadioDateTimeUtils::get_hour`: the hour, if known.
pub assume_specification[ RadioDateTimeUtils::get_hour ](rdt: &RadioDateTimeUtils) -> (r: Option<u8>)
    ensures
        r == hour_field(*rdt),
;

/// Relies on `RadioDateTimeUtils::get_minute`: the minute, if known.
pub assume_specification[ RadioDateTimeUtils::get_minute ](rdt: &RadioDateTimeUtils) -> (r: Option<u8>)
    ensures
        r == minute_field(*rdt),
;

/// Relies on `RadioDateTimeUtils::get_leap_second`: the leap-second status
/// bits, if known.
pub assume_specification[ RadioDateTimeUtils::get_leap_second ](rdt: &RadioDateTimeUtils) -> (r: Option<u8>)
    ensures
        r == leap_second_field(*rdt),
;

} // verus!
