//! UTC seconds of GPS times, in whole seconds, by the hardcoded table of
//! leap seconds.
use super::leap::{
    is_leap_second_event_spec, lemma_leap_at_end_of_utc_day, lemma_leap_second_event_is_start,
    lemma_utc_offset_at_leap, utc_leap_time, utc_offset_spec, UTC_LEAP_COUNT,
};
use vstd::prelude::*;

verus! {

/// The UTC seconds since the GPS epoch of the whole GPS second `t`, with
/// the seconds of the leap second events left out: the GPS-UTC offset is
/// taken off, and during an event its own second too.
pub open spec fn utc_seconds_spec(t: int) -> int {
    t - utc_offset_spec(t, UTC_LEAP_COUNT as int) - if is_leap_second_event_spec(
        t,
        UTC_LEAP_COUNT as int,
    ) {
        1int
    } else {
        0int
    }
}

/// During a leap second event of the hardcoded list the UTC time, with the
/// event's own second left out, falls on the last second of a day: the clock
/// reads 23:59:59 before the leap second is added back, and 23:59:60 after.
pub proof fn lemma_leap_second_is_last_of_day(t: int)
    requires
        is_leap_second_event_spec(t, UTC_LEAP_COUNT as int),
    ensures
        utc_seconds_spec(t) % 86400 == 86399,
{
    lemma_leap_second_event_is_start(t, UTC_LEAP_COUNT as int);
    let i = choose|i: int| 0 <= i < UTC_LEAP_COUNT && utc_leap_time(i) == t;
    lemma_utc_offset_at_leap(i);
    lemma_leap_at_end_of_utc_day(i);
    assert(utc_seconds_spec(t) == (t - i) - 1);
}

/// Adds a positive leap second back to a UTC reading of hours, minutes and
/// seconds. During a leap second event the reading, taken with the event's
/// own second left out, is 23:59:59 (see [`lemma_leap_second_is_last_of_day`]);
/// with the second added back it is 23:59:60. Outside an event the reading
/// stays as it is.
pub fn add_back_leap_second(hms: (u8, u8, u8), is_leap_second_event: bool) -> (r: (u8, u8, u8))
    requires
        is_leap_second_event ==> hms == (23u8, 59u8, 59u8),
    ensures
        r == if is_leap_second_event {
            (23u8, 59u8, 60u8)
        } else {
            hms
        },
{
    if is_leap_second_event {
        (hms.0, hms.1, hms.2 + 1)
    } else {
        hms
    }
}

} // verus!
