//! The hardcoded table of UTC leap seconds.
//!
//! A GPS time counted in whole seconds is `week * 604800 + seconds of week`.
//! The start of each leap second event in the table is such a count; the
//! event lasts one second, after which the new GPS-UTC offset holds. A time
//! that carries a fraction of a second is given here by its whole seconds
//! (rounded down): every event starts on a whole second, so whether the time
//! lies at least one second after an event, or within the event, depends on
//! the whole seconds alone.
use super::calendar::mjd_days_spec;
use super::consts;
use vstd::prelude::*;

verus! {

/// Number of leap second events in the table.
pub const UTC_LEAP_COUNT: usize = 18;

/// GPS week and seconds of week at which the `i`th leap second event starts.
pub open spec fn utc_leap_start(i: int) -> (int, int) {
    if i == 0 {
        (77, 259200)  /* 01-07-1981 */
    } else if i == 1 {
        (129, 345601)  /* 01-07-1982 */
    } else if i == 2 {
        (181, 432002)  /* 01-07-1983 */
    } else if i == 3 {
        (286, 86403)  /* 01-07-1985 */
    } else if i == 4 {
        (416, 432004)  /* 01-01-1988 */
    } else if i == 5 {
        (521, 86405)  /* 01-01-1990 */
    } else if i == 6 {
        (573, 172806)  /* 01-01-1991 */
    } else if i == 7 {
        (651, 259207)  /* 01-07-1992 */
    } else if i == 8 {
        (703, 345608)  /* 01-07-1993 */
    } else if i == 9 {
        (755, 432009)  /* 01-07-1994 */
    } else if i == 10 {
        (834, 86410)  /* 01-01-1996 */
    } else if i == 11 {
        (912, 172811)  /* 01-07-1997 */
    } else if i == 12 {
        (990, 432012)  /* 01-01-1999 */
    } else if i == 13 {
        (1356, 13)  /* 01-01-2006 */
    } else if i == 14 {
        (1512, 345614)  /* 01-01-2009 */
    } else if i == 15 {
        (1695, 15)  /* 01-07-2012 */
    } else if i == 16 {
        (1851, 259216)  /* 01-07-2015 */
    } else {
        (1930, 17)  /* 01-01-2017 */
    }
}

/// The start of the `i`th leap second event, in whole GPS seconds.
pub open spec fn utc_leap_time(i: int) -> int {
    utc_leap_start(i).0 * 604800 + utc_leap_start(i).1
}

/// The GPS-UTC offset after the `i`th leap second event.
pub open spec fn utc_leap_offset(i: int) -> int {
    i + 1
}

/// The offset of the last of the first `n` events that started at least
/// one second before `t`, or 0 if there is none: the table read from the
/// newest event back.
pub open spec fn utc_offset_spec(t: int, n: int) -> int
    decreases n,
{
    if n <= 0 {
        0
    } else if t - utc_leap_time(n - 1) >= 1 {
        utc_leap_offset(n - 1)
    } else {
        utc_offset_spec(t, n - 1)
    }
}

/// Whether `t` lies within one of the first `n` leap second events, reading
/// the table from the newest event back and stopping at the first event
/// that ended before `t`.
pub open spec fn is_leap_second_event_spec(t: int, n: int) -> bool
    decreases n,
{
    if n <= 0 {
        false
    } else if t - utc_leap_time(n - 1) >= 1 {
        false
    } else if t == utc_leap_time(n - 1) {
        true
    } else {
        is_leap_second_event_spec(t, n - 1)
    }
}

/// The bound on whole seconds of week that keeps the arithmetic in range.
pub const MAX_TOW_SECS: i64 = 0x1000_0000_0000_0000;

fn utc_leap_entry(i: usize) -> (r: (i16, i64))
    requires
        i < UTC_LEAP_COUNT,
    ensures
        r.0 == utc_leap_start(i as int).0,
        r.1 == utc_leap_start(i as int).1,
{
    match i {
        0 => (77, 259200),
        1 => (129, 345601),
        2 => (181, 432002),
        3 => (286, 86403),
        4 => (416, 432004),
        5 => (521, 86405),
        6 => (573, 172806),
        7 => (651, 259207),
        8 => (703, 345608),
        9 => (755, 432009),
        10 => (834, 86410),
        11 => (912, 172811),
        12 => (990, 432012),
        13 => (1356, 13),
        14 => (1512, 345614),
        15 => (1695, 15),
        16 => (1851, 259216),
        _ => (1930, 17),
    }
}

/// Seconds from the start of the `i`th leap second event to the given time.
fn since_leap(wn: i16, tow_secs: i64, i: usize) -> (d: i64)
    requires
        i < UTC_LEAP_COUNT,
        -MAX_TOW_SECS <= tow_secs <= MAX_TOW_SECS,
    ensures
        d == wn * 604800 + tow_secs - utc_leap_time(i as int),
{
    let (leap_wn, leap_tow) = utc_leap_entry(i);
    (tow_secs - leap_tow) + (wn as i64 - leap_wn as i64) * 604800
}

/// The number of seconds between GPS and UTC time at GPS week `wn` and
/// whole second of week `tow_secs`, from the hardcoded list of leap seconds.
///
/// The hard coded list of leap seconds will get out of date.
pub fn utc_offset_hardcoded_secs(wn: i16, tow_secs: i64) -> (offset: i32)
    requires
        -MAX_TOW_SECS <= tow_secs <= MAX_TOW_SECS,
    ensures
        offset == utc_offset_spec(wn * 604800 + tow_secs, UTC_LEAP_COUNT as int),
{
    let ghost t = wn * 604800 + tow_secs;
    let mut n: usize = UTC_LEAP_COUNT;
    while n > 0
        invariant
            n <= UTC_LEAP_COUNT,
            t == wn * 604800 + tow_secs,
            -MAX_TOW_SECS <= tow_secs <= MAX_TOW_SECS,
            utc_offset_spec(t, UTC_LEAP_COUNT as int) == utc_offset_spec(t, n as int),
        decreases n,
    {
        if since_leap(wn, tow_secs, n - 1) >= 1 {
            return n as i32;
        }
        n = n - 1;
    }
    /* time is before the first known leap second event */
    0
}

/// Whether the GPS time at week `wn` and whole second of week `tow_secs`
/// lies within a leap second event of the hardcoded list.
///
/// The hard coded list of leap seconds will get out of date.
pub fn is_leap_second_event_hardcoded_secs(wn: i16, tow_secs: i64) -> (b: bool)
    requires
        -MAX_TOW_SECS <= tow_secs <= MAX_TOW_SECS,
    ensures
        b == is_leap_second_event_spec(wn * 604800 + tow_secs, UTC_LEAP_COUNT as int),
{
    let ghost t = wn * 604800 + tow_secs;
    let mut n: usize = UTC_LEAP_COUNT;
    while n > 0
        invariant
            n <= UTC_LEAP_COUNT,
            t == wn * 604800 + tow_secs,
            -MAX_TOW_SECS <= tow_secs <= MAX_TOW_SECS,
            is_leap_second_event_spec(t, UTC_LEAP_COUNT as int) == is_leap_second_event_spec(
                t,
                n as int,
            ),
        decreases n,
    {
        let dt = since_leap(wn, tow_secs, n - 1);
        if dt >= 1 {
            /* time is past the last known leap second event */
            return false;
        }
        if dt == 0 {
            /* time is during the leap second event */
            return true;
        }
        n = n - 1;
    }
    /* time is before the first known leap second event */
    false
}

/// The leap second events in the table are in order of time.
proof fn lemma_leap_times_increasing(i: int, j: int)
    requires
        0 <= i < j < UTC_LEAP_COUNT,
    ensures
        utc_leap_time(i) + 1 < utc_leap_time(j),
    decreases j - i,
{
    if j > i + 1 {
        lemma_leap_times_increasing(i, j - 1);
        lemma_leap_times_increasing(j - 1, j);
    } else {
        assert(utc_leap_time(i) + 1 < utc_leap_time(i + 1));
    }
}

/// The hardcoded GPS-UTC offset counts the leap seconds whose events
/// started at least one second earlier.
pub proof fn lemma_utc_offset_counts_leaps(t: int, n: int)
    requires
        0 <= n <= UTC_LEAP_COUNT,
    ensures
        utc_offset_spec(t, n) == (Set::new(|i: int| 0 <= i < n && t - utc_leap_time(i) >= 1)).len(),
    decreases n,
{
    let s = Set::new(|i: int| 0 <= i < n && t - utc_leap_time(i) >= 1);
    if n == 0 {
        assert(s =~= Set::empty());
    } else {
        if t - utc_leap_time(n - 1) >= 1 {
            assert forall|i: int| 0 <= i < n implies t - utc_leap_time(i) >= 1 by {
                if i < n - 1 {
                    lemma_leap_times_increasing(i, n - 1);
                }
            }
            assert(s =~= Set::new(|i: int| 0 <= i < n));
            vstd::set_lib::lemma_int_range(0, n);
            assert(Set::new(|i: int| 0 <= i < n) =~= vstd::set_lib::set_int_range(0, n));
        } else {
            lemma_utc_offset_counts_leaps(t, n - 1);
            assert(s =~= Set::new(|i: int| 0 <= i < n - 1 && t - utc_leap_time(i) >= 1));
        }
    }
}

/// A time lies within a leap second event of the hardcoded list exactly when
/// it is the starting second of one of the events.
pub proof fn lemma_leap_second_event_is_start(t: int, n: int)
    requires
        0 <= n <= UTC_LEAP_COUNT,
    ensures
        is_leap_second_event_spec(t, n) <==> exists|i: int| 0 <= i < n && utc_leap_time(i) == t,
    decreases n,
{
    if n > 0 {
        lemma_leap_second_event_is_start(t, n - 1);
        if t - utc_leap_time(n - 1) >= 1 {
            assert forall|i: int| 0 <= i < n implies utc_leap_time(i) != t by {
                if i < n - 1 {
                    lemma_leap_times_increasing(i, n - 1);
                }
            }
        } else if t == utc_leap_time(n - 1) {
            assert(utc_leap_time(n - 1) == t);
        }
    }
}

/// The hardcoded offset is one of the table's offsets: between 0 and the
/// number of events.
pub proof fn lemma_utc_offset_range(t: int, n: int)
    requires
        0 <= n <= UTC_LEAP_COUNT,
    ensures
        0 <= utc_offset_spec(t, n) <= n,
    decreases n,
{
    if n > 0 {
        lemma_utc_offset_range(t, n - 1);
    }
}

/// At the start of the `i`th leap second event the offset counts the `i`
/// earlier events; the event's own second is not yet counted.
pub proof fn lemma_utc_offset_at_leap(i: int)
    requires
        0 <= i < UTC_LEAP_COUNT,
    ensures
        utc_offset_spec(utc_leap_time(i), UTC_LEAP_COUNT as int) == i,
{
    let t = utc_leap_time(i);
    lemma_utc_offset_counts_leaps(t, UTC_LEAP_COUNT as int);
    let s = Set::new(|j: int| 0 <= j < UTC_LEAP_COUNT && t - utc_leap_time(j) >= 1);
    assert forall|j: int| s.contains(j) <==> 0 <= j < i by {
        if 0 <= j < i {
            lemma_leap_times_increasing(j, i);
        }
        if i < j < UTC_LEAP_COUNT {
            lemma_leap_times_increasing(i, j);
        }
    }
    vstd::set_lib::lemma_int_range(0, i);
    assert(s =~= vstd::set_lib::set_int_range(0, i));
}

/// Every leap second event of the table is the last second of a UTC day:
/// its start, less the offset in force before it, is a whole number of days
/// after the GPS epoch.
pub proof fn lemma_leap_at_end_of_utc_day(i: int)
    requires
        0 <= i < UTC_LEAP_COUNT,
    ensures
        (utc_leap_time(i) - i) % 86400 == 0,
{
}

/// The published UTC dates (year and month; the first day of the month) on
/// which each leap second of the table took effect: the leap second is the
/// last second of the day before, 23:59:60 UTC.
pub open spec fn utc_leap_date(i: int) -> (int, int) {
    if i == 0 {
        (1981, 7)
    } else if i == 1 {
        (1982, 7)
    } else if i == 2 {
        (1983, 7)
    } else if i == 3 {
        (1985, 7)
    } else if i == 4 {
        (1988, 1)
    } else if i == 5 {
        (1990, 1)
    } else if i == 6 {
        (1991, 1)
    } else if i == 7 {
        (1992, 7)
    } else if i == 8 {
        (1993, 7)
    } else if i == 9 {
        (1994, 7)
    } else if i == 10 {
        (1996, 1)
    } else if i == 11 {
        (1997, 7)
    } else if i == 12 {
        (1999, 1)
    } else if i == 13 {
        (2006, 1)
    } else if i == 14 {
        (2009, 1)
    } else if i == 15 {
        (2012, 7)
    } else if i == 16 {
        (2015, 7)
    } else {
        (2017, 1)
    }
}

/// The GPS second at which UTC midnight starts the date of the `i`th leap
/// second, with the `i` earlier leap seconds and the new one counted: the
/// first GPS second at which the new offset is in force.
pub open spec fn utc_leap_effective_time(i: int) -> int {
    (mjd_days_spec(utc_leap_date(i).0, utc_leap_date(i).1, 1) - consts::MJD_JAN_6_1980) * 86400
        + i + 1
}

/// Each leap second event of the table starts one second before UTC
/// midnight of its published date, counted in GPS seconds since the GPS
/// epoch with the earlier leap seconds included.
pub proof fn lemma_leap_events_at_published_dates(i: int)
    requires
        0 <= i < UTC_LEAP_COUNT,
    ensures
        utc_leap_time(i) + 1 == utc_leap_effective_time(i),
        utc_leap_date(i).1 == 1 || utc_leap_date(i).1 == 7,
{
}

/// The hardcoded GPS-UTC offset at GPS second `t` is the number of
/// published leap seconds whose new offset is in force at `t`.
pub proof fn lemma_utc_offset_counts_published_leaps(t: int)
    ensures
        utc_offset_spec(t, UTC_LEAP_COUNT as int) == (Set::new(
            |i: int| 0 <= i < UTC_LEAP_COUNT && t >= utc_leap_effective_time(i),
        )).len(),
{
    lemma_utc_offset_counts_leaps(t, UTC_LEAP_COUNT as int);
    assert forall|i: int| 0 <= i < UTC_LEAP_COUNT implies utc_leap_time(i) + 1
        == utc_leap_effective_time(i) by {
        lemma_leap_events_at_published_dates(i);
    }
    assert(Set::new(|i: int| 0 <= i < UTC_LEAP_COUNT && t - utc_leap_time(i) >= 1) =~= Set::new(
        |i: int| 0 <= i < UTC_LEAP_COUNT && t >= utc_leap_effective_time(i),
    ));
}

} // verus!
