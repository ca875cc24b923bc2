//! Time representations
//!
//! GNSS times are counted in weeks and seconds of week; calendar dates are
//! derived from the number of days since an epoch. This module holds the
//! integer calendar arithmetic: leap years, splitting a count of days into a
//! year, month and day, splitting seconds of a day into hours, minutes and
//! seconds, the day count of a calendar date, and the table of leap seconds.
pub mod consts;
mod calendar;
mod leap;
mod utc;

pub use calendar::{
    date_from_days_since_1601, days_after_month, days_before_year, is_leap_year,
    is_date_of, is_leap_year_spec, lemma_date_mjd_round_trip, lemma_date_valid,
    lemma_mjd_days_counts_calendar, mjd_days_spec, mjd_full_days, time_of_day, trunc_div,
    year_length, UtcDate, MAX_DAYS_SINCE_1601,
};
pub use leap::{
    is_leap_second_event_hardcoded_secs, is_leap_second_event_spec,
    lemma_leap_at_end_of_utc_day, lemma_leap_second_event_is_start, lemma_utc_offset_at_leap,
    lemma_leap_events_at_published_dates, lemma_utc_offset_counts_leaps,
    lemma_utc_offset_counts_published_leaps, lemma_utc_offset_range, utc_leap_date,
    utc_leap_effective_time, utc_leap_offset,
    utc_leap_start, utc_leap_time, utc_offset_hardcoded_secs, utc_offset_spec, MAX_TOW_SECS,
    UTC_LEAP_COUNT,
};
pub use utc::{add_back_leap_second, lemma_leap_second_is_last_of_day, utc_seconds_spec};
