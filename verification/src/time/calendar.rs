//! Gregorian calendar arithmetic.
use super::consts;
use vstd::arithmetic::div_mod::{lemma_fundamental_div_mod, lemma_fundamental_div_mod_converse_div, lemma_mod_bound};
use vstd::prelude::*;

verus! {

/// Whether a year is a leap year in the Gregorian calendar.
pub open spec fn is_leap_year_spec(year: int) -> bool {
    (year % 4 == 0 && year % 100 != 0) || year % 400 == 0
}

/// Number of days of a year.
pub open spec fn year_length(year: int) -> int {
    if is_leap_year_spec(year) {
        366
    } else {
        365
    }
}

/// Number of days from 1 January 1601 to 1 January of `year`.
pub open spec fn days_before_year(year: int) -> int {
    365 * (year - 1601) + ((year - 1) / 4 - (year - 1) / 100 + (year - 1) / 400) - 388
}

/// Number of days of the year before the end of month `month` (0 to 12).
pub open spec fn days_after_month(leap: bool, month: int) -> int {
    if month <= 0 {
        0
    } else if month == 1 {
        31
    } else if month == 2 {
        if leap {
            60
        } else {
            59
        }
    } else {
        let l: int = if leap {
            1
        } else {
            0
        };
        l + if month == 3 {
            90int
        } else if month == 4 {
            120
        } else if month == 5 {
            151
        } else if month == 6 {
            181
        } else if month == 7 {
            212
        } else if month == 8 {
            243
        } else if month == 9 {
            273
        } else if month == 10 {
            304
        } else if month == 11 {
            334
        } else {
            365
        }
    }
}

/// Checks if a year is a leap year
pub fn is_leap_year(year: u16) -> (b: bool)
    ensures
        b == is_leap_year_spec(year as int),
{
    ((year % 4 == 0) && (year % 100 != 0)) || (year % 400 == 0)
}

/// A calendar date, with the day of the year and of the week
#[derive(Debug, Copy, Clone, PartialEq, Eq, Structural)]
pub struct UtcDate {
    /// Number of years AD. In four digit format.
    pub year: u16,
    /// Day of the year (1 - 366).
    pub year_day: u16,
    /// Month of the year (1 - 12). 1 = January, 12 = December.
    pub month: u8,
    /// Day of the month (1 - 31).
    pub month_day: u8,
    /// Day of the week (1 - 7). 1 = Monday, 7 = Sunday.
    pub week_day: u8,
}

/// Whether `date` is the date `days` days after 1 January 1601 (a Monday):
/// its year and day of the year count exactly that many days, its month is
/// the one that the day of the year falls in, and its day of the week
/// counts on from Monday.
pub open spec fn is_date_of(date: UtcDate, days: int) -> bool {
    let leap = is_leap_year_spec(date.year as int);
    &&& days_before_year(date.year as int) + date.year_day - 1 == days
    &&& 1 <= date.year_day <= year_length(date.year as int)
    &&& 1 <= date.month <= 12
    &&& days_after_month(leap, date.month - 1) < date.year_day <= days_after_month(
        leap,
        date.month as int,
    )
    &&& date.month_day == date.year_day - days_after_month(leap, date.month - 1)
    &&& date.week_day == days % 7 + 1
}

/// The largest day count (exclusive) whose year fits in a `u16`.
pub const MAX_DAYS_SINCE_1601: u32 = 23_083_326;

/// Splits a number of seconds of a day into hours, minutes and seconds.
pub fn time_of_day(second_of_day: u32) -> (hms: (u8, u8, u8))
    requires
        second_of_day < consts::DAY_SECS,
    ensures
        hms.0 < 24,
        hms.1 < 60,
        hms.2 < 60,
        hms.0 * 3600 + hms.1 * 60 + hms.2 == second_of_day,
{
    let hour = second_of_day / consts::HOUR_SECS;
    let rest = second_of_day - hour * consts::HOUR_SECS;
    let minute = rest / consts::MINUTE_SECS;
    let second = rest - minute * consts::MINUTE_SECS;
    (hour as u8, minute as u8, second as u8)
}

/// The month of a day of the year and the number of days of the year
/// before that month.
fn month_of_year_day(leap: bool, year_day: u16) -> (r: (u8, u16))
    requires
        1 <= year_day <= if leap {
            366int
        } else {
            365int
        },
    ensures
        1 <= r.0 <= 12,
        days_after_month(leap, r.0 - 1) < year_day <= days_after_month(leap, r.0 as int),
        r.1 == days_after_month(leap, r.0 - 1),
{
    /* Roughly work out the month number */
    let month_guess: u16 = year_day * 32 / 1000;
    let after_next = days_after_month_exec(leap, month_guess + 1);
    /* Check if the guess was out, and what the correction is */
    let month_correction: u16 = if year_day > after_next {
        1
    } else {
        0
    };
    let month = month_guess + month_correction + 1;
    (month as u8, days_after_month_exec(leap, month - 1))
}

fn days_after_month_exec(leap: bool, month: u16) -> (d: u16)
    requires
        month <= 12,
    ensures
        d == days_after_month(leap, month as int),
{
    let l: u16 = if leap {
        1
    } else {
        0
    };
    if month == 0 {
        0
    } else if month == 1 {
        31
    } else if month == 2 {
        59 + l
    } else if month == 3 {
        90 + l
    } else if month == 4 {
        120 + l
    } else if month == 5 {
        151 + l
    } else if month == 6 {
        181 + l
    } else if month == 7 {
        212 + l
    } else if month == 8 {
        243 + l
    } else if month == 9 {
        273 + l
    } else if month == 10 {
        304 + l
    } else if month == 11 {
        334 + l
    } else {
        365 + l
    }
}

/// Converts a number of days since 1 January 1601 into a calendar date.
pub fn date_from_days_since_1601(days_since_1601: u32) -> (date: UtcDate)
    requires
        days_since_1601 < MAX_DAYS_SINCE_1601,
    ensures
        is_date_of(date, days_since_1601 as int),
{
    assert(consts::FOUR_HUNDRED_YEARS_DAYS == 146097);
    assert(consts::HUNDRED_YEARS_DAYS == 36524);
    assert(consts::FOUR_YEARS_DAYS == 1461);
    assert(consts::YEAR_DAYS == 365);
    let d = days_since_1601;
    /* Calculate the number of leap years */
    let num_400_years: u32 = d / 146097;
    let days_left: u32 = d - num_400_years * 146097;
    let num_100_years: u32 = days_left / 36524 - days_left / 146096;
    let days_left2: u32 = days_left - num_100_years * 36524;
    let num_4_years: u32 = days_left2 / 1461;
    let days_left3: u32 = days_left2 - num_4_years * 1461;
    let num_non_leap_years: u32 = days_left3 / 365 - days_left3 / 1460;
    proof {
        lemma_year_split(
            d as int,
            num_400_years as int,
            num_100_years as int,
            num_4_years as int,
            num_non_leap_years as int,
            days_left3 as int,
        );
    }

    /* Calculate the total number of years */
    let year: u16 = (1601 + num_400_years * 400 + num_100_years * 100 + num_4_years * 4
        + num_non_leap_years) as u16;

    /* Calculate the day of the current year */
    let year_day = (days_left3 - num_non_leap_years * 365 + 1) as u16;

    /* Work out if it is currently a leap year */
    let leap = is_leap_year(year);
    let (month, before) = month_of_year_day(leap, year_day);
    let month_day = (year_day - before) as u8;

    /* Calculate the day of the week. 1 Jan 1601 was a Monday */
    let week_day = (d % 7 + 1) as u8;

    UtcDate { year, year_day, month, month_day, week_day }
}

/// The year split of [`date_from_days_since_1601`] is exact.
proof fn lemma_year_split(d: int, a: int, b: int, c: int, e: int, r: int)
    requires
        0 <= d < MAX_DAYS_SINCE_1601,
        a == d / 146097,
        b == (d - a * 146097) / 36524 - (d - a * 146097) / 146096,
        c == (d - a * 146097 - b * 36524) / 1461,
        r == d - a * 146097 - b * 36524 - c * 1461,
        e == r / 365 - r / 1460,
    ensures
        ({
            let year = 1601 + 400 * a + 100 * b + 4 * c + e;
            let yd = r - 365 * e + 1;
            &&& 0 <= a < 158
            &&& 0 <= b <= 3
            &&& 0 <= c <= 24
            &&& 0 <= e <= 3
            &&& 0 <= r <= 1460
            &&& days_before_year(year) + yd - 1 == d
            &&& 1 <= yd <= year_length(year)
        }),
{
    let r1 = d - a * 146097;
    assert(0 <= r1 < 146097);
    assert(0 <= a < 158);
    if r1 == 146096 {
        assert(b == 3);
    } else {
        assert(r1 / 146096 == 0);
        assert(0 <= b <= 3);
    }
    let r2 = r1 - b * 36524;
    assert(0 <= r2 <= 36524);
    assert(0 <= c <= 24);
    assert(0 <= r <= 1460);
    if r == 1460 {
        assert(e == 3);
    } else {
        assert(r / 1460 == 0);
        assert(0 <= e <= 3);
        assert(r - 365 * e < 365);
    }
    let year = 1601 + 400 * a + 100 * b + 4 * c + e;
    let y1 = year - 1;
    assert(y1 / 4 == 400 + 100 * a + 25 * b + c);
    assert(y1 / 100 == 16 + 4 * a + b);
    assert(y1 / 400 == 4 + a);
    assert(days_before_year(year) == 146097 * a + 36524 * b + 1461 * c + 365 * e);
    if r == 1460 {
        assert(year % 4 == 0);
        if c == 24 {
            assert(r2 == 36524);
            assert(r1 == 146096);
            assert(b == 3);
            assert(year % 400 == 0);
        } else {
            assert(year % 100 != 0);
        }
        assert(is_leap_year_spec(year));
    }
}

/// Every date produced from a day count is a valid calendar date.
pub proof fn lemma_date_valid(date: UtcDate, days: int)
    requires
        is_date_of(date, days),
    ensures
        1 <= date.month <= 12,
        1 <= date.month_day <= 31,
        1 <= date.week_day <= 7,
        1 <= date.year_day <= 366,
{

}

/// Integer division rounding toward zero, as Rust's `/` on signed integers.
pub open spec fn trunc_div(x: int, k: int) -> int {
    if x >= 0 {
        x / k
    } else {
        -((-x) / k)
    }
}

/// The whole modified Julian days of a calendar date, by the formula of
/// [`mjd_full_days`].
pub open spec fn mjd_days_spec(year: int, month: int, day: int) -> int {
    367 * year - trunc_div(7 * (year + trunc_div(month + 9, 12)), 4) - trunc_div(
        3 * (trunc_div(year + trunc_div(month - 9, 7), 100) + 1),
        4,
    ) + trunc_div(275 * month, 9) + day + 1721028 - 2400000
}

/// The number of whole days from the modified Julian date epoch
/// (17 November 1858) to the start of the given calendar date.
pub fn mjd_full_days(year: u16, month: u8, day: u8) -> (d: i64)
    ensures
        d == mjd_days_spec(year as int, month as int, day as int),
{
    let year = year as i64;
    let month = month as i64;
    let day = day as i64;
    367 * year - 7 * (year + (month + 9) / 12) / 4 - 3 * ((year + (month - 9) / 7) / 100 + 1) / 4
        + 275 * month / 9 + day + 1721028 - 2400000
}

proof fn lemma_floor_parts(x: int)
    requires
        x >= 0,
    ensures
        (7 * x) / 4 == 2 * x - (x + 3) / 4,
        (3 * (x / 100 + 1)) / 4 == x / 100 - x / 400,
{
    let k = (x + 3) / 4;
    lemma_fundamental_div_mod_converse_div(7 * x, 4, 2 * x - k, 7 * x - 4 * (2 * x - k));
    let c = x / 100;
    let j = c / 4;
    lemma_fundamental_div_mod_converse_div(3 * c + 3, 4, c - j, 3 * c + 3 - 4 * (c - j));
    lemma_fundamental_div_mod_converse_div(x, 400, j, x - 400 * j);
}

proof fn lemma_prev_div(y: int, d: int)
    requires
        y >= 1,
        d > 0,
    ensures
        (y - 1) / d == if y % d == 0 {
            y / d - 1
        } else {
            y / d
        },
{
    let q = y / d;
    let r = y % d;
    assert(y == q * d + r) by {
        lemma_fundamental_div_mod(y, d);
    }
    assert(0 <= r < d) by {
        lemma_mod_bound(y, d);
    }
    if r == 0 {
        assert(y - 1 == (q - 1) * d + (d - 1)) by (nonlinear_arith)
            requires
                y == q * d + r,
                r == 0,
        ;
        lemma_fundamental_div_mod_converse_div(y - 1, d, q - 1, d - 1);
    } else {
        lemma_fundamental_div_mod_converse_div(y - 1, d, q, r - 1);
    }
}

/// The modified Julian day formula counts the days of the Gregorian
/// calendar: for every year from 1 on and every month, it gives the days
/// before the year since 1 January 1601, plus the days of the year before the
/// month, plus the day of the month, less one, shifted by the modified Julian
/// day of 1 January 1601.
pub proof fn lemma_mjd_days_counts_calendar(year: int, month: int, day: int)
    requires
        1 <= year,
        1 <= month <= 12,
    ensures
        mjd_days_spec(year, month, day) == days_before_year(year) + days_after_month(
            is_leap_year_spec(year),
            month - 1,
        ) + day - 1 + consts::MJD_JAN_1_1601,
{
    lemma_prev_div(year, 4);
    lemma_prev_div(year, 100);
    lemma_prev_div(year, 400);
    if month <= 2 {
        assert(trunc_div(month - 9, 7) == -1);
        assert(trunc_div(month + 9, 12) == 0);
        lemma_floor_parts(year);
        lemma_floor_parts(year - 1);
        assert((year + 3) / 4 == (year - 1) / 4 + 1) by {
            lemma_fundamental_div_mod_converse_div(year + 3, 4, (year - 1) / 4 + 1, (year - 1) % 4);
        }
    } else {
        assert(trunc_div(month - 9, 7) == 0);
        assert(trunc_div(month + 9, 12) == 1);
        lemma_floor_parts(year + 1);
        lemma_floor_parts(year);
        assert((year + 4) / 4 == year / 4 + 1) by {
            lemma_fundamental_div_mod_converse_div(year + 4, 4, year / 4 + 1, year % 4);
        }
    }
}

/// Splitting a day count into a date and computing the date's modified
/// Julian day gives the day count back: the date of `days` days after
/// 1 January 1601 has the modified Julian day `days - 94187`.
pub proof fn lemma_date_mjd_round_trip(date: UtcDate, days: int)
    requires
        is_date_of(date, days),
        days >= 0,
    ensures
        mjd_days_spec(date.year as int, date.month as int, date.month_day as int) == days
            + consts::MJD_JAN_1_1601,
{
    assert(date.year >= 1) by {
        if date.year == 0 {
            assert(days_before_year(0) == -584754);
        }
    }
    lemma_mjd_days_counts_calendar(date.year as int, date.month as int, date.month_day as int);
}

} // verus!
