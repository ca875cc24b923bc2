//! Global Positioning System Fix Data (GGA) sentences: the fix quality and
//! the layout of the sentence's coordinate fields.
use vstd::prelude::*;

verus! {

/// Quality of GPS solution
#[derive(Debug, PartialEq, Eq, Structural, Clone, Copy)]
pub enum GPSQuality {
    /// Fix not available or invalid
    NoFix,
    /// GPS SPS Mode, fix valid
    SPS,
    /// Differential GPS, SPS Mode, fix valid
    DGPS,
    /// GPS PPS (precise positioning service, military encrypted signals), fix valid
    PPS,
    /// RTK (real time kinematic). System used in RTK mode with fixed integers
    RTK,
    /// Float RTK, satelite system used in RTK mode, floating integers
    FRTK,
    /// Estimated (dead reckoning) mode.
    DeadReckoning,
    /// Manual input mode
    Manual,
    /// Simulated mode
    Simulated,
}

impl GPSQuality {
    /// The number that a GGA sentence carries for the quality.
    pub open spec fn indicator(self) -> u8 {
        match self {
            GPSQuality::NoFix => 0,
            GPSQuality::SPS => 1,
            GPSQuality::DGPS => 2,
            GPSQuality::PPS => 3,
            GPSQuality::RTK => 4,
            GPSQuality::FRTK => 5,
            GPSQuality::DeadReckoning => 6,
            GPSQuality::Manual => 7,
            GPSQuality::Simulated => 8,
        }
    }

    /// The quality indicator, as a GGA sentence writes it.
    pub fn to_indicator(&self) -> (d: u8)
        ensures
            d == self.indicator(),
    {
        match self {
            GPSQuality::NoFix => 0,
            GPSQuality::SPS => 1,
            GPSQuality::DGPS => 2,
            GPSQuality::PPS => 3,
            GPSQuality::RTK => 4,
            GPSQuality::FRTK => 5,
            GPSQuality::DeadReckoning => 6,
            GPSQuality::Manual => 7,
            GPSQuality::Simulated => 8,
        }
    }

    /// The quality as it is displayed: its indicator digit.
    pub fn to_string(&self) -> (s: String)
        ensures
            s@ == crate::text::decimal(self.indicator() as nat),
    {
        let mut s = String::new();
        crate::text::push_decimal(&mut s, self.to_indicator() as u64);
        s
    }
}

impl Default for GPSQuality {
    fn default() -> (q: GPSQuality)
        ensures
            q == GPSQuality::NoFix,
    {
        GPSQuality::NoFix
    }
}

/// Errors from reading a GGA sentence
#[derive(Debug, PartialEq, Eq, Structural, Clone, Copy)]
pub enum GGAParseError {
    /// Invalid time format
    InvalidTimeFormat,
    /// Invalid or missing GPS quality
    InvalidGPSQuality,
}

/// The NMEA 0183 limit on the length of a sentence, including the
/// terminating carriage return and line feed.
pub const NMEA_MAX_LEN: usize = 82;

/// The number of characters of a GGA sentence that are neither the tail
/// (the fields after the longitude hemisphere) nor the talker identifier nor
/// the decimal places of the latitude and longitude minutes: `$`, `GGA`, the
/// timestamp, six commas, the degree and whole-minute digits, the two
/// hemispheres, `*`, the checksum and the line end.
pub open spec fn gga_fixed_overhead() -> int {
    34
}

/// The number of decimal places of the latitude and longitude minutes in a
/// GGA sentence with a talker identifier of `talker_id_len` characters and a
/// tail of `tail_len` characters. Without `strict` it is always 7. In strict
/// mode it is the largest count of at most 7 with which the sentence keeps
/// to the 82-character limit (both minutes fields also take a decimal point),
/// or 0 where even one place would not fit.
pub open spec fn minute_decimal_places_spec(strict: bool, talker_id_len: int, tail_len: int) -> int {
    if !strict {
        7
    } else {
        let remaining = NMEA_MAX_LEN - (talker_id_len + gga_fixed_overhead() + tail_len);
        if remaining >= 4 {
            if (remaining - 2) / 2 < 7 {
                (remaining - 2) / 2
            } else {
                7
            }
        } else {
            0
        }
    }
}

/// Decides how many decimal places a GGA sentence gives the latitude and
/// longitude minutes, from the lengths of the talker identifier and of the
/// sentence's tail. See [`minute_decimal_places_spec`].
pub fn gga_minute_decimal_places(strict: bool, talker_id_len: usize, tail_len: usize) -> (dp:
    usize)
    ensures
        dp == minute_decimal_places_spec(strict, talker_id_len as int, tail_len as int),
        dp <= 7,
{
    if strict {
        let remaining: usize = if talker_id_len <= NMEA_MAX_LEN && tail_len <= NMEA_MAX_LEN
            && talker_id_len + 34 + tail_len <= NMEA_MAX_LEN {
            NMEA_MAX_LEN - (talker_id_len + 34 + tail_len)
        } else {
            0
        };
        if remaining >= 4 {
            let dp = (remaining - 2) / 2;
            if dp < 7 {
                dp
            } else {
                7
            }
        } else {
            0
        }
    } else {
        7
    }
}

/// The width of the minutes fields with `dp` decimal places: two digits, and
/// a decimal point and the places where there are any.
pub fn gga_minutes_width(dp: usize) -> (w: usize)
    requires
        dp <= 7,
    ensures
        w == if dp > 0 { 3 + dp } else { 2 },
{
    if dp > 0 {
        3 + dp
    } else {
        2
    }
}

/// In strict mode the decimal places chosen keep the sentence within the
/// 82-character limit: the fixed fields, the tail, the talker identifier and
/// both minutes fields (decimal point and places) add up to at most 82,
/// whenever any decimal places are used.
pub proof fn lemma_strict_gga_fits(talker_id_len: int, tail_len: int)
    requires
        talker_id_len >= 0,
        tail_len >= 0,
    ensures
        ({
            let dp = minute_decimal_places_spec(true, talker_id_len, tail_len);
            dp > 0 ==> talker_id_len + gga_fixed_overhead() + tail_len + 2 * (dp + 1)
                <= NMEA_MAX_LEN
        }),
{
}

} // verus!
