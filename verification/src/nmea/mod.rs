//! National Marine Electronics Association (NMEA) related structures and
//! formatting utilities.
mod checksum;
mod gga;
mod source;

pub use checksum::{
    calculate_checksum, checksum_spec, lemma_checksum_ignores_dollar,
    lemma_checksum_ignores_tail, xor_until_star, ASTERISK, DOLLAR,
};
pub use gga::{
    gga_minute_decimal_places, gga_minutes_width, GGAParseError, GPSQuality, NMEA_MAX_LEN, lemma_strict_gga_fits, minute_decimal_places_spec,
};
pub use source::Source;
