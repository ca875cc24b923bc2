//! GNSS utility functions: signal identifiers, error detection codes, NMEA
//! helpers, reference frame names, calendar arithmetic, and the settings and
//! status codes of the positioning solver.
pub mod almanac;
pub mod coords;
pub mod edc;
pub mod ephemeris;
pub mod geoid;
pub mod ionosphere;
pub mod math;
pub mod nmea;
pub mod reference_frame;
pub mod signal;
pub mod solver;
pub mod text;
pub mod time;
