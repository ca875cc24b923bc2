//! GNSS Signals and related functionality
//!
//! Signals are specific to a satellite and code combination. A satellite is
//! identified by its assigned number and the constellation it belongs to. Each
//! satellite can send out multiple signals.
mod code;
mod constellation;
pub mod consts;

pub use code::{
    lemma_code_name_round_trip, lemma_code_repr_round_trip, Code, InvalidCode, InvalidCodeInt,
    CODE_COUNT,
};
pub use constellation::{
    lemma_constellation_name_round_trip, lemma_constellation_repr_round_trip,
    lemma_constellation_rinex_char_round_trip, Constellation, InvalidConstellation,
    InvalidConstellationChar, InvalidConstellationInt, CONSTELLATION_COUNT,
};

use crate::text::{decimal, push_decimal};
use vstd::prelude::*;

verus! {

/// Whether `sat` is a valid PRN of the constellation that broadcasts `code`:
/// at least its first PRN and below the first PRN plus its satellite count.
pub open spec fn valid_sat(sat: u16, code: Code) -> bool {
    let c = code.constellation_spec();
    c.first_prn_spec() <= sat < c.first_prn_spec() + c.sat_count_spec()
}

/// GNSS Signal identifier
#[derive(Debug, Copy, Clone, Ord, PartialOrd, Eq, PartialEq, Hash)]
pub struct GnssSignal {
    code: Code,
    sat: u16,
}

/// An error encountered when converting an integer into a [`GnssSignal`]
/// and satellite number is not in the valid range for the associated constellation
#[derive(Debug, Copy, Clone, Ord, PartialOrd, Eq, PartialEq, Structural, Hash)]
pub struct InvalidSatellite(pub u16);

/// The ways in which a code and satellite pair can fail to name a signal
#[derive(Debug, Copy, Clone, Ord, PartialOrd, Eq, PartialEq, Structural, Hash)]
pub enum InvalidGnssSignal {
    /// The code integer names no code
    InvalidCode(InvalidCodeInt),
    /// The satellite number is out of range for the code's constellation
    InvalidSatellite(InvalidSatellite),
}

impl From<InvalidCodeInt> for InvalidGnssSignal {
    fn from(e: InvalidCodeInt) -> (r: InvalidGnssSignal) {
        InvalidGnssSignal::InvalidCode(e)
    }
}

impl vstd::std_specs::convert::FromSpecImpl<InvalidCodeInt> for InvalidGnssSignal {
    open spec fn obeys_from_spec() -> bool {
        true
    }

    open spec fn from_spec(v: InvalidCodeInt) -> InvalidGnssSignal {
        InvalidGnssSignal::InvalidCode(v)
    }
}

impl From<InvalidSatellite> for InvalidGnssSignal {
    fn from(e: InvalidSatellite) -> (r: InvalidGnssSignal) {
        InvalidGnssSignal::InvalidSatellite(e)
    }
}

impl vstd::std_specs::convert::FromSpecImpl<InvalidSatellite> for InvalidGnssSignal {
    open spec fn obeys_from_spec() -> bool {
        true
    }

    open spec fn from_spec(v: InvalidSatellite) -> InvalidGnssSignal {
        InvalidGnssSignal::InvalidSatellite(v)
    }
}

impl GnssSignal {
    /// Every signal's satellite number is valid for its code.
    #[verifier::type_invariant]
    spec fn well_formed(self) -> bool {
        valid_sat(self.sat, self.code)
    }

    /// The satellite PRN of the signal.
    pub closed spec fn sat_spec(self) -> u16 {
        self.sat
    }

    /// The code of the signal.
    pub closed spec fn code_spec(self) -> Code {
        self.code
    }

    /// The human readable name of the signal: the code's name, a space, and
    /// the satellite number in decimal.
    pub open spec fn name(self) -> Seq<char> {
        self.code_spec().name() + seq![' '] + decimal(self.sat_spec() as nat)
    }

    /// Make a [`GnssSignal`] from its constituent parts, check for a valid satellite PRN
    ///
    /// The `sat` value is checked to be a valid PRN value for the given constellation
    pub fn new(sat: u16, code: Code) -> (r: Result<GnssSignal, InvalidSatellite>)
        ensures
            r is Ok <==> valid_sat(sat, code),
            r matches Ok(s) ==> s.sat_spec() == sat && s.code_spec() == code,
            r matches Err(e) ==> e == InvalidSatellite(sat),
    {
        let constellation = code.to_constellation();
        if sat < constellation.first_prn() || sat >= (constellation.first_prn()
            + constellation.sat_count()) {
            Err(InvalidSatellite(sat))
        } else {
            Ok(GnssSignal { code, sat })
        }
    }

    /// Converts the C library's `gnss_signal_t` value, given by its two
    /// fields. As the C struct's code field is converted to `u8` first, only
    /// its low eight bits count.
    pub fn from_gnss_signal_t(sat: u16, code: i32) -> (r: Result<GnssSignal, InvalidGnssSignal>)
        ensures
            match Code::from_repr_spec((code as u8) as int) {
                None => r == Err::<GnssSignal, InvalidGnssSignal>(
                    InvalidGnssSignal::InvalidCode(InvalidCodeInt(code as u8)),
                ),
                Some(c) => if valid_sat(sat, c) {
                    r matches Ok(s) && s.sat_spec() == sat && s.code_spec() == c
                } else {
                    r == Err::<GnssSignal, InvalidGnssSignal>(
                        InvalidGnssSignal::InvalidSatellite(InvalidSatellite(sat)),
                    )
                },
            },
    {
        let code_int = code as u8;
        match Code::from_repr(code_int) {
            None => Err(InvalidGnssSignal::InvalidCode(InvalidCodeInt(code_int))),
            Some(c) => match GnssSignal::new(sat, c) {
                Ok(s) => Ok(s),
                Err(e) => Err(InvalidGnssSignal::InvalidSatellite(e)),
            },
        }
    }

    /// Converts to the C library's `gnss_signal_t` value, as its two fields
    /// (satellite, code).
    pub fn to_gnss_signal_t(self) -> (r: (u16, i32))
        ensures
            r.0 == self.sat_spec(),
            r.1 == self.code_spec().repr_value(),
    {
        (self.sat, self.code.to_code_t())
    }

    /// Get the satellite PRN of the signal
    pub fn sat(&self) -> (s: u16)
        ensures
            s == self.sat_spec(),
            valid_sat(s, self.code_spec()),
    {
        proof {
            use_type_invariant(self);
        }
        self.sat
    }

    /// Get the [`Code`] of the signal
    pub fn code(&self) -> (c: Code)
        ensures
            c == self.code_spec(),
            valid_sat(self.sat_spec(), c),
    {
        proof {
            use_type_invariant(self);
        }
        self.code
    }

    /// Get the [`Constellation`] of the signal
    pub fn to_constellation(self) -> (c: Constellation)
        ensures
            c == self.code_spec().constellation_spec(),
    {
        self.code.to_constellation()
    }

    /// Makes the human readable signal name
    pub fn to_str(&self) -> (s: String)
        ensures
            s@ == self.name(),
    {
        let mut s = self.code.to_string();
        s.append(" ");
        proof {
            reveal_strlit(" ");
        }
        push_decimal(&mut s, self.sat as u64);
        s
    }

    /// The signal's name as it is displayed, see [`GnssSignal::to_str`].
    pub fn to_string(&self) -> (s: String)
        ensures
            s@ == self.name(),
    {
        self.to_str()
    }
}

} // verus!
