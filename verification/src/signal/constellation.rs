//! GNSS satellite constellations.
use super::consts;
use crate::text::{str_matches, variant_not_found};
use vstd::prelude::*;

verus! {

/// GNSS satellite constellations
#[derive(Debug, Copy, Clone, Ord, PartialOrd, Eq, PartialEq, Structural, Hash)]
pub enum Constellation {
    /// GPS
    Gps,
    /// SBAS - Space based augmentation systems
    Sbas,
    /// GLONASS
    Glo,
    /// Beidou
    Bds,
    /// QZSS
    Qzs,
    /// Galileo
    Gal,
}

/// Number of constellations.
pub const CONSTELLATION_COUNT: u8 = 6;

impl Constellation {
    /// The integer that identifies the constellation (its position in the
    /// declaration, the value that the C library uses too).
    pub open spec fn repr_value(self) -> u8 {
        match self {
            Constellation::Gps => 0,
            Constellation::Sbas => 1,
            Constellation::Glo => 2,
            Constellation::Bds => 3,
            Constellation::Qzs => 4,
            Constellation::Gal => 5,
        }
    }

    /// The constellation identified by an integer, if any.
    pub open spec fn from_repr_spec(v: int) -> Option<Constellation> {
        if v == 0 {
            Some(Constellation::Gps)
        } else if v == 1 {
            Some(Constellation::Sbas)
        } else if v == 2 {
            Some(Constellation::Glo)
        } else if v == 3 {
            Some(Constellation::Bds)
        } else if v == 4 {
            Some(Constellation::Qzs)
        } else if v == 5 {
            Some(Constellation::Gal)
        } else {
            None
        }
    }

    /// The specified maximum number of active satellites.
    pub open spec fn sat_count_spec(self) -> u16 {
        match self {
            Constellation::Gps => consts::NUM_SATS_GPS,
            Constellation::Sbas => consts::NUM_SATS_SBAS,
            Constellation::Glo => consts::NUM_SATS_GLO,
            Constellation::Bds => consts::NUM_SATS_BDS,
            Constellation::Gal => consts::NUM_SATS_GAL,
            Constellation::Qzs => consts::NUM_SATS_QZS,
        }
    }

    /// The first PRN value used by the constellation.
    pub open spec fn first_prn_spec(self) -> u16 {
        match self {
            Constellation::Gps => consts::GPS_FIRST_PRN,
            Constellation::Sbas => consts::SBAS_FIRST_PRN,
            Constellation::Glo => consts::GLO_FIRST_PRN,
            Constellation::Bds => consts::BDS_FIRST_PRN,
            Constellation::Gal => consts::GAL_FIRST_PRN,
            Constellation::Qzs => consts::QZS_FIRST_PRN,
        }
    }

    /// The human readable name of the constellation.
    pub open spec fn name(self) -> Seq<char> {
        match self {
            Constellation::Gps => seq!['G', 'P', 'S'],
            Constellation::Sbas => seq!['S', 'B', 'A', 'S'],
            Constellation::Glo => seq!['G', 'L', 'O'],
            Constellation::Bds => seq!['B', 'D', 'S'],
            Constellation::Qzs => seq!['Q', 'Z', 'S'],
            Constellation::Gal => seq!['G', 'A', 'L'],
        }
    }

    /// The constellation that carries a name, if any.
    pub open spec fn from_name_spec(s: Seq<char>) -> Option<Constellation> {
        if s == Constellation::Gps.name() {
            Some(Constellation::Gps)
        } else if s == Constellation::Sbas.name() {
            Some(Constellation::Sbas)
        } else if s == Constellation::Glo.name() {
            Some(Constellation::Glo)
        } else if s == Constellation::Bds.name() {
            Some(Constellation::Bds)
        } else if s == Constellation::Qzs.name() {
            Some(Constellation::Qzs)
        } else if s == Constellation::Gal.name() {
            Some(Constellation::Gal)
        } else {
            None
        }
    }

    /// The RINEX character abbreviation of the constellation.
    pub open spec fn rinex_char(self) -> char {
        match self {
            Constellation::Gps => 'G',
            Constellation::Sbas => 'S',
            Constellation::Glo => 'R',
            Constellation::Bds => 'C',
            Constellation::Gal => 'E',
            Constellation::Qzs => 'J',
        }
    }

    /// The constellation that a RINEX character abbreviation stands for, if any.
    pub open spec fn from_rinex_char_spec(c: char) -> Option<Constellation> {
        if c == 'G' {
            Some(Constellation::Gps)
        } else if c == 'S' {
            Some(Constellation::Sbas)
        } else if c == 'R' {
            Some(Constellation::Glo)
        } else if c == 'C' {
            Some(Constellation::Bds)
        } else if c == 'E' {
            Some(Constellation::Gal)
        } else if c == 'J' {
            Some(Constellation::Qzs)
        } else {
            None
        }
    }

    /// Gets the specified maximum number of active satellites for the constellation
    pub fn sat_count(self) -> (n: u16)
        ensures
            n == self.sat_count_spec(),
    {
        match self {
            Constellation::Gps => consts::NUM_SATS_GPS,
            Constellation::Sbas => consts::NUM_SATS_SBAS,
            Constellation::Glo => consts::NUM_SATS_GLO,
            Constellation::Bds => consts::NUM_SATS_BDS,
            Constellation::Gal => consts::NUM_SATS_GAL,
            Constellation::Qzs => consts::NUM_SATS_QZS,
        }
    }

    /// Get the first PRN value used by the constellation
    pub fn first_prn(self) -> (p: u16)
        ensures
            p == self.first_prn_spec(),
    {
        match self {
            Constellation::Gps => consts::GPS_FIRST_PRN,
            Constellation::Sbas => consts::SBAS_FIRST_PRN,
            Constellation::Glo => consts::GLO_FIRST_PRN,
            Constellation::Bds => consts::BDS_FIRST_PRN,
            Constellation::Gal => consts::GAL_FIRST_PRN,
            Constellation::Qzs => consts::QZS_FIRST_PRN,
        }
    }

    /// Get the human readable name of the constellation.
    pub fn to_str(&self) -> (s: &'static str)
        ensures
            s@ == self.name(),
    {
        match self {
            Constellation::Gps => {
                proof {
                    reveal_strlit("GPS");
                }
                "GPS"
            },
            Constellation::Sbas => {
                proof {
                    reveal_strlit("SBAS");
                }
                "SBAS"
            },
            Constellation::Glo => {
                proof {
                    reveal_strlit("GLO");
                }
                "GLO"
            },
            Constellation::Bds => {
                proof {
                    reveal_strlit("BDS");
                }
                "BDS"
            },
            Constellation::Qzs => {
                proof {
                    reveal_strlit("QZS");
                }
                "QZS"
            },
            Constellation::Gal => {
                proof {
                    reveal_strlit("GAL");
                }
                "GAL"
            },
        }
    }

    /// The constellation's name as an owned string, as it is displayed.
    pub fn to_string(&self) -> (s: String)
        ensures
            s@ == self.name(),
    {
        String::from_str(self.to_str())
    }

    /// The constellation with the given integer value (see
    /// [`Constellation::repr_value`]), if any.
    pub fn from_repr(value: u8) -> (c: Option<Constellation>)
        ensures
            c == Constellation::from_repr_spec(value as int),
    {
        match value {
            0 => Some(Constellation::Gps),
            1 => Some(Constellation::Sbas),
            2 => Some(Constellation::Glo),
            3 => Some(Constellation::Bds),
            4 => Some(Constellation::Qzs),
            5 => Some(Constellation::Gal),
            _ => None,
        }
    }

    /// The integer value of the constellation.
    pub fn to_u8(self) -> (v: u8)
        ensures
            v == self.repr_value(),
    {
        match self {
            Constellation::Gps => 0,
            Constellation::Sbas => 1,
            Constellation::Glo => 2,
            Constellation::Bds => 3,
            Constellation::Qzs => 4,
            Constellation::Gal => 5,
        }
    }

    /// Parses the human readable name of a constellation, as
    /// [`Constellation::to_str`] writes it.
    pub fn from_name(s: &str) -> (r: Result<Constellation, strum::ParseError>)
        ensures
            r is Ok <==> Constellation::from_name_spec(s@) is Some,
            r matches Ok(c) ==> Constellation::from_name_spec(s@) == Some(c),
    {
        let mut i: u8 = 0;
        while i < CONSTELLATION_COUNT
            invariant
                i <= CONSTELLATION_COUNT,
                forall|j: int|
                    0 <= j < i ==> Constellation::from_repr_spec(j).unwrap().name() != s@,
            decreases CONSTELLATION_COUNT - i,
        {
            let c = Constellation::from_repr(i).unwrap();
            if str_matches(s, c.to_str()) {
                proof {
                    lemma_constellation_name_round_trip(c);
                }
                return Ok(c);
            }
            i = i + 1;
        }
        proof {
            assert(Constellation::from_repr_spec(0).unwrap().name() != s@);
            assert(Constellation::from_repr_spec(1).unwrap().name() != s@);
            assert(Constellation::from_repr_spec(2).unwrap().name() != s@);
            assert(Constellation::from_repr_spec(3).unwrap().name() != s@);
            assert(Constellation::from_repr_spec(4).unwrap().name() != s@);
            assert(Constellation::from_repr_spec(5).unwrap().name() != s@);
        }
        Err(variant_not_found())
    }
}

/// An error encountered when converting an integer into a [`Constellation`]
/// and no constellation is associated with the given value
#[derive(Debug, Copy, Clone, Ord, PartialOrd, Eq, PartialEq, Structural, Hash)]
pub struct InvalidConstellationInt(pub u8);

/// An error encountered when converting a character into a [`Constellation`]
/// and no constellation is associated with the given character
#[derive(Debug, Copy, Clone, Ord, PartialOrd, Eq, PartialEq, Structural, Hash)]
pub struct InvalidConstellationChar(pub char);

/// An error encountered when converting a C library constellation value
/// into a [`Constellation`] and the value names no constellation
#[derive(Debug, Copy, Clone, Ord, PartialOrd, Eq, PartialEq, Structural, Hash)]
pub struct InvalidConstellation(pub i32);

impl Constellation {
    /// Converts the C library's `constellation_t` value. The C enumeration
    /// numbers the constellations as [`Constellation::repr_value`] does.
    pub fn from_constellation_t(value: i32) -> (r: Result<Constellation, InvalidConstellation>)
        ensures
            match Constellation::from_repr_spec(value as int) {
                Some(c) => r == Ok::<Constellation, InvalidConstellation>(c),
                None => r == Err::<Constellation, InvalidConstellation>(InvalidConstellation(value)),
            },
    {
        if 0 <= value && value < CONSTELLATION_COUNT as i32 {
            Ok(Constellation::from_repr(value as u8).unwrap())
        } else {
            Err(InvalidConstellation(value))
        }
    }

    /// Converts to the C library's `constellation_t` value.
    pub fn to_constellation_t(self) -> (v: i32)
        ensures
            v == self.repr_value(),
    {
        self.to_u8() as i32
    }

    /// All constellations, in declaration order.
    pub fn iter() -> (all: Vec<Constellation>)
        ensures
            all@.len() == CONSTELLATION_COUNT,
            forall|i: int|
                0 <= i < all@.len() ==> Some(#[trigger] all@[i]) == Constellation::from_repr_spec(i),
    {
        let mut all: Vec<Constellation> = Vec::new();
        let mut i: u8 = 0;
        while i < CONSTELLATION_COUNT
            invariant
                i <= CONSTELLATION_COUNT,
                all@.len() == i,
                forall|j: int|
                    0 <= j < i ==> Some(#[trigger] all@[j]) == Constellation::from_repr_spec(j),
            decreases CONSTELLATION_COUNT - i,
        {
            all.push(Constellation::from_repr(i).unwrap());
            i = i + 1;
        }
        all
    }
}

impl core::convert::TryFrom<u8> for Constellation {
    type Error = InvalidConstellationInt;

    fn try_from(value: u8) -> (r: Result<Constellation, InvalidConstellationInt>) {
        match Constellation::from_repr(value) {
            Some(c) => Ok(c),
            None => Err(InvalidConstellationInt(value)),
        }
    }
}

impl vstd::std_specs::convert::TryFromSpecImpl<u8> for Constellation {
    open spec fn obeys_try_from_spec() -> bool {
        true
    }

    open spec fn try_from_spec(v: u8) -> Result<Constellation, InvalidConstellationInt> {
        match Constellation::from_repr_spec(v as int) {
            Some(c) => Ok(c),
            None => Err(InvalidConstellationInt(v)),
        }
    }
}

/// The character abbreviations used follow the RINEX conventions
impl core::convert::From<Constellation> for char {
    fn from(c: Constellation) -> (r: char) {
        match c {
            Constellation::Gps => 'G',
            Constellation::Sbas => 'S',
            Constellation::Glo => 'R',
            Constellation::Bds => 'C',
            Constellation::Gal => 'E',
            Constellation::Qzs => 'J',
        }
    }
}

impl vstd::std_specs::convert::FromSpecImpl<Constellation> for char {
    open spec fn obeys_from_spec() -> bool {
        true
    }

    open spec fn from_spec(v: Constellation) -> char {
        v.rinex_char()
    }
}

/// The character abbreviations used follow the RINEX conventions
impl core::convert::TryFrom<char> for Constellation {
    type Error = InvalidConstellationChar;

    fn try_from(c: char) -> (r: Result<Constellation, InvalidConstellationChar>) {
        match c {
            'G' => Ok(Constellation::Gps),
            'S' => Ok(Constellation::Sbas),
            'R' => Ok(Constellation::Glo),
            'C' => Ok(Constellation::Bds),
            'E' => Ok(Constellation::Gal),
            'J' => Ok(Constellation::Qzs),
            _ => Err(InvalidConstellationChar(c)),
        }
    }
}

impl vstd::std_specs::convert::TryFromSpecImpl<char> for Constellation {
    open spec fn obeys_try_from_spec() -> bool {
        true
    }

    open spec fn try_from_spec(v: char) -> Result<Constellation, InvalidConstellationChar> {
        match Constellation::from_rinex_char_spec(v) {
            Some(c) => Ok(c),
            None => Err(InvalidConstellationChar(v)),
        }
    }
}

impl core::str::FromStr for Constellation {
    type Err = strum::ParseError;

    fn from_str(s: &str) -> (r: Result<Constellation, strum::ParseError>)
        ensures
            r is Ok <==> Constellation::from_name_spec(s@) is Some,
            r matches Ok(c) ==> Constellation::from_name_spec(s@) == Some(c),
    {
        Constellation::from_name(s)
    }
}

/// Converting a constellation to its integer value and back gives it back.
pub proof fn lemma_constellation_repr_round_trip(c: Constellation)
    ensures
        Constellation::from_repr_spec(c.repr_value() as int) == Some(c),
{
}

/// Converting a constellation to its RINEX character and back gives it back.
pub proof fn lemma_constellation_rinex_char_round_trip(c: Constellation)
    ensures
        Constellation::from_rinex_char_spec(c.rinex_char()) == Some(c),
{
}

/// Parsing a constellation's name gives the constellation back.
pub proof fn lemma_constellation_name_round_trip(c: Constellation)
    ensures
        Constellation::from_name_spec(c.name()) == Some(c),
{
    match c {
        Constellation::Gps => {},
        Constellation::Sbas => {
            assert(Constellation::Sbas.name() != Constellation::Gps.name()) by {
                assert(Constellation::Sbas.name().len() != Constellation::Gps.name().len());
            }
        },
        Constellation::Glo => {
            assert(Constellation::Glo.name()[1] != Constellation::Gps.name()[1]);
        },
        Constellation::Bds => {
            assert(Constellation::Bds.name()[0] != Constellation::Gps.name()[0]);
            assert(Constellation::Bds.name()[0] != Constellation::Glo.name()[0]);
        },
        Constellation::Qzs => {
            assert(Constellation::Qzs.name()[0] != Constellation::Gps.name()[0]);
            assert(Constellation::Qzs.name()[0] != Constellation::Glo.name()[0]);
            assert(Constellation::Qzs.name()[0] != Constellation::Bds.name()[0]);
        },
        Constellation::Gal => {
            assert(Constellation::Gal.name()[1] != Constellation::Gps.name()[1]);
            assert(Constellation::Gal.name()[1] != Constellation::Glo.name()[1]);
            assert(Constellation::Gal.name()[0] != Constellation::Bds.name()[0]);
            assert(Constellation::Gal.name()[0] != Constellation::Qzs.name()[0]);
        },
    }
}

} // verus!
