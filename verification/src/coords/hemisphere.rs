//! The hemispheres that a latitude or longitude lies in.
use vstd::prelude::*;

verus! {

/// North or south of the equator
#[derive(Debug, Copy, Clone, PartialEq, Eq, Structural)]
pub enum LatitudinalHemisphere {
    /// North of the equator
    North,
    /// South of the equator
    South,
}

impl LatitudinalHemisphere {
    /// The letter that stands for the hemisphere.
    pub open spec fn letter(self) -> Seq<char> {
        match self {
            LatitudinalHemisphere::North => seq!['N'],
            LatitudinalHemisphere::South => seq!['S'],
        }
    }

    /// The hemisphere as it is displayed: `N` or `S`.
    pub fn to_str(&self) -> (s: &'static str)
        ensures
            s@ == self.letter(),
    {
        proof {
            reveal_strlit("N");
            reveal_strlit("S");
        }
        match self {
            LatitudinalHemisphere::North => "N",
            LatitudinalHemisphere::South => "S",
        }
    }

    /// The hemisphere as it is displayed, as an owned string.
    pub fn to_string(&self) -> (s: String)
        ensures
            s@ == self.letter(),
    {
        String::from_str(self.to_str())
    }
}

/// East or west of the prime meridian
#[derive(Debug, Copy, Clone, PartialEq, Eq, Structural)]
pub enum LongitudinalHemisphere {
    /// East of the prime meridian
    East,
    /// West of the prime meridian
    West,
}

impl LongitudinalHemisphere {
    /// The letter that stands for the hemisphere.
    pub open spec fn letter(self) -> Seq<char> {
        match self {
            LongitudinalHemisphere::East => seq!['E'],
            LongitudinalHemisphere::West => seq!['W'],
        }
    }

    /// The hemisphere as it is displayed: `E` or `W`.
    pub fn to_str(&self) -> (s: &'static str)
        ensures
            s@ == self.letter(),
    {
        proof {
            reveal_strlit("E");
            reveal_strlit("W");
        }
        match self {
            LongitudinalHemisphere::East => "E",
            LongitudinalHemisphere::West => "W",
        }
    }

    /// The hemisphere as it is displayed, as an owned string.
    pub fn to_string(&self) -> (s: String)
        ensures
            s@ == self.letter(),
    {
        String::from_str(self.to_str())
    }
}

/// A latitudinal or a longitudinal hemisphere
#[derive(Debug, Copy, Clone, PartialEq, Eq, Structural)]
pub enum Hemisphere {
    /// North or south
    Latitudinal(LatitudinalHemisphere),
    /// East or west
    Longitudinal(LongitudinalHemisphere),
}

impl Hemisphere {
    /// The letter that stands for the hemisphere.
    pub open spec fn letter(self) -> Seq<char> {
        match self {
            Hemisphere::Latitudinal(h) => h.letter(),
            Hemisphere::Longitudinal(h) => h.letter(),
        }
    }

    /// The hemisphere as it is displayed: the letter of the inner hemisphere.
    pub fn to_str(&self) -> (s: &'static str)
        ensures
            s@ == self.letter(),
    {
        match self {
            Hemisphere::Latitudinal(h) => h.to_str(),
            Hemisphere::Longitudinal(h) => h.to_str(),
        }
    }

    /// The hemisphere as it is displayed, as an owned string.
    pub fn to_string(&self) -> (s: String)
        ensures
            s@ == self.letter(),
    {
        String::from_str(self.to_str())
    }
}

} // verus!
