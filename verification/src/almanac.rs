//! Almanac errors and the constellations that almanacs are supported for.
use crate::signal::Constellation;
use vstd::prelude::*;

verus! {

/// An error indicating that the constellation of an almanac is
/// not currently supported
#[derive(Debug, Copy, Clone, PartialOrd, Ord, PartialEq, Eq, Structural, Hash)]
pub struct UnsupportedConstellation(pub Constellation);

/// An error indicating that the raw data being decoded as almanac
/// data was not valid and decoding failed
#[derive(Debug, Copy, Clone, PartialOrd, Ord, PartialEq, Eq, Structural, Hash)]
pub struct DecodingError;

/// Almanacs are supported for GPS and SBAS satellites only.
pub open spec fn almanac_supported(c: Constellation) -> bool {
    c == Constellation::Gps || c == Constellation::Sbas
}

/// Checks that an almanac can be made for a satellite of the given
/// constellation.
pub fn check_almanac_constellation(c: Constellation) -> (r: Result<(), UnsupportedConstellation>)
    ensures
        r is Ok <==> almanac_supported(c),
        r matches Err(e) ==> e == UnsupportedConstellation(c),
{
    match c {
        Constellation::Gps | Constellation::Sbas => Ok(()),
        other => Err(UnsupportedConstellation(other)),
    }
}

} // verus!
