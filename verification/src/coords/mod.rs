//! Coordinates
//!
//! Positions are given in Earth centered Earth fixed (ECEF) coordinates or as
//! latitude, longitude and height over a reference ellipsoid. This module
//! holds the parts of that model that carry no floating point values: the
//! hemisphere of a coordinate, the markers of angle units and the names of
//! the reference ellipsoids.
mod hemisphere;

pub use hemisphere::{Hemisphere, LatitudinalHemisphere, LongitudinalHemisphere};

use vstd::prelude::*;

verus! {

/// A unit in which angles are given
pub trait Angle {

}

/// Angles given in degrees
#[derive(Copy, Clone, Debug)]
pub struct Degrees {}

impl Angle for Degrees {

}

/// Angles given in radians
#[derive(Copy, Clone, Debug)]
pub struct Radians {}

impl Angle for Radians {

}

/// The World Geodetic System 1984 reference ellipsoid
#[derive(Copy, Clone, Debug)]
pub struct WGS84;

/// The Geodetic Reference System 1980 reference ellipsoid
#[derive(Copy, Clone, Debug)]
pub struct GRS80;

} // verus!
