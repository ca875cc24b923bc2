//! Ionosphere model errors.
use vstd::prelude::*;

verus! {

/// An error indicating that the iono model failed to be decoded
#[derive(Debug, Copy, Clone, PartialOrd, Ord, PartialEq, Eq, Structural, Hash)]
pub struct IonoDecodeFailure;

} // verus!
