//! Geoid models.
use vstd::prelude::*;

verus! {

/// The geoid models that the C library can be built with
#[derive(Debug, Copy, Clone, PartialEq, Eq, Structural)]
pub enum GeoidModel {
    /// The EGM96 geoid model
    Egm96,
    /// The EGM2008 geoid model
    Egm2008,
}

/// The C library's `geoid_model_t` value `GEOID_MODEL_EGM96`.
pub const GEOID_MODEL_EGM96: u32 = 1;

/// The C library's `geoid_model_t` value `GEOID_MODEL_EGM2008`.
pub const GEOID_MODEL_EGM2008: u32 = 2;

impl GeoidModel {
    /// Converts the C library's `geoid_model_t` value; the value
    /// `GEOID_MODEL_NONE` and unknown values are refused by the precondition.
    pub fn from_geoid_model_t(model: u32) -> (m: GeoidModel)
        requires
            model == GEOID_MODEL_EGM96 || model == GEOID_MODEL_EGM2008,
        ensures
            model == GEOID_MODEL_EGM96 ==> m == GeoidModel::Egm96,
            model == GEOID_MODEL_EGM2008 ==> m == GeoidModel::Egm2008,
    {
        if model == GEOID_MODEL_EGM96 {
            GeoidModel::Egm96
        } else {
            GeoidModel::Egm2008
        }
    }
}

} // verus!
