//! Ephemeris status
//!
//! Broadcast ephemerides are evaluated by the C library; what the Rust side
//! decides is what the library's status codes mean.
use vstd::prelude::*;

verus! {

/// Different ways an ephemeris can be invalid
#[derive(Debug, Copy, Clone, PartialOrd, Ord, PartialEq, Eq, Structural, Hash)]
pub enum InvalidEphemeris {
    /// The ephemeris holds no data
    Null,
    /// The ephemeris is flagged invalid
    Invalid,
    /// The week number is zero
    WnEqualsZero,
    /// The fit interval is zero
    FitIntervalEqualsZero,
    /// The satellite is unhealthy
    Unhealthy,
    /// The ephemeris is too old
    TooOld,
    /// The signal identifier is invalid
    InvalidSid,
    /// The issue of data is invalid
    InvalidIod,
}

/// Various statuses that an ephemeris can be in
#[derive(Debug, Copy, Clone, PartialOrd, Ord, PartialEq, Eq, Structural, Hash)]
pub enum Status {
    /// The ephemeris is invalid for the given reason
    Invalid(InvalidEphemeris),
    /// The ephemeris is valid
    Valid,
}

/// The C library's `ephemeris_status_t` value `EPH_NULL`.
pub const EPH_NULL: u32 = 0;
/// The C library's `ephemeris_status_t` value `EPH_INVALID`.
pub const EPH_INVALID: u32 = 1;
/// The C library's `ephemeris_status_t` value `EPH_WN_EQ_0`.
pub const EPH_WN_EQ_0: u32 = 2;
/// The C library's `ephemeris_status_t` value `EPH_FIT_INTERVAL_EQ_0`.
pub const EPH_FIT_INTERVAL_EQ_0: u32 = 3;
/// The C library's `ephemeris_status_t` value `EPH_UNHEALTHY`.
pub const EPH_UNHEALTHY: u32 = 4;
/// The C library's `ephemeris_status_t` value `EPH_TOO_OLD`.
pub const EPH_TOO_OLD: u32 = 5;
/// The C library's `ephemeris_status_t` value `EPH_INVALID_SID`.
pub const EPH_INVALID_SID: u32 = 6;
/// The C library's `ephemeris_status_t` value `EPH_INVALID_IOD`.
pub const EPH_INVALID_IOD: u32 = 7;
/// The C library's `ephemeris_status_t` value `EPH_VALID`.
pub const EPH_VALID: u32 = 8;

/// The status values that [`Status::from_ephemeris_status_t`] converts.
pub open spec fn is_convertible_status(value: u32) -> bool {
    value <= EPH_TOO_OLD || value == EPH_VALID
}

impl Status {
    /// The status that a C library status value stands for.
    pub open spec fn from_status_spec(value: u32) -> Status {
        if value == EPH_NULL {
            Status::Invalid(InvalidEphemeris::Null)
        } else if value == EPH_INVALID {
            Status::Invalid(InvalidEphemeris::Invalid)
        } else if value == EPH_WN_EQ_0 {
            Status::Invalid(InvalidEphemeris::WnEqualsZero)
        } else if value == EPH_FIT_INTERVAL_EQ_0 {
            Status::Invalid(InvalidEphemeris::FitIntervalEqualsZero)
        } else if value == EPH_UNHEALTHY {
            Status::Invalid(InvalidEphemeris::Unhealthy)
        } else if value == EPH_TOO_OLD {
            Status::Invalid(InvalidEphemeris::TooOld)
        } else {
            Status::Valid
        }
    }

    /// Converts the C library's `ephemeris_status_t` value. Only the values
    /// from `EPH_NULL` to `EPH_TOO_OLD` and `EPH_VALID` are converted; the
    /// others are refused by the precondition.
    pub fn from_ephemeris_status_t(value: u32) -> (s: Status)
        requires
            is_convertible_status(value),
        ensures
            s == Status::from_status_spec(value),
    {
        match value {
            EPH_NULL => Status::Invalid(InvalidEphemeris::Null),
            EPH_INVALID => Status::Invalid(InvalidEphemeris::Invalid),
            EPH_WN_EQ_0 => Status::Invalid(InvalidEphemeris::WnEqualsZero),
            EPH_FIT_INTERVAL_EQ_0 => Status::Invalid(InvalidEphemeris::FitIntervalEqualsZero),
            EPH_UNHEALTHY => Status::Invalid(InvalidEphemeris::Unhealthy),
            EPH_TOO_OLD => Status::Invalid(InvalidEphemeris::TooOld),
            _ => Status::Valid,
        }
    }

    /// Converts a `Status` into a Result.
    ///
    /// A valid status is represented by the empty `Ok` variant and an invalid status
    /// is represented by the `Err` variant.
    pub fn to_result(self) -> (r: Result<(), InvalidEphemeris>)
        ensures
            match self {
                Status::Valid => r == Ok::<(), InvalidEphemeris>(()),
                Status::Invalid(e) => r == Err::<(), InvalidEphemeris>(e),
            },
    {
        match self {
            Status::Valid => Ok(()),
            Status::Invalid(invalid_status) => Err(invalid_status),
        }
    }
}

/// The C library numbers its ephemeris statuses as [`InvalidEphemeris`]
/// declares its variants, with `EPH_VALID` after them. Every convertible
/// value gives the invalid status of that number, except `EPH_VALID`, the
/// only value that gives [`Status::Valid`]; so no two values give the same
/// status.
pub proof fn lemma_status_follows_c_numbering(value: u32, other: u32)
    requires
        is_convertible_status(value),
        is_convertible_status(other),
    ensures
        Status::from_status_spec(value) is Valid <==> value == EPH_VALID,
        Status::from_status_spec(value) matches Status::Invalid(e) ==> e as u32 == value,
        value != other ==> Status::from_status_spec(value) != Status::from_status_spec(other),
{
}

} // verus!
