//! Single epoch position solver settings and outcomes
//!
//! The least squares solution itself is computed by the C library; this
//! module holds the settings handed to it and the meaning of the codes it
//! returns.
use vstd::prelude::*;

verus! {

/// Different strategies of how to choose which measurements to use in a solution
#[derive(Debug, Copy, Clone, PartialOrd, Ord, PartialEq, Eq, Structural, Hash)]
pub enum ProcessingStrategy {
    /// Use GPS measurements only
    GpsOnly,
    /// Use measurements of all constellations
    AllConstellations,
    /// Prefer GPS L1CA measurements where there are enough of them
    GpsL1caWhenPossible,
    /// Use L1 measurements only
    L1Only,
}

impl ProcessingStrategy {
    /// The C library's `processing_strategy_t` value of the strategy.
    pub open spec fn strategy_value(self) -> u32 {
        match self {
            ProcessingStrategy::GpsOnly => 0,
            ProcessingStrategy::AllConstellations => 1,
            ProcessingStrategy::GpsL1caWhenPossible => 2,
            ProcessingStrategy::L1Only => 3,
        }
    }

    /// Converts to the C library's `processing_strategy_t` value.
    pub fn to_processing_strategy_t(self) -> (v: u32)
        ensures
            v == self.strategy_value(),
    {
        match self {
            ProcessingStrategy::GpsOnly => 0,
            ProcessingStrategy::AllConstellations => 1,
            ProcessingStrategy::GpsL1caWhenPossible => 2,
            ProcessingStrategy::L1Only => 3,
        }
    }
}

/// Holds the settings to customize how the GNSS solution is calculated
#[derive(Debug, Copy, Clone, PartialOrd, Ord, PartialEq, Eq, Structural, Hash)]
pub struct PvtSettings {
    strategy: ProcessingStrategy,
    disable_raim: bool,
    disable_velocity: bool,
}

impl PvtSettings {
    /// The processing strategy of the settings.
    pub closed spec fn strategy_spec(self) -> ProcessingStrategy {
        self.strategy
    }

    /// Whether RAIM is disabled.
    pub closed spec fn raim_disabled(self) -> bool {
        self.disable_raim
    }

    /// Whether the velocity calculation is disabled.
    pub closed spec fn velocity_disabled(self) -> bool {
        self.disable_velocity
    }

    /// Creates a default, least common denominator, set of settings
    ///
    /// Note: The default settings consist of
    ///  * Processing all constellations and signals
    ///  * Disabling RAIM
    ///  * Disabling velocity calculation
    pub fn new() -> (s: PvtSettings)
        ensures
            s.strategy_spec() == ProcessingStrategy::AllConstellations,
            s.raim_disabled(),
            s.velocity_disabled(),
    {
        PvtSettings {
            strategy: ProcessingStrategy::AllConstellations,
            disable_raim: true,
            disable_velocity: true,
        }
    }

    /// Sets the processing strategy to use
    pub fn set_strategy(self, strategy: ProcessingStrategy) -> (s: PvtSettings)
        ensures
            s.strategy_spec() == strategy,
            s.raim_disabled() == self.raim_disabled(),
            s.velocity_disabled() == self.velocity_disabled(),
    {
        PvtSettings {
            strategy,
            disable_raim: self.disable_raim,
            disable_velocity: self.disable_velocity,
        }
    }

    /// Enables use of RAIM (receiver autonomous integrity monitoring)
    ///
    /// RAIM is an algorithm to detect and remove invalid measurements. Enabling
    /// RAIM means additional computations must take place to ensure the validity
    /// of the solution
    pub fn enable_raim(self) -> (s: PvtSettings)
        ensures
            s.strategy_spec() == self.strategy_spec(),
            !s.raim_disabled(),
            s.velocity_disabled() == self.velocity_disabled(),
    {
        PvtSettings {
            strategy: self.strategy,
            disable_raim: false,
            disable_velocity: self.disable_velocity,
        }
    }

    /// Disables use of RAIM
    ///
    /// See [`PvtSettings::enable_raim()`] for more details
    pub fn disable_raim(self) -> (s: PvtSettings)
        ensures
            s.strategy_spec() == self.strategy_spec(),
            s.raim_disabled(),
            s.velocity_disabled() == self.velocity_disabled(),
    {
        PvtSettings {
            strategy: self.strategy,
            disable_raim: true,
            disable_velocity: self.disable_velocity,
        }
    }

    /// Enables calculation of a velocity solution
    ///
    /// Note: this requires the presence of doppler measurements
    pub fn enable_velocity(self) -> (s: PvtSettings)
        ensures
            s.strategy_spec() == self.strategy_spec(),
            s.raim_disabled() == self.raim_disabled(),
            !s.velocity_disabled(),
    {
        PvtSettings {
            strategy: self.strategy,
            disable_raim: self.disable_raim,
            disable_velocity: false,
        }
    }

    /// Disables calculation of a velocity solution
    pub fn disable_velocity(self) -> (s: PvtSettings)
        ensures
            s.strategy_spec() == self.strategy_spec(),
            s.raim_disabled() == self.raim_disabled(),
            s.velocity_disabled(),
    {
        PvtSettings {
            strategy: self.strategy,
            disable_raim: self.disable_raim,
            disable_velocity: true,
        }
    }

    /// The processing strategy to use
    pub fn strategy(&self) -> (s: ProcessingStrategy)
        ensures
            s == self.strategy_spec(),
    {
        self.strategy
    }

    /// Whether RAIM is disabled
    pub fn is_raim_disabled(&self) -> (b: bool)
        ensures
            b == self.raim_disabled(),
    {
        self.disable_raim
    }

    /// Whether the velocity calculation is disabled
    pub fn is_velocity_disabled(&self) -> (b: bool)
        ensures
            b == self.velocity_disabled(),
    {
        self.disable_velocity
    }
}

impl Default for PvtSettings {
    fn default() -> (s: PvtSettings)
        ensures
            s.strategy_spec() == ProcessingStrategy::AllConstellations,
            s.raim_disabled(),
            s.velocity_disabled(),
    {
        PvtSettings::new()
    }
}

/// Causes of a failed PVT solution
#[derive(Debug, Copy, Clone, PartialOrd, Ord, PartialEq, Eq, Structural, Hash)]
pub enum PvtError {
    /// The PDOP of the solution was unacceptably high
    HighPdop,
    /// Alitutde of the solution was unacceptable
    UnreasonableAltitude,
    /// The velocity of the solution was >= 1000 kts
    HighVelocity,
    /// RAIM check and repair was unsuccessful
    RaimRepairFailed,
    /// RAIM check and repair was impossible due to not enough measurements
    RaimRepairImpossible,
    /// The least squares iteration failed to converge
    FailedToConverge,
    /// There were not enough measurements for a solution
    NotEnoughMeasurements,
}

impl PvtError {
    /// The error that a negative solver return code stands for.
    pub open spec fn from_code_spec(val: i8) -> PvtError {
        if val == -1 {
            PvtError::HighPdop
        } else if val == -2 {
            PvtError::UnreasonableAltitude
        } else if val == -3 {
            PvtError::HighVelocity
        } else if val == -4 {
            PvtError::RaimRepairFailed
        } else if val == -5 {
            PvtError::RaimRepairImpossible
        } else if val == -6 {
            PvtError::FailedToConverge
        } else {
            PvtError::NotEnoughMeasurements
        }
    }

    /// The position of the error in the C library's table of error messages.
    pub open spec fn message_index(self) -> usize {
        match self {
            PvtError::HighPdop => 0,
            PvtError::UnreasonableAltitude => 1,
            PvtError::HighVelocity => 2,
            PvtError::RaimRepairFailed => 3,
            PvtError::RaimRepairImpossible => 4,
            PvtError::FailedToConverge => 5,
            PvtError::NotEnoughMeasurements => 6,
        }
    }

    /// Converts a solver return code from -7 to -1 into an error.
    pub fn from_i8(val: i8) -> (e: PvtError)
        requires
            -7 <= val <= -1,
        ensures
            e == PvtError::from_code_spec(val),
    {
        match val {
            -1 => PvtError::HighPdop,
            -2 => PvtError::UnreasonableAltitude,
            -3 => PvtError::HighVelocity,
            -4 => PvtError::RaimRepairFailed,
            -5 => PvtError::RaimRepairImpossible,
            -6 => PvtError::FailedToConverge,
            _ => PvtError::NotEnoughMeasurements,
        }
    }

    /// The index of the error's message in the C library's message table.
    pub fn to_message_index(self) -> (i: usize)
        ensures
            i == self.message_index(),
    {
        match self {
            PvtError::HighPdop => 0,
            PvtError::UnreasonableAltitude => 1,
            PvtError::HighVelocity => 2,
            PvtError::RaimRepairFailed => 3,
            PvtError::RaimRepairImpossible => 4,
            PvtError::FailedToConverge => 5,
            PvtError::NotEnoughMeasurements => 6,
        }
    }
}

/// Indicates action taken while successfully calculating a solution
#[derive(Debug, Copy, Clone, PartialOrd, Ord, PartialEq, Eq, Structural, Hash)]
pub enum PvtStatus {
    /// Solution OK and RAIM check passed
    RaimPassed,
    /// Repaired solution, using fewer observations. The SidSet contained the removed measurements
    RepairedSolution,
    /// Solution OK, but RAIM check was not used (exactly 4 measurements given) or disabled
    RaimSkipped,
}

impl PvtStatus {
    /// The status that a non-negative solver return code stands for.
    pub open spec fn from_code_spec(val: i8) -> PvtStatus {
        if val == 0 {
            PvtStatus::RaimPassed
        } else if val == 1 {
            PvtStatus::RepairedSolution
        } else {
            PvtStatus::RaimSkipped
        }
    }

    /// Converts a solver return code from 0 to 2 into a status.
    pub fn from_i8(val: i8) -> (s: PvtStatus)
        requires
            0 <= val <= 2,
        ensures
            s == PvtStatus::from_code_spec(val),
    {
        match val {
            0 => PvtStatus::RaimPassed,
            1 => PvtStatus::RepairedSolution,
            _ => PvtStatus::RaimSkipped,
        }
    }
}

/// The outcome that a solver return code stands for: a status for the codes
/// from 0 to 2 and an error for those from -7 to -1.
pub fn pvt_outcome(result: i8) -> (r: Result<PvtStatus, PvtError>)
    requires
        -7 <= result <= 2,
    ensures
        result >= 0 ==> r == Ok::<PvtStatus, PvtError>(PvtStatus::from_code_spec(result)),
        result < 0 ==> r == Err::<PvtStatus, PvtError>(PvtError::from_code_spec(result)),
{
    if result >= 0 {
        Ok(PvtStatus::from_i8(result))
    } else {
        Err(PvtError::from_i8(result))
    }
}

/// The C library numbers its processing strategies in the order in which
/// [`ProcessingStrategy`] declares its variants, so each strategy converts
/// to the value at its own position; no two strategies share a value.
pub proof fn lemma_strategy_follows_c_numbering(s: ProcessingStrategy, t: ProcessingStrategy)
    ensures
        s.strategy_value() == s as u32,
        s != t ==> s.strategy_value() != t.strategy_value(),
{
}

} // verus!
