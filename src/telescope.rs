use vstd::prelude::*;

use crate::direction::Direction;

verus! {

/// What a telescope is asked to point at. All angles are in microdegrees.
#[derive(Clone, Copy, Debug, PartialEq, Eq, Structural)]
pub enum TelescopeTarget {
    Equatorial { right_ascension: i64, declination: i64 },
    Galactic { longitude: i64, latitude: i64 },
    Horizontal { azimuth: i64, elevation: i64 },
    Parked,
}

/// How a telescope is doing relative to its commanded direction.
#[derive(Clone, Copy, Debug, PartialEq, Eq, Structural)]
pub enum TelescopeStatus {
    Idle,
    Slewing,
    Tracking,
}

#[derive(Clone, Debug)]
pub enum TelescopeError {
    TargetBelowHorizon,
    TelescopeNotConnected,
    TelescopeIOError(String),
}

impl TelescopeError {
    /// A copy of the error, detail included.
    pub fn duplicate(&self) -> (r: TelescopeError)
        ensures
            r == *self,
    {
        match self {
            TelescopeError::TargetBelowHorizon => TelescopeError::TargetBelowHorizon,
            TelescopeError::TelescopeNotConnected => TelescopeError::TelescopeNotConnected,
            TelescopeError::TelescopeIOError(detail) => TelescopeError::TelescopeIOError(
                detail.clone(),
            ),
        }
    }
}

/// Copies an optional error, detail included.
pub fn duplicate_error(e: &Option<TelescopeError>) -> (r: Option<TelescopeError>)
    ensures
        r == *e,
{
    match e {
        Some(err) => Some(err.duplicate()),
        None => None,
    }
}

/// Whether the receiver accumulates spectra.
#[derive(Clone, Copy, Debug, PartialEq, Eq, Structural)]
pub struct ReceiverConfiguration {
    pub integrate: bool,
}

/// The horizontal direction a target stands for at one moment. `converted` is the
/// coordinate transform of an equatorial or galactic target to that moment; a
/// horizontal target is its own direction, and a parked telescope has none.
pub open spec fn target_direction(target: TelescopeTarget, converted: Direction) -> Option<Direction> {
    match target {
        TelescopeTarget::Equatorial { .. } => Some(converted),
        TelescopeTarget::Galactic { .. } => Some(converted),
        TelescopeTarget::Horizontal { azimuth, elevation } => Some(
            Direction { azimuth, elevation },
        ),
        TelescopeTarget::Parked => None,
    }
}

/// The horizontal direction of `target`, given the coordinate transform `converted`
/// of its sky position to the moment in question.
pub fn calculate_target_horizontal(target: TelescopeTarget, converted: Direction) -> (r: Option<
    Direction,
>)
    ensures
        r == target_direction(target, converted),
{
    match target {
        TelescopeTarget::Equatorial { .. } => Some(converted),
        TelescopeTarget::Galactic { .. } => Some(converted),
        TelescopeTarget::Horizontal { azimuth, elevation } => Some(Direction { azimuth, elevation }),
        TelescopeTarget::Parked => None,
    }
}

/// Why the receiver refused a configuration.
#[derive(Clone, Debug)]
pub enum ReceiverError {
    IntegrationError(String),
}

/// A snapshot of a telescope, as reported to callers. `observation_seconds` is the
/// summed integration time of the spectra accumulated since the last reset, and
/// `integrated_frames` their number.
pub struct TelescopeInfo {
    pub id: String,
    pub status: TelescopeStatus,
    pub current_horizontal: Option<Direction>,
    pub commanded_horizontal: Option<Direction>,
    pub current_target: TelescopeTarget,
    pub most_recent_error: Option<TelescopeError>,
    pub measurement_in_progress: bool,
    pub integrated_frames: u64,
    pub observation_seconds: u64,
}

} // verus!
