use vstd::prelude::*;

use crate::direction::{abs_diff, close, Direction, LOWEST_ALLOWED_ELEVATION};
use crate::telescope::{
    duplicate_error, target_direction, ReceiverConfiguration, ReceiverError, TelescopeError,
    TelescopeInfo, TelescopeStatus, TelescopeTarget,
};

verus! {

/// The elevation, straight up, where the simulated telescope rests when parked.
pub const FAKE_TELESCOPE_PARKING_ELEVATION: i64 = 90_000_000;

/// How far the simulated telescope turns per second on each axis, in microdegrees.
pub const FAKE_TELESCOPE_SLEWING_SPEED: i64 = 18_000_000;

/// The distance from the target, in microdegrees, within which the simulated
/// telescope counts as tracking.
pub const FAKE_TELESCOPE_TRACKING_RADIUS: i64 = 200_000;

/// What a simulated telescope knows.
pub struct FakeState {
    pub name: String,
    pub target: TelescopeTarget,
    pub horizontal: Direction,
    pub most_recent_error: Option<TelescopeError>,
    pub receiver_configuration: ReceiverConfiguration,
    pub integrated_frames: u64,
    pub observation_seconds: u64,
    pub alive: bool,
}

pub open spec fn parking_horizontal() -> Direction {
    Direction { azimuth: 0, elevation: FAKE_TELESCOPE_PARKING_ELEVATION }
}

/// Where the simulated telescope is to point for `target`; `converted` is the
/// coordinate transform of a sky target to now.
pub open spec fn fake_target_direction(target: TelescopeTarget, converted: Direction) -> Direction {
    match target_direction(target, converted) {
        Some(d) => d,
        None => parking_horizontal(),
    }
}

pub open spec fn clamp(d: int, m: int) -> int {
    if d > m {
        m
    } else if d < -m {
        -m
    } else {
        d
    }
}

/// One axis moved from `cur` toward `t` by at most `m`.
pub open spec fn slew_axis(cur: i64, t: i64, m: int) -> i64 {
    (cur + clamp(t - cur, m)) as i64
}

pub open spec fn slew(cur: Direction, t: Direction, m: int) -> Direction {
    Direction {
        azimuth: slew_axis(cur.azimuth, t.azimuth, m),
        elevation: slew_axis(cur.elevation, t.elevation, m),
    }
}

/// The simulated telescope after `delta_seconds` of motion and integration.
pub open spec fn updated(s: FakeState, delta_seconds: u32, converted: Direction) -> FakeState {
    let t = fake_target_direction(s.target, converted);
    let moved = if t.elevation < LOWEST_ALLOWED_ELEVATION {
        FakeState { most_recent_error: Some(TelescopeError::TargetBelowHorizon), ..s }
    } else {
        FakeState {
            horizontal: slew(s.horizontal, t, FAKE_TELESCOPE_SLEWING_SPEED * delta_seconds),
            ..s
        }
    };
    if s.receiver_configuration.integrate {
        FakeState {
            integrated_frames: (s.integrated_frames + 1) as u64,
            observation_seconds: (s.observation_seconds + delta_seconds) as u64,
            ..moved
        }
    } else {
        moved
    }
}

/// The status of a telescope at `current` pursuing `target` whose direction is `t`:
/// slewing while farther than the tracking radius, else idle when parked and
/// tracking otherwise.
pub open spec fn fake_status(target: TelescopeTarget, t: Direction, current: Direction) -> TelescopeStatus {
    let da = t.azimuth - current.azimuth;
    let de = t.elevation - current.elevation;
    if da * da + de * de > FAKE_TELESCOPE_TRACKING_RADIUS * FAKE_TELESCOPE_TRACKING_RADIUS {
        TelescopeStatus::Slewing
    } else if target is Parked {
        TelescopeStatus::Idle
    } else {
        TelescopeStatus::Tracking
    }
}

/// A parked simulated telescope named `name`, pointing straight up.
pub fn create(name: String) -> (r: FakeTelescope)
    ensures
        r@.name == name,
        r@.target == TelescopeTarget::Parked,
        r@.horizontal == parking_horizontal(),
        r@.most_recent_error is None,
        !r@.receiver_configuration.integrate,
        r@.integrated_frames == 0,
        r@.observation_seconds == 0,
        r@.alive,
{
    let state = FakeState {
        name,
        target: TelescopeTarget::Parked,
        horizontal: Direction { azimuth: 0, elevation: FAKE_TELESCOPE_PARKING_ELEVATION },
        most_recent_error: None,
        receiver_configuration: ReceiverConfiguration { integrate: false },
        integrated_frames: 0,
        observation_seconds: 0,
        alive: true,
    };
    FakeTelescope { state }
}

fn calculate_target_horizontal(target: TelescopeTarget, converted: Direction) -> (r: Direction)
    ensures
        r == fake_target_direction(target, converted),
{
    match target {
        TelescopeTarget::Equatorial { .. } => converted,
        TelescopeTarget::Galactic { .. } => converted,
        TelescopeTarget::Horizontal { azimuth, elevation } => Direction { azimuth, elevation },
        TelescopeTarget::Parked => Direction {
            azimuth: 0,
            elevation: FAKE_TELESCOPE_PARKING_ELEVATION,
        },
    }
}

fn slew_toward(cur: i64, t: i64, m: i64) -> (r: i64)
    requires
        m >= 0,
    ensures
        r == slew_axis(cur, t, m as int),
{
    let d: i128 = t as i128 - cur as i128;
    let step: i128 = if d > m as i128 {
        m as i128
    } else if d < -(m as i128) {
        -(m as i128)
    } else {
        d
    };
    (cur as i128 + step) as i64
}

/// Whether the offset (`da`, `de`) lies farther than the tracking radius.
fn beyond_tracking_radius(da: i128, de: i128) -> (r: bool)
    requires
        -0x1_0000_0000_0000_0000 < da < 0x1_0000_0000_0000_0000,
        -0x1_0000_0000_0000_0000 < de < 0x1_0000_0000_0000_0000,
    ensures
        r == (da * da + de * de > FAKE_TELESCOPE_TRACKING_RADIUS * FAKE_TELESCOPE_TRACKING_RADIUS),
{
    let radius = FAKE_TELESCOPE_TRACKING_RADIUS as i128;
    if da > radius || da < -radius || de > radius || de < -radius {
        assert(da * da + de * de > radius * radius) by (nonlinear_arith)
            requires
                da > radius || da < -radius || de > radius || de < -radius,
                radius > 0,
        ;
        true
    } else {
        assert(0 <= da * da <= radius * radius && 0 <= de * de <= radius * radius) by (nonlinear_arith)
            requires
                -radius <= da <= radius,
                -radius <= de <= radius,
        ;
        da * da + de * de > radius * radius
    }
}

/// A simulated telescope. Its state changes only through the methods below.
pub struct FakeTelescope {
    state: FakeState,
}

impl View for FakeTelescope {
    type V = FakeState;

    closed spec fn view(&self) -> FakeState {
        self.state
    }
}

impl FakeTelescope {
    /// What the simulated telescope knows, for reading.
    pub fn state(&self) -> (r: &FakeState)
        ensures
            *r == self@,
    {
        &self.state
    }

    /// The direction the simulated telescope points at.
    pub fn get_direction(&self) -> (r: Option<Direction>)
        ensures
            r == Some(self@.horizontal),
    {
        Some(self.state.horizontal)
    }

    /// Asks to point at `target`, whose sky position transforms to `converted` now.
    /// Any integration is stopped and its spectra dropped; a target below the lowest
    /// allowed elevation is refused and the previous target kept.
    pub fn set_target(&mut self, target: TelescopeTarget, converted: Direction) -> (r: Result<
        TelescopeTarget,
        TelescopeError,
    >)
        ensures
            ({
                let cleared = FakeState {
                    most_recent_error: None,
                    receiver_configuration: ReceiverConfiguration { integrate: false },
                    integrated_frames: 0,
                    observation_seconds: 0,
                    ..old(self)@
                };
                if fake_target_direction(target, converted).elevation < LOWEST_ALLOWED_ELEVATION {
                    &&& r == Err::<TelescopeTarget, TelescopeError>(
                        TelescopeError::TargetBelowHorizon,
                    )
                    &&& final(self)@ == cleared
                } else {
                    &&& r == Ok::<TelescopeTarget, TelescopeError>(target)
                    &&& final(self)@ == (FakeState { target, ..cleared })
                }
            }),
    {
        self.state.most_recent_error = None;
        self.state.receiver_configuration.integrate = false;
        self.state.integrated_frames = 0;
        self.state.observation_seconds = 0;
        let target_horizontal = calculate_target_horizontal(target, converted);
        if target_horizontal.elevation < LOWEST_ALLOWED_ELEVATION {
            Err(TelescopeError::TargetBelowHorizon)
        } else {
            self.state.target = target;
            Ok(target)
        }
    }

    /// Starts or stops integration; starting a measurement drops the spectra
    /// accumulated before. The receiver of the simulated telescope never fails.
    pub fn set_receiver_configuration(&mut self, receiver_configuration: ReceiverConfiguration) -> (r:
        Result<ReceiverConfiguration, ReceiverError>)
        ensures
            final(self)@ == if receiver_configuration.integrate
                && !old(self)@.receiver_configuration.integrate {
                FakeState {
                    receiver_configuration,
                    integrated_frames: 0,
                    observation_seconds: 0,
                    ..old(self)@
                }
            } else {
                FakeState { receiver_configuration, ..old(self)@ }
            },
            r == Ok::<ReceiverConfiguration, ReceiverError>(receiver_configuration),
    {
        if receiver_configuration.integrate && !self.state.receiver_configuration.integrate {
            self.state.receiver_configuration.integrate = true;
            self.state.integrated_frames = 0;
            self.state.observation_seconds = 0;
        } else if !receiver_configuration.integrate && self.state.receiver_configuration.integrate {
            self.state.receiver_configuration.integrate = false;
        }
        Ok(self.state.receiver_configuration)
    }

    /// A snapshot of the simulated telescope; `converted` is the coordinate
    /// transform of its sky target to now.
    pub fn get_info(&self, converted: Direction) -> (r: Result<TelescopeInfo, TelescopeError>)
        ensures
            r matches Ok(info) && {
                let t = fake_target_direction(self@.target, converted);
                &&& info.id == self@.name
                &&& info.status == fake_status(self@.target, t, self@.horizontal)
                &&& info.current_horizontal == Some(self@.horizontal)
                &&& info.commanded_horizontal == Some(t)
                &&& info.current_target == self@.target
                &&& info.most_recent_error == self@.most_recent_error
                &&& info.measurement_in_progress == self@.receiver_configuration.integrate
                &&& info.integrated_frames == self@.integrated_frames
                &&& info.observation_seconds == self@.observation_seconds
            },
    {
        let t = calculate_target_horizontal(self.state.target, converted);
        let da: i128 = t.azimuth as i128 - self.state.horizontal.azimuth as i128;
        let de: i128 = t.elevation as i128 - self.state.horizontal.elevation as i128;
        let status = if beyond_tracking_radius(da, de) {
            TelescopeStatus::Slewing
        } else if matches!(self.state.target, TelescopeTarget::Parked) {
            TelescopeStatus::Idle
        } else {
            TelescopeStatus::Tracking
        };
        Ok(
            TelescopeInfo {
                id: self.state.name.clone(),
                status,
                current_horizontal: Some(self.state.horizontal),
                commanded_horizontal: Some(t),
                current_target: self.state.target,
                most_recent_error: duplicate_error(&self.state.most_recent_error),
                measurement_in_progress: self.state.receiver_configuration.integrate,
                integrated_frames: self.state.integrated_frames,
                observation_seconds: self.state.observation_seconds,
            },
        )
    }

    /// Stops the simulation.
    pub fn shutdown(&mut self)
        ensures
            final(self)@ == (FakeState { alive: false, ..old(self)@ }),
    {
        self.state.alive = false;
    }

    /// Advances the simulation by `delta_seconds`: turns toward the target at the
    /// slewing speed without overshooting, or records `TargetBelowHorizon` when the
    /// target is too low, and accounts one spectral frame while integrating.
    /// Returns whether a frame was taken.
    pub fn update(&mut self, delta_seconds: u32, converted: Direction) -> (r: bool)
        requires
            old(self)@.alive,
            old(self)@.receiver_configuration.integrate ==> old(self)@.integrated_frames < u64::MAX
                && old(self)@.observation_seconds + delta_seconds <= u64::MAX,
        ensures
            final(self)@ == updated(old(self)@, delta_seconds, converted),
            r == old(self)@.receiver_configuration.integrate,
    {
        let t = calculate_target_horizontal(self.state.target, converted);
        if t.elevation < LOWEST_ALLOWED_ELEVATION {
            self.state.most_recent_error = Some(TelescopeError::TargetBelowHorizon);
        } else {
            let max_delta: i64 = FAKE_TELESCOPE_SLEWING_SPEED * delta_seconds as i64;
            let current = self.state.horizontal;
            self.state.horizontal = Direction {
                azimuth: slew_toward(current.azimuth, t.azimuth, max_delta),
                elevation: slew_toward(current.elevation, t.elevation, max_delta),
            };
        }
        if self.state.receiver_configuration.integrate {
            self.state.integrated_frames = self.state.integrated_frames + 1;
            self.state.observation_seconds = self.state.observation_seconds + delta_seconds as u64;
            true
        } else {
            false
        }
    }
}

/// The simulated telescope after `n` updates of `delta_seconds` each, with the same
/// transform.
pub open spec fn run_ticks(s: FakeState, n: nat, delta_seconds: u32, converted: Direction) -> FakeState
    decreases n,
{
    if n == 0 {
        s
    } else {
        updated(run_ticks(s, (n - 1) as nat, delta_seconds, converted), delta_seconds, converted)
    }
}

proof fn lemma_axis_progress(cur: i64, t: i64, m: int)
    requires
        m >= 0,
    ensures
        abs_diff(slew_axis(cur, t, m), t) == if abs_diff(cur, t) > m {
            abs_diff(cur, t) - m
        } else {
            0
        },
{
}

proof fn lemma_ticks_keep_target(s: FakeState, n: nat, delta_seconds: u32, converted: Direction)
    ensures
        run_ticks(s, n, delta_seconds, converted).target == s.target,
        run_ticks(s, n, delta_seconds, converted).receiver_configuration
            == s.receiver_configuration,
    decreases n,
{
    if n > 0 {
        lemma_ticks_keep_target(s, (n - 1) as nat, delta_seconds, converted);
    }
}

/// The remaining gap on one axis after a total turn of `step`.
pub open spec fn remaining(gap: int, step: int) -> int {
    if gap > step {
        gap - step
    } else {
        0
    }
}

proof fn lemma_ticks_progress(s: FakeState, n: nat, delta_seconds: u32, converted: Direction)
    requires
        fake_target_direction(s.target, converted).elevation >= LOWEST_ALLOWED_ELEVATION,
    ensures
        ({
            let t = fake_target_direction(s.target, converted);
            let h = run_ticks(s, n, delta_seconds, converted).horizontal;
            let step = n * (FAKE_TELESCOPE_SLEWING_SPEED * delta_seconds);
            &&& abs_diff(h.azimuth, t.azimuth) == remaining(
                abs_diff(s.horizontal.azimuth, t.azimuth),
                step,
            )
            &&& abs_diff(h.elevation, t.elevation) == remaining(
                abs_diff(s.horizontal.elevation, t.elevation),
                step,
            )
        }),
    decreases n,
{
    if n > 0 {
        let m = FAKE_TELESCOPE_SLEWING_SPEED * delta_seconds;
        let prev = run_ticks(s, (n - 1) as nat, delta_seconds, converted);
        lemma_ticks_progress(s, (n - 1) as nat, delta_seconds, converted);
        lemma_ticks_keep_target(s, (n - 1) as nat, delta_seconds, converted);
        let t = fake_target_direction(s.target, converted);
        assert(m >= 0) by (nonlinear_arith)
            requires
                m == FAKE_TELESCOPE_SLEWING_SPEED * delta_seconds,
                delta_seconds >= 0,
        ;
        assert(n * m == (n - 1) * m + m) by (nonlinear_arith);
        assert((n - 1) * m >= 0) by (nonlinear_arith)
            requires
                m >= 0,
                n >= 1,
        ;
        lemma_axis_progress(prev.horizontal.azimuth, t.azimuth, m);
        lemma_axis_progress(prev.horizontal.elevation, t.elevation, m);
    }
}

/// A target at or above the lowest allowed elevation is reached: after enough
/// updates of `delta_seconds` for the slewing speed to cover the larger of the two
/// angular gaps, the simulated telescope points exactly at it, and so within the
/// fine tolerance.
pub proof fn lemma_target_reached(s: FakeState, n: nat, delta_seconds: u32, converted: Direction)
    requires
        fake_target_direction(s.target, converted).elevation >= LOWEST_ALLOWED_ELEVATION,
        abs_diff(s.horizontal.azimuth, fake_target_direction(s.target, converted).azimuth) <= n
            * (FAKE_TELESCOPE_SLEWING_SPEED * delta_seconds),
        abs_diff(s.horizontal.elevation, fake_target_direction(s.target, converted).elevation)
            <= n * (FAKE_TELESCOPE_SLEWING_SPEED * delta_seconds),
    ensures
        run_ticks(s, n, delta_seconds, converted).horizontal == fake_target_direction(
            s.target,
            converted,
        ),
        close(
            run_ticks(s, n, delta_seconds, converted).horizontal,
            fake_target_direction(s.target, converted),
            1,
        ),
{
    lemma_ticks_progress(s, n, delta_seconds, converted);
}

/// After `n` updates of `delta_seconds` of a simulated telescope that integrates
/// from an empty buffer, `n` frames were taken and the observation time is
/// `n * delta_seconds` seconds.
pub proof fn lemma_integration_time(s: FakeState, n: nat, delta_seconds: u32, converted: Direction)
    requires
        s.receiver_configuration.integrate,
        s.integrated_frames == 0,
        s.observation_seconds == 0,
        n <= u64::MAX,
        n * delta_seconds <= u64::MAX,
    ensures
        run_ticks(s, n, delta_seconds, converted).integrated_frames == n,
        run_ticks(s, n, delta_seconds, converted).observation_seconds == n * delta_seconds,
        run_ticks(s, n, delta_seconds, converted).receiver_configuration.integrate,
    decreases n,
{
    lemma_ticks_keep_target(s, n, delta_seconds, converted);
    if n > 0 {
        let k = (n - 1) as nat;
        assert(k * delta_seconds <= n * delta_seconds) by (nonlinear_arith)
            requires
                k == n - 1,
        ;
        lemma_integration_time(s, k, delta_seconds, converted);
        lemma_ticks_keep_target(s, k, delta_seconds, converted);
        let prev = run_ticks(s, k, delta_seconds, converted);
        assert(prev.observation_seconds + delta_seconds == n * delta_seconds) by (nonlinear_arith)
            requires
                prev.observation_seconds == k * delta_seconds,
                k == n - 1,
        ;
        assert(run_ticks(s, n, delta_seconds, converted) == updated(prev, delta_seconds, converted));
        assert(prev.receiver_configuration.integrate);
        assert(updated(prev, delta_seconds, converted).observation_seconds == n * delta_seconds);
    } else {
        assert(n * delta_seconds == 0) by (nonlinear_arith)
            requires
                n == 0,
        ;
    }
}

/// A target below the lowest allowed elevation does not move the simulated
/// telescope: an update leaves its direction alone and reports `TargetBelowHorizon`.
pub proof fn lemma_below_horizon_holds_still(s: FakeState, delta_seconds: u32, converted: Direction)
    requires
        fake_target_direction(s.target, converted).elevation < LOWEST_ALLOWED_ELEVATION,
    ensures
        updated(s, delta_seconds, converted).horizontal == s.horizontal,
        updated(s, delta_seconds, converted).most_recent_error == Some(
            TelescopeError::TargetBelowHorizon,
        ),
{
}

} // verus!
