use vstd::prelude::*;

use crate::direction::{close, directions_are_close, Direction, LOWEST_ALLOWED_ELEVATION};
use crate::telescope::{
    calculate_target_horizontal, duplicate_error, target_direction, TelescopeError,
    TelescopeStatus, TelescopeTarget,
};

verus! {

/// How long, in milliseconds, a target stays commanded after `set_target`.
pub const TARGET_EXPIRY_MS: i64 = 10_000;

/// A snapshot of a tracker, as reported to callers.
pub struct TelescopeTrackerInfo {
    pub target: TelescopeTarget,
    pub commanded_horizontal: Option<Direction>,
    pub current_horizontal: Option<Direction>,
    pub status: TelescopeStatus,
    pub most_recent_error: Option<TelescopeError>,
}

/// Where the control loop stands within one tick.
#[derive(Clone, Copy, Debug, PartialEq, Eq, Structural)]
pub enum TrackerPhase {
    /// Between ticks.
    Waiting,
    /// A connection to the mount controller is being opened.
    Connecting,
    /// The first `Stop` after a (re)connection is in flight; `now` is the tick's time.
    Stopping { now: i64 },
    /// A `Restart` is in flight.
    Restarting,
    /// The cooldown after a restart is running.
    CoolingDown,
    /// The mount's direction is being read while `target` is pursued.
    Reading { target: TelescopeTarget },
    /// A pointing command toward `direction` is in flight; `current` was just read.
    Pointing { direction: Direction, current: Direction },
    /// A `Stop` for a newly parked telescope is in flight; `current` was just read.
    Parking { current: Direction },
}

/// What happened outside since the tracker last decided.
pub enum TrackerEvent {
    /// The once-per-second timer fired.
    Tick,
    /// Opening the connection to the mount controller failed; the mount is
    /// stopped again on the next successful connection.
    ConnectFailed(TelescopeError),
    /// The connection is open; `now` is the current time in milliseconds.
    Connected { now: i64 },
    /// The command last asked for was answered: `None` on an acknowledgement.
    CommandDone(Option<TelescopeError>),
    /// The cooldown after a restart is over.
    CooldownOver,
    /// The mount's direction was read. `converted` is the coordinate transform of
    /// the pursued target to now (used for equatorial and galactic targets only).
    DirectionRead { converted: Direction, current: Result<Direction, TelescopeError> },
}

/// What the tracker asks to be done next.
#[derive(Clone, Copy, Debug, PartialEq, Eq, Structural)]
pub enum TrackerAction {
    /// Shutdown was requested: leave the loop.
    Finish,
    /// Nothing more this tick: wait for the next one.
    Wait,
    /// Open a connection to the mount controller.
    Connect,
    /// Send `Stop` to the mount.
    SendStop,
    /// Send `Restart` to the mount.
    SendRestart,
    /// Sleep through the restart cooldown.
    Cooldown,
    /// Compute where `target` is now and read the mount's direction.
    ReadDirection { target: TelescopeTarget },
    /// Send a pointing command toward the direction.
    SendDirection(Direction),
}

/// What a tracker that drives a mount controller toward a target knows.
/// Times are milliseconds since the epoch.
pub struct TrackerState {
    pub controller_address: String,
    pub target: TelescopeTarget,
    pub commanded_horizontal: Option<Direction>,
    pub stop_tracking_time: Option<i64>,
    pub current_direction: Option<Direction>,
    pub most_recent_error: Option<TelescopeError>,
    pub should_restart: bool,
    pub quit: bool,
    pub connection_established: bool,
    pub phase: TrackerPhase,
}

/// The status derived from the commanded and current directions: tracking while
/// within two tolerance units on both axes.
pub open spec fn status_of(commanded: Option<Direction>, current: Direction) -> TelescopeStatus {
    match commanded {
        Some(c) => if close(c, current, 2) {
            TelescopeStatus::Tracking
        } else {
            TelescopeStatus::Slewing
        },
        None => TelescopeStatus::Idle,
    }
}

/// `s` waiting for the next tick.
pub open spec fn waiting(s: TrackerState) -> TrackerState {
    TrackerState { phase: TrackerPhase::Waiting, ..s }
}

/// After the connection is known good: expire the commanded direction when its
/// time has passed, then restart the mount or read its direction.
pub open spec fn after_connect(s: TrackerState, now: i64) -> (TrackerState, TrackerAction) {
    let s1 = match s.stop_tracking_time {
        Some(t) => if t < now {
            TrackerState { commanded_horizontal: None, stop_tracking_time: None, ..s }
        } else {
            s
        },
        None => s,
    };
    if s1.should_restart {
        (TrackerState { phase: TrackerPhase::Restarting, ..s1 }, TrackerAction::SendRestart)
    } else {
        (
            TrackerState { phase: TrackerPhase::Reading { target: s1.target }, ..s1 },
            TrackerAction::ReadDirection { target: s1.target },
        )
    }
}

/// The decision once the mount's direction `cur` was read while pursuing `target`.
pub open spec fn after_read(
    s: TrackerState,
    target: TelescopeTarget,
    converted: Direction,
    cur: Direction,
) -> (TrackerState, TrackerAction) {
    match target_direction(target, converted) {
        Some(t) => if t.elevation < LOWEST_ALLOWED_ELEVATION {
            (
                TrackerState {
                    current_direction: Some(cur),
                    most_recent_error: Some(TelescopeError::TargetBelowHorizon),
                    commanded_horizontal: None,
                    phase: TrackerPhase::Waiting,
                    ..s
                },
                TrackerAction::Wait,
            )
        } else if s.stop_tracking_time is None {
            (
                TrackerState {
                    current_direction: Some(cur),
                    most_recent_error: None,
                    phase: TrackerPhase::Waiting,
                    ..s
                },
                TrackerAction::Wait,
            )
        } else if !close(t, cur, 1) {
            (
                TrackerState { phase: TrackerPhase::Pointing { direction: t, current: cur }, ..s },
                TrackerAction::SendDirection(t),
            )
        } else {
            (
                TrackerState {
                    current_direction: Some(cur),
                    commanded_horizontal: Some(t),
                    most_recent_error: None,
                    phase: TrackerPhase::Waiting,
                    ..s
                },
                TrackerAction::Wait,
            )
        },
        None => if s.commanded_horizontal is Some {
            (
                TrackerState { phase: TrackerPhase::Parking { current: cur }, ..s },
                TrackerAction::SendStop,
            )
        } else {
            (
                TrackerState {
                    current_direction: Some(cur),
                    most_recent_error: None,
                    phase: TrackerPhase::Waiting,
                    ..s
                },
                TrackerAction::Wait,
            )
        },
    }
}

/// One decision of the control loop: the state after `e` and the action asked for.
/// An event that the phase does not expect ends the tick.
pub open spec fn transition(s: TrackerState, e: TrackerEvent) -> (TrackerState, TrackerAction) {
    match e {
        TrackerEvent::Tick => if s.quit {
            (waiting(s), TrackerAction::Finish)
        } else if s.target is Parked {
            (waiting(TrackerState { commanded_horizontal: None, ..s }), TrackerAction::Wait)
        } else {
            (TrackerState { phase: TrackerPhase::Connecting, ..s }, TrackerAction::Connect)
        },
        TrackerEvent::ConnectFailed(err) => if s.phase is Connecting {
            (
                waiting(
                    TrackerState {
                        most_recent_error: Some(err),
                        connection_established: false,
                        ..s
                    },
                ),
                TrackerAction::Wait,
            )
        } else {
            (waiting(s), TrackerAction::Wait)
        },
        TrackerEvent::Connected { now } => if s.phase is Connecting {
            if !s.connection_established {
                (
                    TrackerState { phase: TrackerPhase::Stopping { now }, ..s },
                    TrackerAction::SendStop,
                )
            } else {
                after_connect(s, now)
            }
        } else {
            (waiting(s), TrackerAction::Wait)
        },
        TrackerEvent::CommandDone(r) => match s.phase {
            TrackerPhase::Stopping { now } => after_connect(
                TrackerState {
                    most_recent_error: r,
                    commanded_horizontal: None,
                    connection_established: true,
                    ..s
                },
                now,
            ),
            TrackerPhase::Restarting => (
                TrackerState {
                    most_recent_error: r,
                    connection_established: false,
                    phase: TrackerPhase::CoolingDown,
                    ..s
                },
                TrackerAction::Cooldown,
            ),
            TrackerPhase::Pointing { direction, current } => match r {
                None => (
                    waiting(
                        TrackerState {
                            current_direction: Some(current),
                            commanded_horizontal: Some(direction),
                            most_recent_error: None,
                            ..s
                        },
                    ),
                    TrackerAction::Wait,
                ),
                Some(err) => (
                    waiting(
                        TrackerState {
                            current_direction: Some(current),
                            most_recent_error: Some(err),
                            ..s
                        },
                    ),
                    TrackerAction::Wait,
                ),
            },
            TrackerPhase::Parking { current } => match r {
                None => (
                    waiting(
                        TrackerState {
                            current_direction: Some(current),
                            commanded_horizontal: None,
                            most_recent_error: None,
                            ..s
                        },
                    ),
                    TrackerAction::Wait,
                ),
                Some(err) => (
                    waiting(
                        TrackerState {
                            current_direction: Some(current),
                            most_recent_error: Some(err),
                            ..s
                        },
                    ),
                    TrackerAction::Wait,
                ),
            },
            _ => (waiting(s), TrackerAction::Wait),
        },
        TrackerEvent::CooldownOver => if s.phase is CoolingDown {
            (waiting(TrackerState { should_restart: false, ..s }), TrackerAction::Wait)
        } else {
            (waiting(s), TrackerAction::Wait)
        },
        TrackerEvent::DirectionRead { converted, current } => match s.phase {
            TrackerPhase::Reading { target } => match current {
                Ok(cur) => after_read(s, target, converted, cur),
                Err(err) => (
                    waiting(TrackerState { most_recent_error: Some(err), ..s }),
                    TrackerAction::Wait,
                ),
            },
            _ => (waiting(s), TrackerAction::Wait),
        },
    }
}

impl TrackerState {
    /// A parked tracker for the mount controller at `controller_address`, not yet connected.
    fn initial(controller_address: String) -> (r: TrackerState)
        ensures
            r.controller_address == controller_address,
            r.target == TelescopeTarget::Parked,
            r.commanded_horizontal is None,
            r.stop_tracking_time is None,
            r.current_direction is None,
            r.most_recent_error is None,
            !r.should_restart,
            !r.quit,
            !r.connection_established,
            r.phase == TrackerPhase::Waiting,
    {
        TrackerState {
            controller_address,
            target: TelescopeTarget::Parked,
            commanded_horizontal: None,
            stop_tracking_time: None,
            current_direction: None,
            most_recent_error: None,
            should_restart: false,
            quit: false,
            connection_established: false,
            phase: TrackerPhase::Waiting,
        }
    }
}


impl TrackerState {
    fn finish_connect(&mut self, now: i64) -> (a: TrackerAction)
        ensures
            (*final(self), a) == after_connect(*old(self), now),
    {
        if let Some(t) = self.stop_tracking_time {
            if t < now {
                self.commanded_horizontal = None;
                self.stop_tracking_time = None;
            }
        }
        if self.should_restart {
            self.phase = TrackerPhase::Restarting;
            TrackerAction::SendRestart
        } else {
            let target = self.target;
            self.phase = TrackerPhase::Reading { target };
            TrackerAction::ReadDirection { target }
        }
    }

    fn finish_read(&mut self, target: TelescopeTarget, converted: Direction, cur: Direction) -> (a:
        TrackerAction)
        ensures
            (*final(self), a) == after_read(*old(self), target, converted, cur),
    {
        match calculate_target_horizontal(target, converted) {
            Some(t) => {
                if t.elevation < LOWEST_ALLOWED_ELEVATION {
                    self.current_direction = Some(cur);
                    self.most_recent_error = Some(TelescopeError::TargetBelowHorizon);
                    self.commanded_horizontal = None;
                    self.phase = TrackerPhase::Waiting;
                    TrackerAction::Wait
                } else if self.stop_tracking_time.is_none() {
                    self.current_direction = Some(cur);
                    self.most_recent_error = None;
                    self.phase = TrackerPhase::Waiting;
                    TrackerAction::Wait
                } else if !directions_are_close(t, cur, 1) {
                    self.phase = TrackerPhase::Pointing { direction: t, current: cur };
                    TrackerAction::SendDirection(t)
                } else {
                    self.current_direction = Some(cur);
                    self.commanded_horizontal = Some(t);
                    self.most_recent_error = None;
                    self.phase = TrackerPhase::Waiting;
                    TrackerAction::Wait
                }
            },
            None => {
                if self.commanded_horizontal.is_some() {
                    self.phase = TrackerPhase::Parking { current: cur };
                    TrackerAction::SendStop
                } else {
                    self.current_direction = Some(cur);
                    self.most_recent_error = None;
                    self.phase = TrackerPhase::Waiting;
                    TrackerAction::Wait
                }
            },
        }
    }

    fn step(&mut self, event: TrackerEvent) -> (a: TrackerAction)
        ensures
            (*final(self), a) == transition(*old(self), event),
    {
        match event {
            TrackerEvent::Tick => {
                if self.quit {
                    self.phase = TrackerPhase::Waiting;
                    TrackerAction::Finish
                } else if matches!(self.target, TelescopeTarget::Parked) {
                    self.commanded_horizontal = None;
                    self.phase = TrackerPhase::Waiting;
                    TrackerAction::Wait
                } else {
                    self.phase = TrackerPhase::Connecting;
                    TrackerAction::Connect
                }
            },
            TrackerEvent::ConnectFailed(err) => {
                if matches!(self.phase, TrackerPhase::Connecting) {
                    self.most_recent_error = Some(err);
                    self.connection_established = false;
                }
                self.phase = TrackerPhase::Waiting;
                TrackerAction::Wait
            },
            TrackerEvent::Connected { now } => {
                if matches!(self.phase, TrackerPhase::Connecting) {
                    if !self.connection_established {
                        self.phase = TrackerPhase::Stopping { now };
                        TrackerAction::SendStop
                    } else {
                        self.finish_connect(now)
                    }
                } else {
                    self.phase = TrackerPhase::Waiting;
                    TrackerAction::Wait
                }
            },
            TrackerEvent::CommandDone(r) => match self.phase {
                TrackerPhase::Stopping { now } => {
                    self.most_recent_error = r;
                    self.commanded_horizontal = None;
                    self.connection_established = true;
                    self.finish_connect(now)
                },
                TrackerPhase::Restarting => {
                    self.most_recent_error = r;
                    self.connection_established = false;
                    self.phase = TrackerPhase::CoolingDown;
                    TrackerAction::Cooldown
                },
                TrackerPhase::Pointing { direction, current } => {
                    match r {
                        None => {
                            self.current_direction = Some(current);
                            self.commanded_horizontal = Some(direction);
                            self.most_recent_error = None;
                        },
                        Some(err) => {
                            self.current_direction = Some(current);
                            self.most_recent_error = Some(err);
                        },
                    }
                    self.phase = TrackerPhase::Waiting;
                    TrackerAction::Wait
                },
                TrackerPhase::Parking { current } => {
                    match r {
                        None => {
                            self.current_direction = Some(current);
                            self.commanded_horizontal = None;
                            self.most_recent_error = None;
                        },
                        Some(err) => {
                            self.current_direction = Some(current);
                            self.most_recent_error = Some(err);
                        },
                    }
                    self.phase = TrackerPhase::Waiting;
                    TrackerAction::Wait
                },
                _ => {
                    self.phase = TrackerPhase::Waiting;
                    TrackerAction::Wait
                },
            },
            TrackerEvent::CooldownOver => {
                if matches!(self.phase, TrackerPhase::CoolingDown) {
                    self.should_restart = false;
                }
                self.phase = TrackerPhase::Waiting;
                TrackerAction::Wait
            },
            TrackerEvent::DirectionRead { converted, current } => match self.phase {
                TrackerPhase::Reading { target } => match current {
                    Ok(cur) => self.finish_read(target, converted, cur),
                    Err(err) => {
                        self.most_recent_error = Some(err);
                        self.phase = TrackerPhase::Waiting;
                        TrackerAction::Wait
                    },
                },
                _ => {
                    self.phase = TrackerPhase::Waiting;
                    TrackerAction::Wait
                },
            },
        }
    }
}

/// A tracker that drives a mount controller toward a target. Its state changes
/// only through the methods below, and never commands a direction below the
/// lowest allowed elevation.
pub struct TelescopeTracker {
    state: TrackerState,
}

impl View for TelescopeTracker {
    type V = TrackerState;

    closed spec fn view(&self) -> TrackerState {
        self.state
    }
}

impl TelescopeTracker {
    #[verifier::type_invariant]
    spec fn safe(&self) -> bool {
        within_safety_limit(self.state)
    }

    /// A parked tracker for the mount controller at `controller_address`, not yet connected.
    pub fn new(controller_address: String) -> (r: TelescopeTracker)
        ensures
            r@.controller_address == controller_address,
            r@.target == TelescopeTarget::Parked,
            r@.commanded_horizontal is None,
            r@.stop_tracking_time is None,
            r@.current_direction is None,
            r@.most_recent_error is None,
            !r@.should_restart,
            !r@.quit,
            !r@.connection_established,
            r@.phase == TrackerPhase::Waiting,
    {
        TelescopeTracker { state: TrackerState::initial(controller_address) }
    }

    /// What the tracker knows, for reading.
    pub fn state(&self) -> (r: &TrackerState)
        ensures
            *r == self@,
    {
        &self.state
    }

    /// Takes one decision of the control loop: records what `event` tells and
    /// returns what is to be done next.
    pub fn step(&mut self, event: TrackerEvent) -> (a: TrackerAction)
        ensures
            (final(self)@, a) == transition(old(self)@, event),
    {
        proof {
            use_type_invariant(&*self);
        }
        let ghost before = self.state;
        let mut state = TrackerState::initial(String::new());
        std::mem::swap(&mut state, &mut self.state);
        proof {
            lemma_pointing_respects_safety_limit(before, event);
        }
        let a = state.step(event);
        self.state = state;
        a
    }

    /// Asks the tracker to pursue `target` for the next ten seconds after `now`.
    /// The elevation is checked by the control loop, so this always succeeds.
    pub fn set_target(&mut self, target: TelescopeTarget, now: i64) -> (r: Result<
        TelescopeTarget,
        TelescopeError,
    >)
        requires
            !old(self)@.quit,
            now <= i64::MAX - TARGET_EXPIRY_MS,
        ensures
            r == Ok::<TelescopeTarget, TelescopeError>(target),
            final(self)@ == (TrackerState {
                target,
                stop_tracking_time: Some((now + TARGET_EXPIRY_MS) as i64),
                ..old(self)@
            }),
    {
        proof {
            use_type_invariant(&*self);
        }
        self.state.target = target;
        self.state.stop_tracking_time = Some(now + TARGET_EXPIRY_MS);
        Ok(target)
    }

    /// Asks the control loop to restart the mount controller.
    pub fn restart(&mut self)
        requires
            !old(self)@.quit,
        ensures
            final(self)@ == (TrackerState { should_restart: true, ..old(self)@ }),
    {
        proof {
            use_type_invariant(&*self);
        }
        self.state.should_restart = true;
    }

    /// Asks the control loop to end at its next tick.
    pub fn shutdown(&mut self)
        requires
            !old(self)@.quit,
        ensures
            final(self)@ == (TrackerState { quit: true, ..old(self)@ }),
    {
        proof {
            use_type_invariant(&*self);
        }
        self.state.quit = true;
    }

    /// A snapshot of the tracker; fails while no direction was ever read from the mount.
    pub fn info(&self) -> (r: Result<TelescopeTrackerInfo, TelescopeError>)
        requires
            !self@.quit,
        ensures
            match self@.current_direction {
                None => r == Err::<TelescopeTrackerInfo, TelescopeError>(
                    TelescopeError::TelescopeNotConnected,
                ),
                Some(cur) => r matches Ok(info) && info.target == self@.target
                    && info.commanded_horizontal == self@.commanded_horizontal
                    && info.current_horizontal == self@.current_direction
                    && info.status == status_of(self@.commanded_horizontal, cur)
                    && info.most_recent_error == self@.most_recent_error,
            },
    {
        let state = &self.state;
        let current = match state.current_direction {
            Some(cur) => cur,
            None => {
                return Err(TelescopeError::TelescopeNotConnected);
            },
        };
        let status = match state.commanded_horizontal {
            Some(commanded) => {
                // Two tolerance units, so that rounding in the controller does
                // not make the status flap between tracking and slewing.
                if directions_are_close(commanded, current, 2) {
                    TelescopeStatus::Tracking
                } else {
                    TelescopeStatus::Slewing
                }
            },
            None => TelescopeStatus::Idle,
        };
        Ok(
            TelescopeTrackerInfo {
                target: state.target,
                commanded_horizontal: state.commanded_horizontal,
                current_horizontal: state.current_direction,
                status,
                most_recent_error: duplicate_error(&state.most_recent_error),
            },
        )
    }

    /// The direction last read from the mount.
    pub fn direction(&self) -> (r: Option<Direction>)
        requires
            !self@.quit,
        ensures
            r == self@.current_direction,
    {
        self.state.current_direction
    }

    /// The target being pursued.
    pub fn target(&self) -> (r: Result<TelescopeTarget, TelescopeError>)
        requires
            !self@.quit,
        ensures
            r == Ok::<TelescopeTarget, TelescopeError>(self@.target),
    {
        Ok(self.state.target)
    }
}

/// No state ever commands, or has in flight, a direction below the lowest allowed elevation.
pub open spec fn within_safety_limit(s: TrackerState) -> bool {
    &&& (s.commanded_horizontal matches Some(t) ==> t.elevation >= LOWEST_ALLOWED_ELEVATION)
    &&& (s.phase matches TrackerPhase::Pointing { direction, .. } ==> direction.elevation
        >= LOWEST_ALLOWED_ELEVATION)
}

/// The control loop never sends a pointing command toward a direction below the
/// lowest allowed elevation, and never holds one as its commanded direction.
pub proof fn lemma_pointing_respects_safety_limit(s: TrackerState, e: TrackerEvent)
    requires
        within_safety_limit(s),
    ensures
        within_safety_limit(transition(s, e).0),
        transition(s, e).1 matches TrackerAction::SendDirection(t) ==> t.elevation
            >= LOWEST_ALLOWED_ELEVATION,
{
}

/// A pursued target whose direction lies below the lowest allowed elevation gets
/// no pointing command: the tick ends, the commanded direction is cleared and
/// `TargetBelowHorizon` is reported.
pub proof fn lemma_below_horizon_reported(
    s: TrackerState,
    target: TelescopeTarget,
    converted: Direction,
    cur: Direction,
)
    requires
        s.phase == (TrackerPhase::Reading { target }),
        target_direction(target, converted) matches Some(t) && t.elevation
            < LOWEST_ALLOWED_ELEVATION,
    ensures
        ({
            let (s2, a) = transition(
                s,
                TrackerEvent::DirectionRead { converted, current: Ok(cur) },
            );
            &&& a == TrackerAction::Wait
            &&& s2.commanded_horizontal is None
            &&& s2.most_recent_error == Some(TelescopeError::TargetBelowHorizon)
            &&& s2.current_direction == Some(cur)
        }),
{
}

/// The tick after a connection: for a tracker that was connected already, the
/// answer to `Connected`; otherwise the answer to the first `Stop` that follows it.
pub open spec fn connected_tick(s: TrackerState, now: i64, stop_result: Option<TelescopeError>) -> (
    TrackerState,
    TrackerAction,
) {
    let (s1, a1) = transition(s, TrackerEvent::Connected { now });
    if s.connection_established {
        (s1, a1)
    } else {
        transition(s1, TrackerEvent::CommandDone(stop_result))
    }
}

/// Dead-man's switch: a target set at `set_time` and not set again is dropped once
/// a tick comes more than ten seconds later. The commanded direction is cleared, the
/// target itself is kept, and no pointing command follows; within the ten
/// seconds the commanded direction is left alone.
pub proof fn lemma_target_expires(
    s: TrackerState,
    set_time: i64,
    now: i64,
    stop_result: Option<TelescopeError>,
    converted: Direction,
    cur: Direction,
)
    requires
        s.phase is Connecting,
        set_time <= i64::MAX - TARGET_EXPIRY_MS,
        s.stop_tracking_time == Some((set_time + TARGET_EXPIRY_MS) as i64),
    ensures
        ({
            let (s1, a1) = connected_tick(s, now, stop_result);
            let (s2, a2) = transition(
                s1,
                TrackerEvent::DirectionRead { converted, current: Ok(cur) },
            );
            &&& s1.target == s.target
            &&& now > set_time + TARGET_EXPIRY_MS ==> {
                &&& s1.commanded_horizontal is None
                &&& s1.stop_tracking_time is None
                &&& !(a2 is SendDirection)
                &&& s2.commanded_horizontal is None
                &&& s2.target == s.target
            }
            &&& (now <= set_time + TARGET_EXPIRY_MS && s.connection_established)
                ==> s1.commanded_horizontal == s.commanded_horizontal
        }),
{
}

/// A whole tick toward a target whose direction lies below the lowest allowed
/// elevation: the tracker connects, stops the mount first if it was not connected,
/// reads the mount's direction and ends the tick with `TargetBelowHorizon`, no
/// commanded direction and the reading recorded. None of its actions is a
/// pointing command.
pub proof fn lemma_below_horizon_tick(
    s: TrackerState,
    now: i64,
    stop_result: Option<TelescopeError>,
    converted: Direction,
    cur: Direction,
)
    requires
        !s.quit,
        !s.should_restart,
        !(s.target is Parked),
        target_direction(s.target, converted) matches Some(t) && t.elevation
            < LOWEST_ALLOWED_ELEVATION,
    ensures
        ({
            let (s0, a0) = transition(s, TrackerEvent::Tick);
            let (s1, a1) = connected_tick(s0, now, stop_result);
            let (s2, a2) = transition(
                s1,
                TrackerEvent::DirectionRead { converted, current: Ok(cur) },
            );
            &&& a0 == TrackerAction::Connect
            &&& a1 == (TrackerAction::ReadDirection { target: s.target })
            &&& a2 == TrackerAction::Wait
            &&& s2.most_recent_error == Some(TelescopeError::TargetBelowHorizon)
            &&& s2.commanded_horizontal is None
            &&& s2.current_direction == Some(cur)
            &&& s2.target == s.target
        }),
{
}

/// A horizontal target needs no coordinate conversion: once the pointing command
/// toward it is acknowledged, or at once when the mount is already there, its own
/// azimuth and elevation are the commanded direction.
pub proof fn lemma_horizontal_target_commanded_unchanged(
    s: TrackerState,
    azimuth: i64,
    elevation: i64,
    converted: Direction,
    cur: Direction,
)
    requires
        s.phase == (TrackerPhase::Reading {
            target: TelescopeTarget::Horizontal { azimuth, elevation },
        }),
        s.stop_tracking_time is Some,
        elevation >= LOWEST_ALLOWED_ELEVATION,
    ensures
        ({
            let t = Direction { azimuth, elevation };
            let (s2, a) = transition(
                s,
                TrackerEvent::DirectionRead { converted, current: Ok(cur) },
            );
            let s3 = if a is SendDirection {
                transition(s2, TrackerEvent::CommandDone(None)).0
            } else {
                s2
            };
            &&& a is SendDirection ==> a == TrackerAction::SendDirection(t)
            &&& s3.commanded_horizontal == Some(t)
        }),
{
}

/// Status hysteresis: a direction more than one tolerance unit but less than two
/// away from the commanded one still counts as tracking.
pub proof fn lemma_status_hysteresis(commanded: Direction, current: Direction)
    requires
        !close(commanded, current, 1),
        close(commanded, current, 2),
    ensures
        status_of(Some(commanded), current) == TelescopeStatus::Tracking,
{
}

} // verus!
