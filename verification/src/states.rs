//! Tracking levels and the states of the tracking controller.

use vstd::prelude::*;

verus! {

/// How the tracker follows the sun.
///
/// - `L1`: open loop, the stepper alone follows the sun
/// - `L2`: closed loop, the move is driven by the encoder
/// - `L3`: reserved
#[derive(PartialEq, Eq, Structural, Debug, Clone, Copy)]
pub enum TrackingState {
    /// Open-loop tracking.
    L1,
    /// Closed-loop tracking on the encoder.
    L2,
    /// Reserved.
    L3,
}

impl TrackingState {
    /// Whether the tracker is in an active tracking level.
    pub fn is_active(&self) -> (active: bool)
        ensures
            active == (*self == TrackingState::L1 || *self == TrackingState::L2),
    {
        match self {
            TrackingState::L1 => true,
            TrackingState::L2 => true,
            TrackingState::L3 => false,
        }
    }

    /// The next level in the tracking sequence; the last level has none.
    pub fn next(&self) -> (level: Option<TrackingState>)
        ensures
            *self == TrackingState::L1 ==> level == Some(TrackingState::L2),
            *self == TrackingState::L2 ==> level == Some(TrackingState::L3),
            *self == TrackingState::L3 ==> level.is_none(),
    {
        match self {
            TrackingState::L1 => Some(TrackingState::L2),
            TrackingState::L2 => Some(TrackingState::L3),
            TrackingState::L3 => None,
        }
    }

    /// The previous level in the tracking sequence; the first level has none.
    pub fn previous(&self) -> (level: Option<TrackingState>)
        ensures
            *self == TrackingState::L1 ==> level.is_none(),
            *self == TrackingState::L2 ==> level == Some(TrackingState::L1),
            *self == TrackingState::L3 ==> level == Some(TrackingState::L2),
    {
        match self {
            TrackingState::L1 => None,
            TrackingState::L2 => Some(TrackingState::L1),
            TrackingState::L3 => Some(TrackingState::L2),
        }
    }
}

/// State of the tracking controller. The state after boot is `Homing`.
#[derive(PartialEq, Eq, Structural, Debug, Clone, Copy)]
pub enum ControllerState {
    /// Seeking the limit switch.
    Homing,
    /// Homed and waiting for the next tracking tick.
    Idle,
    /// Moving by a step count alone.
    OpenLoop,
    /// Moving under encoder feedback.
    ClosedLoop,
    /// Parked for the night.
    Sleeping,
    /// Stopped for good after a failure.
    Fault,
}

/// What can happen to the controller.
#[derive(PartialEq, Eq, Structural, Debug, Clone, Copy)]
pub enum ControllerEvent {
    /// The limit switch reported home.
    HomeFound,
    /// The homing sweep ended without a home event.
    HomeNotFound,
    /// A tick found that it is before sunrise or after sunset, or the clock
    /// could not be read.
    Night,
    /// A tick found the sun within the hysteresis band of the position.
    WithinTolerance,
    /// A tick asks for an open-loop move.
    StartOpenLoop,
    /// A tick asks for a closed-loop move.
    StartClosedLoop,
    /// The move in progress reached its end.
    MoveComplete,
    /// A pin failed during the move in progress.
    PinFailure,
    /// The encoder stood still while the stepper was commanded to move.
    Stall,
    /// The closed loop ran out of iterations.
    IterationCap,
    /// The tower is found away from home while sleeping.
    AwayFromHome,
    /// The sun has risen.
    Sunrise,
}

/// The state that follows `state` on `event`. Every pair has a target; an
/// event that does not concern a state leaves it as it is.
pub open spec fn next_state(state: ControllerState, event: ControllerEvent) -> ControllerState {
    match state {
        ControllerState::Fault => ControllerState::Fault,
        ControllerState::Homing => match event {
            ControllerEvent::HomeFound => ControllerState::Idle,
            ControllerEvent::HomeNotFound => ControllerState::Fault,
            _ => ControllerState::Homing,
        },
        ControllerState::Idle => match event {
            ControllerEvent::Night => ControllerState::Sleeping,
            ControllerEvent::StartOpenLoop => ControllerState::OpenLoop,
            ControllerEvent::StartClosedLoop => ControllerState::ClosedLoop,
            _ => ControllerState::Idle,
        },
        ControllerState::OpenLoop => match event {
            ControllerEvent::MoveComplete => ControllerState::Idle,
            ControllerEvent::PinFailure => ControllerState::Idle,
            _ => ControllerState::OpenLoop,
        },
        ControllerState::ClosedLoop => match event {
            ControllerEvent::MoveComplete => ControllerState::Idle,
            ControllerEvent::PinFailure => ControllerState::Idle,
            ControllerEvent::Stall => ControllerState::Fault,
            ControllerEvent::IterationCap => ControllerState::Fault,
            _ => ControllerState::ClosedLoop,
        },
        ControllerState::Sleeping => match event {
            ControllerEvent::AwayFromHome => ControllerState::Homing,
            ControllerEvent::Sunrise => ControllerState::Idle,
            _ => ControllerState::Sleeping,
        },
    }
}

impl ControllerState {
    /// The state after boot.
    pub fn initial() -> (state: ControllerState)
        ensures
            state == ControllerState::Homing,
    {
        ControllerState::Homing
    }

    /// The state that follows this one on `event`.
    pub fn on_event(self, event: ControllerEvent) -> (state: ControllerState)
        ensures
            state == next_state(self, event),
    {
        match self {
            ControllerState::Fault => ControllerState::Fault,
            ControllerState::Homing => match event {
                ControllerEvent::HomeFound => ControllerState::Idle,
                ControllerEvent::HomeNotFound => ControllerState::Fault,
                _ => ControllerState::Homing,
            },
            ControllerState::Idle => match event {
                ControllerEvent::Night => ControllerState::Sleeping,
                ControllerEvent::StartOpenLoop => ControllerState::OpenLoop,
                ControllerEvent::StartClosedLoop => ControllerState::ClosedLoop,
                _ => ControllerState::Idle,
            },
            ControllerState::OpenLoop => match event {
                ControllerEvent::MoveComplete => ControllerState::Idle,
                ControllerEvent::PinFailure => ControllerState::Idle,
                _ => ControllerState::OpenLoop,
            },
            ControllerState::ClosedLoop => match event {
                ControllerEvent::MoveComplete => ControllerState::Idle,
                ControllerEvent::PinFailure => ControllerState::Idle,
                ControllerEvent::Stall => ControllerState::Fault,
                ControllerEvent::IterationCap => ControllerState::Fault,
                _ => ControllerState::ClosedLoop,
            },
            ControllerState::Sleeping => match event {
                ControllerEvent::AwayFromHome => ControllerState::Homing,
                ControllerEvent::Sunrise => ControllerState::Idle,
                _ => ControllerState::Sleeping,
            },
        }
    }

    /// Whether the motor may be energised in this state.
    pub fn is_moving(self) -> (moving: bool)
        ensures
            moving == (self == ControllerState::Homing || self == ControllerState::OpenLoop
                || self == ControllerState::ClosedLoop),
    {
        match self {
            ControllerState::Homing => true,
            ControllerState::OpenLoop => true,
            ControllerState::ClosedLoop => true,
            _ => false,
        }
    }
}

/// The state after a run of events.
pub open spec fn state_after(state: ControllerState, events: Seq<ControllerEvent>)
    -> ControllerState
    decreases events.len(),
{
    if events.len() == 0 {
        state
    } else {
        state_after(next_state(state, events[0]), events.skip(1))
    }
}

/// The controller never leaves `Fault` by itself, whatever happens.
pub proof fn lemma_fault_is_final(events: Seq<ControllerEvent>)
    ensures
        state_after(ControllerState::Fault, events) == ControllerState::Fault,
    decreases events.len(),
{
    if events.len() > 0 {
        lemma_fault_is_final(events.skip(1));
    }
}

/// A failed homing, a stall and an exhausted closed loop all end in `Fault`,
/// and nothing else does; a move is only ever started from `Idle`, and
/// `Homing` is left for `Idle` only when home has been found.
pub proof fn lemma_transitions(state: ControllerState, event: ControllerEvent)
    ensures
        next_state(ControllerState::Homing, ControllerEvent::HomeNotFound)
            == ControllerState::Fault,
        next_state(ControllerState::ClosedLoop, ControllerEvent::Stall) == ControllerState::Fault,
        next_state(ControllerState::ClosedLoop, ControllerEvent::IterationCap)
            == ControllerState::Fault,
        next_state(state, event) == ControllerState::OpenLoop && state != ControllerState::OpenLoop
            ==> state == ControllerState::Idle && event == ControllerEvent::StartOpenLoop,
        next_state(state, event) == ControllerState::ClosedLoop && state
            != ControllerState::ClosedLoop ==> state == ControllerState::Idle && event
            == ControllerEvent::StartClosedLoop,
        next_state(state, event) == ControllerState::Fault && state != ControllerState::Fault ==> (
        event == ControllerEvent::HomeNotFound || event == ControllerEvent::Stall || event
            == ControllerEvent::IterationCap),
        state == ControllerState::Homing && next_state(state, event) == ControllerState::Idle
            ==> event == ControllerEvent::HomeFound,
{
}

} // verus!
