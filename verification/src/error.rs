//! Error kinds of the motion-control core, and what the controller makes of them.

use vstd::prelude::*;
use crate::states::{next_state, ControllerEvent, ControllerState};

verus! {

/// What can go wrong in the tracker.
#[derive(Clone, Copy, Debug, PartialEq, Eq, Structural)]
pub enum TrackerError {
    /// A bus or pin read or write failed.
    BusError,
    /// A parameter was out of range.
    InvalidInput,
    /// The clock or the encoder holds no valid value yet.
    DeviceUninitialised,
    /// The encoder did not advance although the stepper was commanded to move.
    Stall,
    /// The limit switch was not seen within a full sweep.
    HomeNotFound,
    /// The store rejected a write.
    Persistence,
}

/// The event that an error is to the controller. A pin failure ends the move
/// in progress, a clock without a valid time counts as night, a stall and a
/// home that was not found are handed on as they are. A rejected parameter and
/// a rejected write are no events: the first is returned to the caller, the
/// second is swallowed and the next write tries again.
pub open spec fn event_of_error(error: TrackerError) -> Option<ControllerEvent> {
    match error {
        TrackerError::BusError => Some(ControllerEvent::PinFailure),
        TrackerError::InvalidInput => None,
        TrackerError::DeviceUninitialised => Some(ControllerEvent::Night),
        TrackerError::Stall => Some(ControllerEvent::Stall),
        TrackerError::HomeNotFound => Some(ControllerEvent::HomeNotFound),
        TrackerError::Persistence => None,
    }
}

impl TrackerError {
    /// The event that this error is to the controller, if it is one.
    pub fn controller_event(self) -> (event: Option<ControllerEvent>)
        ensures
            event == event_of_error(self),
    {
        match self {
            TrackerError::BusError => Some(ControllerEvent::PinFailure),
            TrackerError::InvalidInput => None,
            TrackerError::DeviceUninitialised => Some(ControllerEvent::Night),
            TrackerError::Stall => Some(ControllerEvent::Stall),
            TrackerError::HomeNotFound => Some(ControllerEvent::HomeNotFound),
            TrackerError::Persistence => None,
        }
    }
}

/// How errors propagate: a stall during a closed-loop move and a failed
/// homing end in fault; a pin failure during a move returns the controller to
/// idle; a clock without a valid time sends an idle controller to sleep.
pub proof fn lemma_error_propagation()
    ensures
        next_state(ControllerState::ClosedLoop, event_of_error(TrackerError::Stall).unwrap())
            == ControllerState::Fault,
        next_state(ControllerState::Homing, event_of_error(TrackerError::HomeNotFound).unwrap())
            == ControllerState::Fault,
        next_state(ControllerState::OpenLoop, event_of_error(TrackerError::BusError).unwrap())
            == ControllerState::Idle,
        next_state(ControllerState::ClosedLoop, event_of_error(TrackerError::BusError).unwrap())
            == ControllerState::Idle,
        next_state(
            ControllerState::Idle,
            event_of_error(TrackerError::DeviceUninitialised).unwrap(),
        ) == ControllerState::Sleeping,
{
}

} // verus!
