use solar_tracker::error::TrackerError;
use solar_tracker::states::{ControllerEvent, ControllerState, TrackingState};
use solar_tracker::tracking::{
    decide_sleep, decide_tick, fault_report_due, ClockReading, SleepDecision, TickDecision,
    FAULT_REPORT_MS, HYSTERESIS_MDEG, SLEEP_POLL_MS, TICK_PERIOD_MS, UPDATE_INTERVAL_MS,
};

const DAY: Option<ClockReading> = Some(ClockReading { after_sunrise: true, after_sunset: false });
const EVENING: Option<ClockReading> =
    Some(ClockReading { after_sunrise: true, after_sunset: true });
const EARLY: Option<ClockReading> =
    Some(ClockReading { after_sunrise: false, after_sunset: false });

const ALL_STATES: [ControllerState; 6] = [
    ControllerState::Homing,
    ControllerState::Idle,
    ControllerState::OpenLoop,
    ControllerState::ClosedLoop,
    ControllerState::Sleeping,
    ControllerState::Fault,
];

const ALL_EVENTS: [ControllerEvent; 12] = [
    ControllerEvent::HomeFound,
    ControllerEvent::HomeNotFound,
    ControllerEvent::Night,
    ControllerEvent::WithinTolerance,
    ControllerEvent::StartOpenLoop,
    ControllerEvent::StartClosedLoop,
    ControllerEvent::MoveComplete,
    ControllerEvent::PinFailure,
    ControllerEvent::Stall,
    ControllerEvent::IterationCap,
    ControllerEvent::AwayFromHome,
    ControllerEvent::Sunrise,
];

#[test]
fn tracking_levels() {
    assert!(TrackingState::L1.is_active());
    assert!(TrackingState::L2.is_active());
    assert!(!TrackingState::L3.is_active());
    assert_eq!(TrackingState::L1.next(), Some(TrackingState::L2));
    assert_eq!(TrackingState::L2.next(), Some(TrackingState::L3));
    assert_eq!(TrackingState::L3.next(), None);
    assert_eq!(TrackingState::L1.previous(), None);
    assert_eq!(TrackingState::L2.previous(), Some(TrackingState::L1));
    assert_eq!(TrackingState::L3.previous(), Some(TrackingState::L2));
}

#[test]
fn boot_state_is_homing() {
    assert_eq!(ControllerState::initial(), ControllerState::Homing);
    assert!(ControllerState::Homing.is_moving());
    assert!(!ControllerState::Idle.is_moving());
    assert!(!ControllerState::Fault.is_moving());
}

#[test]
fn fault_is_never_left() {
    for event in ALL_EVENTS.iter() {
        assert_eq!(ControllerState::Fault.on_event(*event), ControllerState::Fault);
    }
}

#[test]
fn every_pair_has_a_target_and_moves_start_from_idle() {
    for state in ALL_STATES.iter() {
        for event in ALL_EVENTS.iter() {
            let next = state.on_event(*event);
            if next == ControllerState::OpenLoop && *state != ControllerState::OpenLoop {
                assert_eq!(*state, ControllerState::Idle);
            }
            if next == ControllerState::ClosedLoop && *state != ControllerState::ClosedLoop {
                assert_eq!(*state, ControllerState::Idle);
            }
        }
    }
}

#[test]
fn homing_transitions() {
    let s = ControllerState::Homing;
    assert_eq!(s.on_event(ControllerEvent::HomeFound), ControllerState::Idle);
    assert_eq!(s.on_event(ControllerEvent::HomeNotFound), ControllerState::Fault);
    assert_eq!(s.on_event(ControllerEvent::Night), ControllerState::Homing);
}

#[test]
fn idle_and_motion_transitions() {
    let idle = ControllerState::Idle;
    assert_eq!(idle.on_event(ControllerEvent::Night), ControllerState::Sleeping);
    assert_eq!(idle.on_event(ControllerEvent::WithinTolerance), ControllerState::Idle);
    assert_eq!(idle.on_event(ControllerEvent::StartOpenLoop), ControllerState::OpenLoop);
    assert_eq!(idle.on_event(ControllerEvent::StartClosedLoop), ControllerState::ClosedLoop);
    assert_eq!(
        ControllerState::OpenLoop.on_event(ControllerEvent::MoveComplete),
        ControllerState::Idle
    );
    assert_eq!(
        ControllerState::OpenLoop.on_event(ControllerEvent::PinFailure),
        ControllerState::Idle
    );
    assert_eq!(
        ControllerState::ClosedLoop.on_event(ControllerEvent::MoveComplete),
        ControllerState::Idle
    );
    assert_eq!(
        ControllerState::ClosedLoop.on_event(ControllerEvent::Stall),
        ControllerState::Fault
    );
    assert_eq!(
        ControllerState::ClosedLoop.on_event(ControllerEvent::IterationCap),
        ControllerState::Fault
    );
}

#[test]
fn sunset_rehomes_then_sleeps() {
    // time past sunset, position 42 degrees
    assert_eq!(decide_tick(EVENING, 42_000, 250_000, TrackingState::L2), Ok(TickDecision::Sleep));
    let mut state = ControllerState::Idle.on_event(ControllerEvent::Night);
    assert_eq!(state, ControllerState::Sleeping);
    assert_eq!(decide_sleep(EVENING, 42_000, 0), SleepDecision::Rehome);
    state = state.on_event(ControllerEvent::AwayFromHome);
    assert_eq!(state, ControllerState::Homing);
    state = state.on_event(ControllerEvent::HomeFound);
    assert_eq!(state, ControllerState::Idle);
    state = state.on_event(ControllerEvent::Night);
    assert_eq!(state, ControllerState::Sleeping);
    // at home: no further motion until sunrise
    assert_eq!(decide_sleep(EVENING, 90_000, 0), SleepDecision::Wait { invite_update: false });
    assert_eq!(decide_sleep(EARLY, 90_000, 0), SleepDecision::Wait { invite_update: false });
    assert_eq!(decide_sleep(DAY, 90_000, 0), SleepDecision::Wake);
    assert_eq!(state.on_event(ControllerEvent::Sunrise), ControllerState::Idle);
}

#[test]
fn update_is_invited_every_two_hours_of_sleep() {
    assert_eq!(UPDATE_INTERVAL_MS, 2 * 60 * 60 * 1000);
    assert_eq!(SLEEP_POLL_MS, 10 * 60 * 1000);
    assert_eq!(TICK_PERIOD_MS, 5 * 60 * 1000);
    assert_eq!(
        decide_sleep(EVENING, 90_000, UPDATE_INTERVAL_MS - 1),
        SleepDecision::Wait { invite_update: false }
    );
    assert_eq!(
        decide_sleep(EVENING, 90_000, UPDATE_INTERVAL_MS),
        SleepDecision::Wait { invite_update: true }
    );
    assert_eq!(decide_sleep(None, 90_000, 0), SleepDecision::Wait { invite_update: false });
}

#[test]
fn fault_reports_every_fifteen_minutes() {
    assert_eq!(FAULT_REPORT_MS, 15 * 60 * 1000);
    assert!(!fault_report_due(FAULT_REPORT_MS - 1));
    assert!(fault_report_due(FAULT_REPORT_MS));
}

#[test]
fn delta_below_hysteresis_holds() {
    // position 179.95 degrees, sun 180.00 degrees
    assert_eq!(decide_tick(DAY, 179_950, 180_000, TrackingState::L1), Ok(TickDecision::Hold));
    assert_eq!(decide_tick(DAY, 179_950, 180_000, TrackingState::L2), Ok(TickDecision::Hold));
    assert_eq!(HYSTERESIS_MDEG, 100);
    assert_eq!(decide_tick(DAY, 179_900, 180_000, TrackingState::L2), Ok(TickDecision::Hold));
    assert_eq!(decide_tick(DAY, 180_100, 180_000, TrackingState::L2), Ok(TickDecision::Hold));
    assert_eq!(
        decide_tick(DAY, 179_899, 180_000, TrackingState::L2),
        Ok(TickDecision::ClosedLoop { delta_mdeg: 101, ticks: 98 })
    );
}

#[test]
fn cold_boot_at_noon_moves_open_loop_to_the_sun() {
    // homed at 90 degrees, sun near 180 degrees at local noon
    assert_eq!(
        decide_tick(DAY, 90_000, 180_000, TrackingState::L1),
        Ok(TickDecision::OpenLoop { delta_mdeg: 90_000, steps: 2_688_000 })
    );
    assert_eq!(
        decide_tick(DAY, 90_000, 175_000, TrackingState::L2),
        Ok(TickDecision::ClosedLoop { delta_mdeg: 85_000, ticks: 82_243 })
    );
    assert_eq!(
        decide_tick(DAY, 90_000, 85_000, TrackingState::L2),
        Ok(TickDecision::ClosedLoop { delta_mdeg: -5_000, ticks: -4_838 })
    );
    assert_eq!(decide_tick(DAY, 90_000, 180_000, TrackingState::L3), Ok(TickDecision::Hold));
}

#[test]
fn night_and_unread_clock_sleep() {
    assert_eq!(decide_tick(None, 90_000, 180_000, TrackingState::L2), Ok(TickDecision::Sleep));
    assert_eq!(decide_tick(EARLY, 90_000, 180_000, TrackingState::L2), Ok(TickDecision::Sleep));
    assert_eq!(decide_tick(EVENING, 90_000, 180_000, TrackingState::L2), Ok(TickDecision::Sleep));
    // at night the sun azimuth is not looked at
    assert_eq!(decide_tick(EVENING, 90_000, -1, TrackingState::L2), Ok(TickDecision::Sleep));
}

#[test]
fn sun_azimuth_out_of_range_is_rejected() {
    assert_eq!(
        decide_tick(DAY, 90_000, 360_000, TrackingState::L2),
        Err(TrackerError::InvalidInput)
    );
    assert_eq!(decide_tick(DAY, 90_000, -1, TrackingState::L2), Err(TrackerError::InvalidInput));
    assert_eq!(
        decide_tick(DAY, i64::MIN, 180_000, TrackingState::L1),
        Err(TrackerError::InvalidInput)
    );
    assert_eq!(
        decide_tick(DAY, -100_000_000_000, 1, TrackingState::L1),
        Err(TrackerError::InvalidInput)
    );
}

#[test]
fn errors_are_events_of_the_controller() {
    assert_eq!(TrackerError::BusError.controller_event(), Some(ControllerEvent::PinFailure));
    assert_eq!(TrackerError::Stall.controller_event(), Some(ControllerEvent::Stall));
    assert_eq!(TrackerError::HomeNotFound.controller_event(), Some(ControllerEvent::HomeNotFound));
    assert_eq!(TrackerError::DeviceUninitialised.controller_event(), Some(ControllerEvent::Night));
    assert_eq!(TrackerError::InvalidInput.controller_event(), None);
    assert_eq!(TrackerError::Persistence.controller_event(), None);
    let stalled = TrackerError::Stall.controller_event().unwrap();
    assert_eq!(ControllerState::ClosedLoop.on_event(stalled), ControllerState::Fault);
    let lost = TrackerError::HomeNotFound.controller_event().unwrap();
    assert_eq!(ControllerState::Homing.on_event(lost), ControllerState::Fault);
    let pin = TrackerError::BusError.controller_event().unwrap();
    assert_eq!(ControllerState::OpenLoop.on_event(pin), ControllerState::Idle);
    let dark = TrackerError::DeviceUninitialised.controller_event().unwrap();
    assert_eq!(ControllerState::Idle.on_event(dark), ControllerState::Sleeping);
}
