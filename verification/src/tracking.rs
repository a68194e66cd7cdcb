//! Decisions of the tracking controller on a periodic tick.

use vstd::prelude::*;
use crate::error::TrackerError;
use crate::states::TrackingState;
use crate::units::{
    angle_to_encoder_ticks, angle_to_motor_steps, convertible, nearest_steps_for_angle,
    ticks_for_angle, HOME_POSITION_MDEG, MILLIDEG_PER_REV,
};

verus! {

/// Hysteresis band around the target, in thousandths of a degree.
pub const HYSTERESIS_MDEG: i64 = 100;

/// Time between two tracking ticks, in milliseconds.
pub const TICK_PERIOD_MS: u64 = 300_000;

/// Time between two looks at the sunrise condition while sleeping, in milliseconds.
pub const SLEEP_POLL_MS: u64 = 600_000;

/// Time between two invitations of the firmware updater while sleeping, in milliseconds.
pub const UPDATE_INTERVAL_MS: u64 = 7_200_000;

/// Time between two critical status records while in fault, in milliseconds.
pub const FAULT_REPORT_MS: u64 = 900_000;

/// What the clock says about the day.
#[derive(PartialEq, Eq, Structural, Debug, Clone, Copy)]
pub struct ClockReading {
    /// Whether the time is at or after today's sunrise.
    pub after_sunrise: bool,
    /// Whether the time is at or after today's sunset.
    pub after_sunset: bool,
}

/// What the controller does on a tick.
#[derive(PartialEq, Eq, Structural, Debug, Clone, Copy)]
pub enum TickDecision {
    /// It is night, or the clock cannot be read: go to sleep.
    Sleep,
    /// The sun is within the hysteresis band: no motion.
    Hold,
    /// Move by a step count.
    OpenLoop {
        /// Offset to the sun, in thousandths of a degree.
        delta_mdeg: i64,
        /// Motor steps for the offset.
        steps: i64,
    },
    /// Move under encoder feedback.
    ClosedLoop {
        /// Offset to the sun, in thousandths of a degree.
        delta_mdeg: i64,
        /// Encoder ticks for the offset.
        ticks: i64,
    },
}

/// What the controller does while sleeping.
#[derive(PartialEq, Eq, Structural, Debug, Clone, Copy)]
pub enum SleepDecision {
    /// The tower is not at home: seek the limit switch again.
    Rehome,
    /// The sun has risen: go back to tracking.
    Wake,
    /// Keep waiting, and run the firmware updater first if it is due.
    Wait {
        /// Whether the firmware updater is invited to run.
        invite_update: bool,
    },
}

/// Whether the reading says that the sun is up.
pub open spec fn is_daytime(clock: Option<ClockReading>) -> bool {
    clock.is_some() && clock.unwrap().after_sunrise && !clock.unwrap().after_sunset
}

/// Whether a sun azimuth and a position can be compared.
pub open spec fn trackable(position_mdeg: int, sun_azimuth_mdeg: int) -> bool {
    0 <= sun_azimuth_mdeg < MILLIDEG_PER_REV && convertible(sun_azimuth_mdeg - position_mdeg)
}

/// The decision on a tick in daytime, for inputs that can be compared.
pub open spec fn daytime_decision(
    position_mdeg: int,
    sun_azimuth_mdeg: int,
    mode: TrackingState,
) -> TickDecision {
    let delta = sun_azimuth_mdeg - position_mdeg;
    if -HYSTERESIS_MDEG <= delta <= HYSTERESIS_MDEG {
        TickDecision::Hold
    } else {
        match mode {
            TrackingState::L1 => TickDecision::OpenLoop {
                delta_mdeg: delta as i64,
                steps: nearest_steps_for_angle(delta) as i64,
            },
            TrackingState::L2 => TickDecision::ClosedLoop {
                delta_mdeg: delta as i64,
                ticks: ticks_for_angle(delta) as i64,
            },
            TrackingState::L3 => TickDecision::Hold,
        }
    }
}

/// Decides what to do on a tracking tick. `clock` is `None` when the clock
/// could not be read. At night the sun azimuth is not looked at. In daytime a
/// sun azimuth outside `0 .. 360` degrees, or a position too far from it to
/// convert, is rejected.
pub fn decide_tick(
    clock: Option<ClockReading>,
    position_mdeg: i64,
    sun_azimuth_mdeg: i64,
    mode: TrackingState,
) -> (result: Result<TickDecision, TrackerError>)
    ensures
        !is_daytime(clock) ==> result == Ok::<TickDecision, TrackerError>(TickDecision::Sleep),
        is_daytime(clock) && !trackable(position_mdeg as int, sun_azimuth_mdeg as int) ==> result
            == Err::<TickDecision, TrackerError>(TrackerError::InvalidInput),
        is_daytime(clock) && trackable(position_mdeg as int, sun_azimuth_mdeg as int) ==> result
            == Ok::<TickDecision, TrackerError>(
            daytime_decision(position_mdeg as int, sun_azimuth_mdeg as int, mode),
        ),
{
    let day: bool = match clock {
        Some(reading) => reading.after_sunrise && !reading.after_sunset,
        None => false,
    };
    if !day {
        return Ok(TickDecision::Sleep);
    }
    if sun_azimuth_mdeg < 0 || sun_azimuth_mdeg >= MILLIDEG_PER_REV {
        return Err(TrackerError::InvalidInput);
    }
    let wide: i128 = sun_azimuth_mdeg as i128 - position_mdeg as i128;
    if wide < -100_000_000_000 || wide > 100_000_000_000 {
        return Err(TrackerError::InvalidInput);
    }
    let delta: i64 = wide as i64;
    if -HYSTERESIS_MDEG <= delta && delta <= HYSTERESIS_MDEG {
        return Ok(TickDecision::Hold);
    }
    match mode {
        TrackingState::L1 => {
            let steps: i64 = angle_to_motor_steps(delta);
            Ok(TickDecision::OpenLoop { delta_mdeg: delta, steps })
        },
        TrackingState::L2 => {
            let ticks: i64 = angle_to_encoder_ticks(delta);
            Ok(TickDecision::ClosedLoop { delta_mdeg: delta, ticks })
        },
        TrackingState::L3 => Ok(TickDecision::Hold),
    }
}

/// Decides what to do while sleeping: a tower away from home is homed again;
/// at home the controller wakes at sunrise and otherwise waits, inviting the
/// firmware updater every two hours.
pub fn decide_sleep(
    clock: Option<ClockReading>,
    position_mdeg: i64,
    since_update_ms: u64,
) -> (decision: SleepDecision)
    ensures
        position_mdeg != HOME_POSITION_MDEG ==> decision == SleepDecision::Rehome,
        position_mdeg == HOME_POSITION_MDEG && is_daytime(clock) ==> decision
            == SleepDecision::Wake,
        position_mdeg == HOME_POSITION_MDEG && !is_daytime(clock) ==> decision
            == (SleepDecision::Wait { invite_update: since_update_ms >= UPDATE_INTERVAL_MS }),
{
    if position_mdeg != HOME_POSITION_MDEG {
        return SleepDecision::Rehome;
    }
    let day: bool = match clock {
        Some(reading) => reading.after_sunrise && !reading.after_sunset,
        None => false,
    };
    if day {
        SleepDecision::Wake
    } else {
        SleepDecision::Wait { invite_update: since_update_ms >= UPDATE_INTERVAL_MS }
    }
}

/// Whether the next critical status record is due while in fault.
pub fn fault_report_due(since_report_ms: u64) -> (due: bool)
    ensures
        due == (since_report_ms >= FAULT_REPORT_MS),
{
    since_report_ms >= FAULT_REPORT_MS
}

/// Within the hysteresis band nothing moves, whatever the tracking level.
pub proof fn lemma_hysteresis_holds(position_mdeg: int, sun_azimuth_mdeg: int, mode: TrackingState)
    requires
        -HYSTERESIS_MDEG <= sun_azimuth_mdeg - position_mdeg <= HYSTERESIS_MDEG,
    ensures
        daytime_decision(position_mdeg, sun_azimuth_mdeg, mode) == TickDecision::Hold,
{
}

} // verus!
