//! The tower as a whole: position, encoder, limit switch, stepper and store
//! under one roof, with the operations that the outer loop calls.
//!
//! Nothing here touches hardware. The caller samples the pins and the clocks,
//! hands the values in, and carries out what comes back: a step pulse, a
//! relative move, a write of the stored keys.

use vstd::prelude::*;
use crate::closed_loop::{loop_action, ClosedLoopMove, LoopAction, StallModel};
use crate::error::TrackerError;
use crate::homing::{HomingAction, HomingModel, HomingPass};
use crate::limit_switch::{GateModel, LimitSwitchGate, SwitchSample};
use crate::position_store::{
    adjusted_of, adjusted_ticks, decoded, encoded, raw_count, PositionStore, Snapshot, StoreModel,
    StoredKeys,
};
use crate::quadrature::{level_bits, DecoderModel, QuadratureDecoder};
use crate::states::{next_state, ControllerEvent, ControllerState, TrackingState};
use crate::stepper::{Driver, DriverModel, POSITION_LIMIT};
use crate::tracking::{
    daytime_decision, decide_tick, is_daytime, trackable, ClockReading, TickDecision,
};
use crate::units::{
    angle_for_ticks, calculate_steps, convertible, encoder_ticks_to_angle, steps_for_angle,
    ticks_for_angle, CONVERSION_LIMIT, HOME_ENCODER_COUNT, HOME_POSITION_MDEG,
};

verus! {

/// Maximum speed of the motor, in steps per second.
pub const DEFAULT_SPEED: u32 = 43_000;

/// Acceleration of the motor, in steps per second squared.
pub const DEFAULT_ACCELERATION: u32 = 3_000;

/// Azimuth of the parking position, in thousandths of a degree.
pub const PARKING_POSITION_MDEG: i64 = 60_000;

/// Mathematical state of the tower.
pub struct MotionModel {
    /// Azimuth of the tower in thousandths of a degree.
    pub location: int,
    /// Tracking level.
    pub tracking_state: TrackingState,
    /// State of the controller.
    pub state: ControllerState,
    /// The stepper driver.
    pub motor: DriverModel,
    /// The quadrature decoder.
    pub encoder: DecoderModel,
    /// The limit-switch gate.
    pub gate: GateModel,
    /// The position store.
    pub store: StoreModel,
}

/// The event that a tick decision is to the controller.
pub open spec fn event_of(decision: TickDecision) -> ControllerEvent {
    match decision {
        TickDecision::Sleep => ControllerEvent::Night,
        TickDecision::Hold => ControllerEvent::WithinTolerance,
        TickDecision::OpenLoop { .. } => ControllerEvent::StartOpenLoop,
        TickDecision::ClosedLoop { .. } => ControllerEvent::StartClosedLoop,
    }
}

/// The event that a homing action is to the controller, if it is one.
pub open spec fn homing_event(action: HomingAction) -> Option<ControllerEvent> {
    match action {
        HomingAction::Found => Some(ControllerEvent::HomeFound),
        HomingAction::NotFound => Some(ControllerEvent::HomeNotFound),
        HomingAction::Move { .. } => None,
    }
}

/// The event that a turn of the closed loop is to the controller, if it is one.
pub open spec fn loop_event(action: LoopAction) -> Option<ControllerEvent> {
    match action {
        LoopAction::Converged => Some(ControllerEvent::MoveComplete),
        LoopAction::Stalled => Some(ControllerEvent::Stall),
        LoopAction::GaveUp => Some(ControllerEvent::IterationCap),
        LoopAction::Command { .. } => None,
    }
}

/// The tower and its controller.
#[derive(Clone, Copy, Debug)]
pub struct Motion {
    location: i64,
    tracking_state: TrackingState,
    state: ControllerState,
    speed: u32,
    acceleration: u32,
    motor: Driver,
    encoder: QuadratureDecoder,
    gate: LimitSwitchGate,
    store: PositionStore,
}

impl View for Motion {
    type V = MotionModel;

    closed spec fn view(&self) -> MotionModel {
        MotionModel {
            location: self.location as int,
            tracking_state: self.tracking_state,
            state: self.state,
            motor: self.motor@,
            encoder: self.encoder@,
            gate: self.gate@,
            store: self.store@,
        }
    }
}

impl Motion {
    /// Well-formedness: the parts are well formed and the motor settings are positive.
    pub closed spec fn wf(&self) -> bool {
        &&& self.motor@.wf()
        &&& self.encoder.wf()
        &&& self.speed == DEFAULT_SPEED
        &&& self.acceleration == DEFAULT_ACCELERATION
    }

    /// A tower after boot at time `now_ms`, with the encoder lines at the
    /// given levels: position zero, encoder count zero, closed-loop tracking,
    /// controller in `Homing`, motor halted.
    pub fn new(enc_a: bool, enc_b: bool, now_ms: u64) -> (motion: Self)
        ensures
            motion.wf(),
            motion@.location == 0,
            motion@.tracking_state == TrackingState::L2,
            motion@.state == ControllerState::Homing,
            motion@.encoder == (DecoderModel { count: 0, last_ab: level_bits(enc_a, enc_b) }),
            motion@.gate == (GateModel {
                pressed: false,
                last_change_ms: now_ms,
                zeroed_this_press: false,
            }),
            motion@.store == (StoreModel { loaded: false, last_write_ms: now_ms }),
            motion@.motor.wf(),
            motion@.motor.max_speed == 1,
            motion@.motor.acceleration == 1,
            motion@.motor.current_position == 0,
            motion@.motor.target_position == 0,
            motion@.motor.ramp_index == 0,
            motion@.motor.interval_ps == 0,
            motion@.motor.forward,
            motion@.motor.last_step_us == 0,
    {
        Motion {
            location: 0,
            tracking_state: TrackingState::L2,
            state: ControllerState::initial(),
            speed: DEFAULT_SPEED,
            acceleration: DEFAULT_ACCELERATION,
            motor: Driver::new(),
            encoder: QuadratureDecoder::new(enc_a, enc_b),
            gate: LimitSwitchGate::new(now_ms),
            store: PositionStore::new(now_ms),
        }
    }

    /// Hands the maximum speed and the acceleration to the motor.
    pub fn init(&mut self)
        requires
            old(self).wf(),
        ensures
            final(self).wf(),
            final(self)@ == (MotionModel { motor: final(self)@.motor, ..old(self)@ }),
            final(self)@.motor == (DriverModel {
                acceleration: DEFAULT_ACCELERATION as int,
                initial_interval_ps: final(self)@.motor.initial_interval_ps,
                ..old(self)@.motor.with_max_speed(DEFAULT_SPEED as int)
            }),
    {
        let _ = self.motor.set_max_speed(self.speed);
        let _ = self.motor.set_acceleration(self.acceleration);
    }

    /// Takes one sample of the encoder lines.
    pub fn read_encoder(&mut self, enc_a: bool, enc_b: bool)
        requires
            old(self).wf(),
            i64::MIN < old(self)@.encoder.count < i64::MAX,
        ensures
            final(self).wf(),
            final(self)@ == (MotionModel {
                encoder: old(self)@.encoder.sampled(level_bits(enc_a, enc_b)),
                ..old(self)@
            }),
    {
        self.encoder.sample(enc_a, enc_b);
    }

    /// The encoder count.
    pub fn encoder_count(&self) -> (count: i64)
        ensures
            count == self@.encoder.count,
    {
        self.encoder.count()
    }

    /// The angle that the encoder count stands for, in thousandths of a degree.
    pub fn encoder_degrees(&self) -> (mdeg: i64)
        requires
            convertible(self@.encoder.count),
        ensures
            mdeg == angle_for_ticks(self@.encoder.count),
    {
        encoder_ticks_to_angle(self.encoder.count())
    }

    /// Sets the encoder count to zero and takes the current line levels as the
    /// previous state.
    pub fn reset_encoder(&mut self, enc_a: bool, enc_b: bool)
        requires
            old(self).wf(),
        ensures
            final(self).wf(),
            final(self)@ == (MotionModel {
                encoder: DecoderModel { count: 0, last_ab: level_bits(enc_a, enc_b) },
                ..old(self)@
            }),
    {
        self.encoder.reset(enc_a, enc_b);
    }

    /// Sets the azimuth of the tower.
    pub fn update_position(&mut self, location: i64)
        requires
            old(self).wf(),
        ensures
            final(self).wf(),
            final(self)@ == (MotionModel { location: location as int, ..old(self)@ }),
    {
        self.location = location;
    }

    /// The azimuth of the tower, in thousandths of a degree.
    pub fn location(&self) -> (location: i64)
        ensures
            location == self@.location,
    {
        self.location
    }

    /// The state of the controller.
    pub fn state(&self) -> (state: ControllerState)
        ensures
            state == self@.state,
    {
        self.state
    }

    /// The tracking level.
    pub fn tracking_state(&self) -> (level: TrackingState)
        ensures
            level == self@.tracking_state,
    {
        self.tracking_state
    }

    /// Selects the tracking level.
    pub fn set_tracking_state(&mut self, level: TrackingState)
        requires
            old(self).wf(),
        ensures
            final(self).wf(),
            final(self)@ == (MotionModel { tracking_state: level, ..old(self)@ }),
    {
        self.tracking_state = level;
    }

    /// Takes one sample of the limit-switch input and returns whether it is a
    /// home event.
    pub fn switch_pressed(&mut self, level_high: bool, now_ms: u64) -> (home: bool)
        requires
            old(self).wf(),
        ensures
            final(self).wf(),
            home == old(self)@.gate.reports_home(SwitchSample { level_high, now_ms }),
            final(self)@ == (MotionModel {
                gate: old(self)@.gate.polled(SwitchSample { level_high, now_ms }),
                ..old(self)@
            }),
    {
        self.gate.poll(level_high, now_ms)
    }

    /// Whether a relative move by `steps` stays within the position range of the motor.
    pub fn can_move_by(&self, steps: i64) -> (ok: bool)
        ensures
            ok == (-POSITION_LIMIT <= self@.motor.current_position + steps <= POSITION_LIMIT),
    {
        self.motor.can_move_by(steps)
    }

    /// Commands a relative move of the motor by an angle.
    pub fn move_by_angle(&mut self, offset_mdeg: i64)
        requires
            old(self).wf(),
            convertible(offset_mdeg as int),
            -POSITION_LIMIT <= old(self)@.motor.current_position + steps_for_angle(
                offset_mdeg as int,
            ) <= POSITION_LIMIT,
        ensures
            final(self).wf(),
            final(self)@ == (MotionModel {
                motor: old(self)@.motor.moved_to(
                    old(self)@.motor.current_position + steps_for_angle(offset_mdeg as int),
                ),
                ..old(self)@
            }),
    {
        let steps: i64 = calculate_steps(offset_mdeg);
        self.motor.move_by(steps);
    }

    /// Commands a relative move of the motor by a number of steps.
    pub fn move_by(&mut self, steps: i64)
        requires
            old(self).wf(),
            -POSITION_LIMIT <= old(self)@.motor.current_position + steps <= POSITION_LIMIT,
        ensures
            final(self).wf(),
            final(self)@ == (MotionModel {
                motor: old(self)@.motor.moved_to(old(self)@.motor.current_position + steps),
                ..old(self)@
            }),
    {
        self.motor.move_by(steps);
    }

    /// Commands the move from the present position to 60 degrees and returns
    /// its offset in thousandths of a degree; the caller runs the move and
    /// then sets the position. A position from which 60 degrees cannot be
    /// reached within the ranges of the conversion and of the motor is
    /// rejected and nothing is commanded.
    pub fn move_to_60(&mut self) -> (result: Result<i64, TrackerError>)
        requires
            old(self).wf(),
        ensures
            final(self).wf(),
            ({
                let offset = PARKING_POSITION_MDEG - old(self)@.location;
                let target = old(self)@.motor.current_position + steps_for_angle(offset);
                if convertible(offset) && -POSITION_LIMIT <= target <= POSITION_LIMIT {
                    &&& result == Ok::<i64, TrackerError>(offset as i64)
                    &&& final(self)@ == (MotionModel {
                        motor: old(self)@.motor.moved_to(target),
                        ..old(self)@
                    })
                } else {
                    &&& result == Err::<i64, TrackerError>(TrackerError::InvalidInput)
                    &&& final(self)@ == old(self)@
                }
            }),
    {
        let wide: i128 = PARKING_POSITION_MDEG as i128 - self.location as i128;
        if wide < -(CONVERSION_LIMIT as i128) || wide > CONVERSION_LIMIT as i128 {
            return Err(TrackerError::InvalidInput);
        }
        let offset: i64 = wide as i64;
        let steps: i64 = calculate_steps(offset);
        if !self.motor.can_move_by(steps) {
            return Err(TrackerError::InvalidInput);
        }
        self.motor.move_by(steps);
        Ok(offset)
    }

    /// Whether the motor has steps left to take.
    pub fn is_running(&self) -> (running: bool)
        requires
            self.wf(),
        ensures
            running == self@.motor.is_running(),
    {
        self.motor.is_running()
    }

    /// One turn of the motion loop: polls the motor at `now_us` and returns the
    /// direction of the step to emit, if one is due. The caller samples the
    /// encoder before and after, and repeats while the motor is running.
    pub fn run(&mut self, now_us: u64) -> (step: Option<bool>)
        requires
            old(self).wf(),
        ensures
            final(self).wf(),
            step.is_some() == old(self)@.motor.step_due(now_us as int),
            step.is_some() ==> step == Some(old(self)@.motor.forward),
            final(self)@ == (MotionModel {
                motor: old(self)@.motor.polled(now_us as int),
                ..old(self)@
            }),
    {
        self.motor.poll(now_us)
    }

    /// Gives a move up after a pin has failed: the motor halts where it stands
    /// and the controller gets the failure.
    pub fn abort_move(&mut self)
        requires
            old(self).wf(),
        ensures
            final(self).wf(),
            !final(self)@.motor.is_running(),
            final(self)@ == (MotionModel {
                motor: DriverModel {
                    target_position: old(self)@.motor.current_position,
                    interval_ps: 0,
                    ramp_index: 0,
                    ..old(self)@.motor
                },
                state: next_state(old(self)@.state, ControllerEvent::PinFailure),
                ..old(self)@
            }),
    {
        proof {
            crate::stepper::lemma_replanned_wf(self.motor@);
        }
        let here: i64 = self.motor.current_position();
        self.motor.set_current_position(here);
        self.state = self.state.on_event(ControllerEvent::PinFailure);
    }

    /// Takes the home reference: the position is the home azimuth and the
    /// encoder count is the home count, so the home-relative ticks are zero.
    pub fn set_encoder_to_limit_switch_position(&mut self)
        requires
            old(self).wf(),
        ensures
            final(self).wf(),
            final(self)@.location == HOME_POSITION_MDEG,
            final(self)@.encoder.count == HOME_ENCODER_COUNT,
            adjusted_of(final(self)@.encoder.count) == 0,
            final(self)@ == (MotionModel {
                location: HOME_POSITION_MDEG as int,
                encoder: DecoderModel {
                    count: HOME_ENCODER_COUNT as int,
                    last_ab: old(self)@.encoder.last_ab,
                },
                ..old(self)@
            }),
    {
        self.location = HOME_POSITION_MDEG;
        self.encoder.set_count(HOME_ENCODER_COUNT);
    }

    /// One look at the limit switch during a homing pass. On a move the motor
    /// is left to the caller, who commands the steps and runs them. When home
    /// is found the home reference is taken; either end of the pass is handed
    /// to the controller.
    pub fn find_limit_switch_cw(&mut self, pass: &mut HomingPass, home: bool) -> (action:
        HomingAction)
        requires
            old(self).wf(),
            old(pass)@.wf(),
            old(pass)@.clockwise,
        ensures
            final(self).wf(),
            final(pass)@.wf(),
            action == old(pass)@.action(home),
            final(pass)@ == old(pass)@.advanced_by(home),
            action == HomingAction::Found ==> final(self)@ == (MotionModel {
                location: HOME_POSITION_MDEG as int,
                encoder: DecoderModel {
                    count: HOME_ENCODER_COUNT as int,
                    last_ab: old(self)@.encoder.last_ab,
                },
                state: next_state(old(self)@.state, ControllerEvent::HomeFound),
                ..old(self)@
            }),
            action == HomingAction::NotFound ==> final(self)@ == (MotionModel {
                state: next_state(old(self)@.state, ControllerEvent::HomeNotFound),
                ..old(self)@
            }),
            action matches HomingAction::Move { .. } ==> final(self)@ == old(self)@,
    {
        let action: HomingAction = pass.next(home);
        match action {
            HomingAction::Found => {
                self.set_encoder_to_limit_switch_position();
                self.state = self.state.on_event(ControllerEvent::HomeFound);
            },
            HomingAction::NotFound => {
                self.state = self.state.on_event(ControllerEvent::HomeNotFound);
            },
            HomingAction::Move { .. } => {},
        }
        action
    }

    /// One look at the limit switch during a counter-clockwise homing pass;
    /// as `find_limit_switch_cw`, for a pass that advances counter-clockwise
    /// and sweeps clockwise. On a move the motor
    /// is left to the caller, who commands the steps and runs them. When home
    /// is found the home reference is taken; either end of the pass is handed
    /// to the controller.
    pub fn find_limit_switch_ccw(&mut self, pass: &mut HomingPass, home: bool) -> (action:
        HomingAction)
        requires
            old(self).wf(),
            old(pass)@.wf(),
            !old(pass)@.clockwise,
        ensures
            final(self).wf(),
            final(pass)@.wf(),
            action == old(pass)@.action(home),
            final(pass)@ == old(pass)@.advanced_by(home),
            action == HomingAction::Found ==> final(self)@ == (MotionModel {
                location: HOME_POSITION_MDEG as int,
                encoder: DecoderModel {
                    count: HOME_ENCODER_COUNT as int,
                    last_ab: old(self)@.encoder.last_ab,
                },
                state: next_state(old(self)@.state, ControllerEvent::HomeFound),
                ..old(self)@
            }),
            action == HomingAction::NotFound ==> final(self)@ == (MotionModel {
                state: next_state(old(self)@.state, ControllerEvent::HomeNotFound),
                ..old(self)@
            }),
            action matches HomingAction::Move { .. } ==> final(self)@ == old(self)@,
    {
        let action: HomingAction = pass.next(home);
        match action {
            HomingAction::Found => {
                self.set_encoder_to_limit_switch_position();
                self.state = self.state.on_event(ControllerEvent::HomeFound);
            },
            HomingAction::NotFound => {
                self.state = self.state.on_event(ControllerEvent::HomeNotFound);
            },
            HomingAction::Move { .. } => {},
        }
        action
    }

    /// Hands an event to the controller.
    pub fn handle(&mut self, event: ControllerEvent)
        requires
            old(self).wf(),
        ensures
            final(self).wf(),
            final(self)@ == (MotionModel {
                state: next_state(old(self)@.state, event),
                ..old(self)@
            }),
    {
        self.state = self.state.on_event(event);
    }

    /// One tracking tick. Takes `location` as the azimuth of the tower,
    /// decides from the clock and the sun azimuth what to do, and moves the
    /// controller to the matching state. A rejected input changes nothing but
    /// the position.
    pub fn set_tower_position(
        &mut self,
        clock: Option<ClockReading>,
        location: i64,
        sun_azimuth_mdeg: i64,
    ) -> (result: Result<TickDecision, TrackerError>)
        requires
            old(self).wf(),
        ensures
            final(self).wf(),
            !is_daytime(clock) ==> result == Ok::<TickDecision, TrackerError>(TickDecision::Sleep),
            is_daytime(clock) && !trackable(location as int, sun_azimuth_mdeg as int) ==> result
                == Err::<TickDecision, TrackerError>(TrackerError::InvalidInput),
            is_daytime(clock) && trackable(location as int, sun_azimuth_mdeg as int) ==> result
                == Ok::<TickDecision, TrackerError>(
                daytime_decision(
                    location as int,
                    sun_azimuth_mdeg as int,
                    old(self)@.tracking_state,
                ),
            ),
            result.is_err() ==> final(self)@ == (MotionModel {
                location: location as int,
                ..old(self)@
            }),
            result.is_ok() ==> final(self)@ == (MotionModel {
                location: location as int,
                state: next_state(old(self)@.state, event_of(result.unwrap())),
                ..old(self)@
            }),
    {
        self.location = location;
        let result: Result<TickDecision, TrackerError> = decide_tick(
            clock,
            location,
            sun_azimuth_mdeg,
            self.tracking_state,
        );
        match result {
            Ok(decision) => {
                let event: ControllerEvent = match decision {
                    TickDecision::Sleep => ControllerEvent::Night,
                    TickDecision::Hold => ControllerEvent::WithinTolerance,
                    TickDecision::OpenLoop { .. } => ControllerEvent::StartOpenLoop,
                    TickDecision::ClosedLoop { .. } => ControllerEvent::StartClosedLoop,
                };
                self.state = self.state.on_event(event);
            },
            Err(_) => {},
        }
        result
    }

    /// Ends a move by `delta_mdeg`: the position advances by the offset and
    /// the controller goes back to idle.
    pub fn complete_move(&mut self, delta_mdeg: i64)
        requires
            old(self).wf(),
            i64::MIN <= old(self)@.location + delta_mdeg <= i64::MAX,
        ensures
            final(self).wf(),
            final(self)@ == (MotionModel {
                location: old(self)@.location + delta_mdeg,
                state: next_state(old(self)@.state, ControllerEvent::MoveComplete),
                ..old(self)@
            }),
    {
        self.location = self.location + delta_mdeg;
        self.state = self.state.on_event(ControllerEvent::MoveComplete);
    }

    /// Starts a closed-loop move by `encoder_ticks` from the current encoder
    /// count, with the given tolerance in ticks.
    pub fn move_by_encoder_ticks(&self, encoder_ticks: i64, tolerance: u32) -> (mv: ClosedLoopMove)
        requires
            i64::MIN <= self@.encoder.count + encoder_ticks <= i64::MAX,
        ensures
            mv.wf(),
            mv.target() == self@.encoder.count + encoder_ticks,
            mv.tolerance() == tolerance,
            mv.iterations() == 0,
            mv.stall() == (StallModel { last_count: self@.encoder.count, still_since_ms: None }),
    {
        let current: i64 = self.encoder.count();
        ClosedLoopMove::new(current + encoder_ticks, current, tolerance)
    }

    /// One turn of a closed-loop move at time `now_ms`. When the move ends,
    /// for whatever reason, the motor is told to stop and the controller gets
    /// the matching event; a commanded chunk is left to the caller, who hands
    /// it to `move_by` and polls the motor once.
    pub fn closed_loop_turn(&mut self, mv: &mut ClosedLoopMove, now_ms: u64) -> (action: LoopAction)
        requires
            old(self).wf(),
            old(mv).wf(),
        ensures
            final(self).wf(),
            final(mv).wf(),
            action == loop_action(
                old(mv).target(),
                old(self)@.encoder.count,
                old(mv).tolerance(),
                old(mv).iterations(),
                old(mv).stall().stalls(
                    old(self)@.encoder.count,
                    old(self)@.motor.speed(),
                    now_ms,
                ),
            ),
            final(mv).target() == old(mv).target(),
            final(mv).tolerance() == old(mv).tolerance(),
            final(mv).iterations() == old(mv).iterations() + (if action matches LoopAction::Command {
                ..
            } { 1int } else { 0int }),
            final(mv).stall() == old(mv).stall().checked(
                old(self)@.encoder.count,
                old(self)@.motor.speed(),
                now_ms,
            ),
            action matches LoopAction::Command { .. } ==> final(self)@ == old(self)@,
            !(action matches LoopAction::Command { .. }) ==> final(self)@ == (MotionModel {
                motor: old(self)@.motor.stopped(),
                state: next_state(old(self)@.state, loop_event(action).unwrap()),
                ..old(self)@
            }),
    {
        let count: i64 = self.encoder.count();
        let speed: i64 = self.motor.speed();
        let action: LoopAction = mv.step(count, speed, now_ms);
        match action {
            LoopAction::Converged => {
                self.motor.stop();
                self.state = self.state.on_event(ControllerEvent::MoveComplete);
            },
            LoopAction::Stalled => {
                self.motor.stop();
                self.state = self.state.on_event(ControllerEvent::Stall);
            },
            LoopAction::GaveUp => {
                self.motor.stop();
                self.state = self.state.on_event(ControllerEvent::IterationCap);
            },
            LoopAction::Command { .. } => {},
        }
        action
    }

    /// Seeds the encoder count from the stored keys, once per boot. The count
    /// is set only when the keys hold a snapshot of this schema.
    pub fn load_encoder_from_nvs(&mut self, keys: &StoredKeys, now_ms: u64) -> (snapshot: Option<
        Snapshot,
    >)
        requires
            old(self).wf(),
        ensures
            final(self).wf(),
            old(self)@.store.loaded ==> snapshot.is_none() && final(self)@ == old(self)@,
            !old(self)@.store.loaded ==> snapshot == decoded(*keys),
            !old(self)@.store.loaded && snapshot.is_none() ==> final(self)@ == (MotionModel {
                store: StoreModel { loaded: true, last_write_ms: now_ms },
                ..old(self)@
            }),
            !old(self)@.store.loaded && snapshot.is_some() ==> final(self)@ == (MotionModel {
                store: StoreModel { loaded: true, last_write_ms: now_ms },
                encoder: DecoderModel {
                    count: snapshot.unwrap().encoder_ticks_adjusted + HOME_ENCODER_COUNT,
                    last_ab: old(self)@.encoder.last_ab,
                },
                ..old(self)@
            }) && adjusted_of(final(self)@.encoder.count)
                == snapshot.unwrap().encoder_ticks_adjusted,
    {
        let snapshot: Option<Snapshot> = self.store.load(keys, now_ms);
        match snapshot {
            Some(found) => {
                self.encoder.set_count(raw_count(found.encoder_ticks_adjusted));
            },
            None => {},
        }
        snapshot
    }

    /// Writes the encoder position and the heading into `keys`, unless less
    /// than one second has passed since the last write; returns whether it wrote.
    pub fn persist_encoder_to_nvs(
        &mut self,
        keys: &mut StoredKeys,
        heading_bits: u32,
        now_ms: u64,
    ) -> (written: bool)
        requires
            old(self).wf(),
        ensures
            final(self).wf(),
            written == old(self)@.store.persist_due(now_ms),
            written ==> *final(keys) == encoded(
                adjusted_of(old(self)@.encoder.count) as i32,
                heading_bits,
            ),
            !written ==> *final(keys) == *old(keys),
            final(self)@ == (MotionModel {
                store: old(self)@.store.persisted(now_ms),
                ..old(self)@
            }),
    {
        let ticks: i32 = adjusted_ticks(self.encoder.count());
        self.store.persist(keys, ticks, heading_bits, now_ms)
    }
}

/// Home round trip. Whatever the position and the encoder count were, taking
/// the home reference leaves the position at the home azimuth and the
/// home-relative ticks at zero; the two agree to within one encoder tick.
pub proof fn lemma_home_is_exact()
    ensures
        adjusted_of(HOME_ENCODER_COUNT as int) == 0,
        -1 <= angle_for_ticks(HOME_ENCODER_COUNT as int) - HOME_POSITION_MDEG <= 1,
        -1 <= ticks_for_angle(HOME_POSITION_MDEG as int) - HOME_ENCODER_COUNT <= 1,
{
    assert(87_080int * 360_000 == 31_348_800_000);
    assert((2 * 31_348_800_000int + 348_323) / 696_646int == 89_999);
    assert(angle_for_ticks(HOME_ENCODER_COUNT as int) == 89_999);
    assert(90_000int * 348_323 == 31_349_070_000);
    assert((2 * 31_349_070_000int + 360_000) / 720_000int == 87_081);
    assert(ticks_for_angle(HOME_POSITION_MDEG as int) == 87_081);
}

} // verus!
