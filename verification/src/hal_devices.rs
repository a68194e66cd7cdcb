//! The `(step, direction)` output of the stepper driver.
//!
//! A step is one pulse on the step line while the direction line holds the
//! sense of rotation. The levels are given as a 2-bit mask: bit 0 is the step
//! line, bit 1 the direction line.

use vstd::prelude::*;

verus! {

/// Mask bit of the step line.
pub const STEP_BIT: u8 = 0b01;

/// Mask bit of the direction line.
pub const DIRECTION_BIT: u8 = 0b10;

/// A device which has step and direction pins.
#[derive(Debug, Default, Clone, PartialEq)]
pub struct StepAndDirection<Step, Direction> {
    step: Step,
    direction: Direction,
}

/// The three masks of one step pulse, in the order in which they are driven.
#[derive(PartialEq, Eq, Structural, Debug, Clone, Copy)]
pub struct StepPulse {
    /// Direction set, step line low.
    pub setup: u8,
    /// Direction held, step line high; held for at least one microsecond.
    pub active: u8,
    /// Direction held, step line low again.
    pub release: u8,
}

/// The mask that holds the direction line alone.
pub open spec fn direction_mask(forward: bool) -> u8 {
    if forward { DIRECTION_BIT } else { 0u8 }
}

/// The pulse for one step in the given direction.
pub open spec fn pulse_for(forward: bool) -> StepPulse {
    StepPulse {
        setup: direction_mask(forward),
        active: (direction_mask(forward) + STEP_BIT) as u8,
        release: direction_mask(forward),
    }
}

impl<Step, Direction> StepAndDirection<Step, Direction> {
    /// The step pin.
    pub closed spec fn step_pin(&self) -> Step {
        self.step
    }

    /// The direction pin.
    pub closed spec fn direction_pin(&self) -> Direction {
        self.direction
    }

    /// A device on the given step and direction pins.
    pub fn new(step: Step, direction: Direction) -> (device: Self)
        ensures
            device.step_pin() == step,
            device.direction_pin() == direction,
    {
        StepAndDirection { step, direction }
    }

    /// Gives the two pins back.
    pub fn into_inner(self) -> (pins: (Step, Direction))
        ensures
            pins.0 == self.step_pin(),
            pins.1 == self.direction_pin(),
    {
        (self.step, self.direction)
    }

    /// The levels to drive for a mask: whether the step line and whether the
    /// direction line is high.
    pub fn output_levels(&self, mask: u8) -> (levels: (bool, bool))
        ensures
            levels.0 == (mask & STEP_BIT != 0),
            levels.1 == (mask & DIRECTION_BIT != 0),
    {
        (mask & STEP_BIT != 0, mask & DIRECTION_BIT != 0)
    }

    /// The masks of one step pulse: the direction is set first, then the step
    /// line goes high and low again while the direction holds.
    pub fn step(&self, forward: bool) -> (pulse: StepPulse)
        ensures
            pulse == pulse_for(forward),
    {
        let hold: u8 = if forward { DIRECTION_BIT } else { 0 };
        StepPulse { setup: hold, active: hold + STEP_BIT, release: hold }
    }
}

/// Throughout a pulse the direction line holds the sense of rotation, and the
/// step line is high in the middle phase only.
pub proof fn lemma_pulse_shape(forward: bool)
    ensures
        (pulse_for(forward).setup & DIRECTION_BIT != 0) == forward,
        (pulse_for(forward).active & DIRECTION_BIT != 0) == forward,
        (pulse_for(forward).release & DIRECTION_BIT != 0) == forward,
        pulse_for(forward).setup & STEP_BIT == 0,
        pulse_for(forward).active & STEP_BIT != 0,
        pulse_for(forward).release & STEP_BIT == 0,
{
    assert(2u8 & 2u8 != 0 && 3u8 & 2u8 != 0 && 0u8 & 2u8 == 0 && 1u8 & 2u8 == 0 && 2u8 & 1u8 == 0
        && 3u8 & 1u8 != 0 && 0u8 & 1u8 == 0 && 1u8 & 1u8 != 0) by (bit_vector);
}

} // verus!
