//! Stepper driver: a constant-acceleration ramp over step intervals.
//!
//! The driver keeps a ramp index `n` and the current step interval `c`. While
//! accelerating the next interval is `c - 2c / (4n + 1)`, bounded below by the
//! interval of the maximum speed; while decelerating `n` is negative and the
//! same recurrence lengthens the interval. Deceleration starts when the
//! distance left equals the stopping distance `v * v / (2 * a)`.
//!
//! The caller's clock is in microseconds, speed is in steps per second and
//! acceleration in steps per second squared. Step intervals are kept in
//! picoseconds, so that the recurrence keeps shortening the interval long
//! after its change per step has fallen under a microsecond. The driver never
//! touches a pin: `poll` says whether a step is due and in which direction,
//! and the caller emits the pulse.

use vstd::prelude::*;
use crate::error::TrackerError;

verus! {

/// Picoseconds in one second.
pub const PICOS_PER_SECOND: u64 = 1_000_000_000_000;

/// Picoseconds in one microsecond.
pub const PICOS_PER_MICRO: u64 = 1_000_000;

/// Longest step interval that the ramp produces, in picoseconds: one second.
pub const SLOWEST_INTERVAL_PS: u64 = 1_000_000_000_000;

/// Highest maximum speed that the driver accepts, in steps per second: a step
/// pulse takes a microsecond.
pub const STEP_RATE_LIMIT: u32 = 1_000_000;

/// Largest magnitude of a position or a target.
pub const POSITION_LIMIT: i64 = 4_000_000_000_000_000_000;

/// Largest magnitude of the ramp index.
pub const RAMP_INDEX_LIMIT: i64 = 1_000_000_000_000;

/// The square of `0.676 * 1_000_000` times two: the first interval of a ramp,
/// in microseconds, is the square root of this constant divided by the
/// acceleration.
pub const RAMP_CONSTANT: u64 = 913_952_000_000;

/// `r` is the integer square root of `x`.
pub open spec fn is_root(x: int, r: int) -> bool {
    0 <= r && r * r <= x < (r + 1) * (r + 1)
}

/// The shortest interval, in picoseconds, at which the speed stays at or
/// under `max_speed` steps per second.
pub open spec fn interval_at(max_speed: int) -> int {
    (PICOS_PER_SECOND + max_speed - 1) / max_speed
}

/// An interval in whole microseconds, rounded up.
pub open spec fn micros_of(interval_ps: int) -> int {
    (interval_ps + (PICOS_PER_MICRO - 1)) / (PICOS_PER_MICRO as int)
}

/// Steps per second at step interval `c`; zero when halted.
pub open spec fn speed_at(c: int) -> int {
    if c <= 0 { 0 } else { PICOS_PER_SECOND as int / c }
}

/// `x` held within `lo ..= hi`.
pub open spec fn bounded(x: int, lo: int, hi: int) -> int {
    if x < lo { lo } else if x > hi { hi } else { x }
}

/// Mathematical state of the driver.
pub struct DriverModel {
    /// Asymptotic speed in steps per second.
    pub max_speed: int,
    /// Ramp rate in steps per second squared.
    pub acceleration: int,
    /// Steps taken so far, signed.
    pub current_position: int,
    /// Position the driver is heading for.
    pub target_position: int,
    /// Ramp index: positive while accelerating, negative while decelerating.
    pub ramp_index: int,
    /// Current step interval in picoseconds; zero when halted.
    pub interval_ps: int,
    /// First interval of a ramp.
    pub initial_interval_ps: int,
    /// Interval at maximum speed.
    pub min_interval_ps: int,
    /// Direction of the next step.
    pub forward: bool,
    /// Time of the last step, in microseconds.
    pub last_step_us: int,
}

impl DriverModel {
    /// Signed number of steps from the current position to the target.
    pub open spec fn distance_to_go(self) -> int {
        self.target_position - self.current_position
    }

    /// Whether the driver has steps left to take.
    pub open spec fn is_running(self) -> bool {
        self.distance_to_go() != 0
    }

    /// Magnitude of the current speed in steps per second.
    pub open spec fn speed_magnitude(self) -> int {
        speed_at(self.interval_ps)
    }

    /// Signed speed in steps per second.
    pub open spec fn speed(self) -> int {
        if self.forward { self.speed_magnitude() } else { -self.speed_magnitude() }
    }

    /// Steps needed to come to rest from the current speed.
    pub open spec fn stopping_distance(self) -> int {
        self.speed_magnitude() * self.speed_magnitude() / (2 * self.acceleration)
    }

    /// The first interval of a ramp, held within the driver's speed range.
    pub open spec fn starting_interval(self) -> int {
        bounded(self.initial_interval_ps, self.min_interval_ps, SLOWEST_INTERVAL_PS as int)
    }

    /// Everything that holds of a driver between any two operations, but for
    /// the tie between distance and interval.
    pub open spec fn settings_wf(self) -> bool {
        &&& 1 <= self.max_speed <= STEP_RATE_LIMIT
        &&& 1 <= self.acceleration <= u32::MAX
        &&& self.min_interval_ps == interval_at(self.max_speed)
        &&& self.initial_interval_ps % (PICOS_PER_MICRO as int) == 0
        &&& is_root(
            RAMP_CONSTANT as int / self.acceleration,
            self.initial_interval_ps / (PICOS_PER_MICRO as int),
        )
        &&& -POSITION_LIMIT <= self.current_position <= POSITION_LIMIT
        &&& -POSITION_LIMIT <= self.target_position <= POSITION_LIMIT
        &&& -RAMP_INDEX_LIMIT <= self.ramp_index <= RAMP_INDEX_LIMIT
        &&& (self.interval_ps == 0 || self.min_interval_ps <= self.interval_ps
            <= SLOWEST_INTERVAL_PS)
        &&& (self.interval_ps == 0 ==> self.ramp_index == 0)
        &&& 0 <= self.last_step_us <= u64::MAX
    }

    /// Well-formedness: the settings are valid, and the driver is halted
    /// exactly when it is at its target.
    pub open spec fn wf(self) -> bool {
        &&& self.settings_wf()
        &&& (self.distance_to_go() == 0 <==> self.interval_ps == 0)
    }

    /// Whether the next step heads for the target.
    pub open spec fn heading_for_target(self) -> bool {
        (self.distance_to_go() > 0) == self.forward
    }

    /// The ramp index to continue from: the ramp turns to deceleration when
    /// the stopping distance reaches the distance left or the driver moves
    /// away from the target, and back to acceleration when there is room again.
    pub open spec fn planned_index(self) -> int {
        let left = if self.distance_to_go() >= 0 {
            self.distance_to_go()
        } else {
            -self.distance_to_go()
        };
        let stop = self.stopping_distance();
        if self.ramp_index > 0 {
            if stop >= left || !self.heading_for_target() { -stop } else { self.ramp_index }
        } else if self.ramp_index < 0 {
            if stop < left && self.heading_for_target() {
                -self.ramp_index
            } else {
                self.ramp_index
            }
        } else {
            0
        }
    }

    /// The interval that follows the current one at planned index `n`.
    pub open spec fn next_interval(self, n: int) -> int {
        if n == 0 {
            self.starting_interval()
        } else if n > 0 {
            let next = self.interval_ps - 2 * self.interval_ps / (4 * n + 1);
            if next < self.min_interval_ps { self.min_interval_ps } else { next }
        } else {
            let next = self.interval_ps + 2 * self.interval_ps / (-4 * n - 1);
            if next > SLOWEST_INTERVAL_PS { SLOWEST_INTERVAL_PS as int } else { next }
        }
    }

    /// The state after the ramp has been planned again: halted at the target,
    /// else one step further along the ramp.
    pub open spec fn replanned(self) -> DriverModel {
        if self.distance_to_go() == 0 {
            DriverModel { interval_ps: 0, ramp_index: 0, ..self }
        } else {
            let n = self.planned_index();
            DriverModel {
                interval_ps: self.next_interval(n),
                ramp_index: if n < RAMP_INDEX_LIMIT { n + 1 } else { n },
                forward: if n == 0 { self.distance_to_go() > 0 } else { self.forward },
                ..self
            }
        }
    }

    /// The state after a new absolute target has been set.
    pub open spec fn moved_to(self, target: int) -> DriverModel {
        if target == self.target_position {
            self
        } else {
            (DriverModel { target_position: target, ..self }).replanned()
        }
    }

    /// Where the driver comes to rest when told to stop now.
    pub open spec fn stopping_position(self) -> int {
        if self.interval_ps == 0 {
            self.current_position
        } else if self.forward {
            bounded(
                self.current_position + self.stopping_distance(),
                -POSITION_LIMIT as int,
                POSITION_LIMIT as int,
            )
        } else {
            bounded(
                self.current_position - self.stopping_distance(),
                -POSITION_LIMIT as int,
                POSITION_LIMIT as int,
            )
        }
    }

    /// The state after `stop`: the target is the stopping position and the
    /// ramp decelerates from here.
    pub open spec fn stopped(self) -> DriverModel {
        let target = self.stopping_position();
        if target == self.current_position {
            DriverModel { target_position: target, interval_ps: 0, ramp_index: 0, ..self }
        } else {
            DriverModel {
                target_position: target,
                ramp_index: if self.ramp_index > 0 {
                    -self.stopping_distance()
                } else {
                    self.ramp_index
                },
                ..self
            }
        }
    }

    /// Whether the ramp is in its acceleration phase.
    pub open spec fn accelerating(self) -> bool {
        self.ramp_index > 1
    }

    /// Whether the ramp is in its deceleration phase.
    pub open spec fn decelerating(self) -> bool {
        self.ramp_index <= 0 && self.interval_ps != 0
    }

    /// Whether a step is due at time `now_us` and the position has room for it.
    pub open spec fn step_due(self, now_us: int) -> bool {
        &&& self.interval_ps != 0
        &&& (if now_us >= self.last_step_us { now_us - self.last_step_us } else { 0 })
            >= micros_of(self.interval_ps)
        &&& (self.forward ==> self.current_position < POSITION_LIMIT)
        &&& (!self.forward ==> self.current_position > -POSITION_LIMIT)
    }

    /// The state after a poll at time `now_us`.
    pub open spec fn polled(self, now_us: int) -> DriverModel {
        if self.step_due(now_us) {
            (DriverModel {
                current_position: if self.forward {
                    self.current_position + 1
                } else {
                    self.current_position - 1
                },
                last_step_us: now_us,
                ..self
            }).replanned()
        } else {
            self
        }
    }

    /// The state after polls at the given times, in order.
    pub open spec fn polled_all(self, times: Seq<int>) -> DriverModel
        decreases times.len(),
    {
        if times.len() == 0 {
            self
        } else {
            self.polled(times[0]).polled_all(times.skip(1))
        }
    }

    /// Number of steps taken by polls at the given times, in order.
    pub open spec fn steps_taken(self, times: Seq<int>) -> int
        decreases times.len(),
    {
        if times.len() == 0 {
            0
        } else {
            (if self.step_due(times[0]) { 1int } else { 0int }) + self.polled(
                times[0],
            ).steps_taken(times.skip(1))
        }
    }

    /// Steps left to the target, without their sign.
    pub open spec fn steps_left(self) -> int {
        if self.distance_to_go() >= 0 { self.distance_to_go() } else { -self.distance_to_go() }
    }

    /// The state after the maximum speed has been set to `v`.
    pub open spec fn with_max_speed(self, v: int) -> DriverModel {
        let floor = interval_at(v);
        DriverModel {
            max_speed: v,
            min_interval_ps: floor,
            interval_ps: if self.interval_ps != 0 && self.interval_ps < floor {
                floor
            } else {
                self.interval_ps
            },
            ..self
        }
    }
}

/// Integer square root by bisection.
fn integer_root(x: u64) -> (r: u64)
    requires
        x <= RAMP_CONSTANT,
    ensures
        is_root(x as int, r as int),
        r < 1_000_000,
{
    let mut lo: u64 = 0;
    let mut hi: u64 = 1_000_000;
    assert(1_000_000 * 1_000_000 > RAMP_CONSTANT);
    while hi - lo > 1
        invariant
            lo < hi <= 1_000_000,
            lo * lo <= x < hi * hi,
        decreases hi - lo,
    {
        let mid: u64 = lo + (hi - lo) / 2;
        assert(mid * mid < 1_000_000 * 1_000_000) by (nonlinear_arith)
            requires 0 <= mid < 1_000_000;
        if mid * mid <= x {
            lo = mid;
        } else {
            hi = mid;
        }
    }
    lo
}

/// Ramped step generator for a `(step, direction)` output.
#[derive(Clone, Copy, Debug)]
pub struct Driver {
    max_speed: u32,
    acceleration: u32,
    current_position: i64,
    target_position: i64,
    ramp_index: i64,
    interval_ps: u64,
    initial_interval_ps: u64,
    min_interval_ps: u64,
    forward: bool,
    last_step_us: u64,
}

impl View for Driver {
    type V = DriverModel;

    closed spec fn view(&self) -> DriverModel {
        DriverModel {
            max_speed: self.max_speed as int,
            acceleration: self.acceleration as int,
            current_position: self.current_position as int,
            target_position: self.target_position as int,
            ramp_index: self.ramp_index as int,
            interval_ps: self.interval_ps as int,
            initial_interval_ps: self.initial_interval_ps as int,
            min_interval_ps: self.min_interval_ps as int,
            forward: self.forward,
            last_step_us: self.last_step_us as int,
        }
    }
}

impl Driver {
    /// A halted driver at position zero, with a maximum speed of one step per
    /// second and an acceleration of one step per second squared.
    pub fn new() -> (driver: Self)
        ensures
            driver@.wf(),
            driver@.max_speed == 1,
            driver@.acceleration == 1,
            driver@.current_position == 0,
            driver@.target_position == 0,
            driver@.ramp_index == 0,
            driver@.interval_ps == 0,
            driver@.forward,
            driver@.last_step_us == 0,
    {
        let root: u64 = integer_root(RAMP_CONSTANT);
        assert(interval_at(1) == PICOS_PER_SECOND);
        Driver {
            max_speed: 1,
            acceleration: 1,
            current_position: 0,
            target_position: 0,
            ramp_index: 0,
            interval_ps: 0,
            initial_interval_ps: root * PICOS_PER_MICRO,
            min_interval_ps: PICOS_PER_SECOND,
            forward: true,
            last_step_us: 0,
        }
    }

    /// Steps taken so far, signed.
    pub fn current_position(&self) -> (position: i64)
        ensures
            position == self@.current_position,
    {
        self.current_position
    }

    /// Position the driver is heading for.
    pub fn target_position(&self) -> (position: i64)
        ensures
            position == self@.target_position,
    {
        self.target_position
    }

    /// Maximum speed in steps per second.
    pub fn max_speed(&self) -> (v: u32)
        ensures
            v == self@.max_speed,
    {
        self.max_speed
    }

    /// Acceleration in steps per second squared.
    pub fn acceleration(&self) -> (a: u32)
        ensures
            a == self@.acceleration,
    {
        self.acceleration
    }

    /// Ramp index: above one while accelerating, zero or below while
    /// decelerating.
    pub fn ramp_index(&self) -> (n: i64)
        ensures
            n == self@.ramp_index,
    {
        self.ramp_index
    }

    /// Current step interval in picoseconds; zero when halted.
    pub fn step_interval_ps(&self) -> (c: u64)
        ensures
            c == self@.interval_ps,
    {
        self.interval_ps
    }

    /// Time to wait between the last step and the next, in whole
    /// microseconds; zero when halted.
    pub fn step_interval_us(&self) -> (c: u64)
        requires
            self@.wf(),
        ensures
            c == micros_of(self@.interval_ps),
    {
        (self.interval_ps + (PICOS_PER_MICRO - 1)) / PICOS_PER_MICRO
    }

    /// Signed number of steps from the current position to the target.
    pub fn distance_to_go(&self) -> (distance: i64)
        requires
            self@.wf(),
        ensures
            distance == self@.distance_to_go(),
    {
        self.target_position - self.current_position
    }

    /// Whether the driver has steps left to take.
    pub fn is_running(&self) -> (running: bool)
        requires
            self@.wf(),
        ensures
            running == self@.is_running(),
            running == (self@.interval_ps != 0),
    {
        self.target_position != self.current_position
    }

    /// Signed speed in steps per second; zero when halted, and never above
    /// the maximum speed in magnitude.
    pub fn speed(&self) -> (v: i64)
        requires
            self@.wf(),
        ensures
            v == self@.speed(),
            -self@.max_speed <= v <= self@.max_speed,
    {
        proof {
            lemma_speed_within_limit(self@);
        }
        let magnitude: u64 = self.speed_magnitude();
        if self.forward {
            magnitude as i64
        } else {
            -(magnitude as i64)
        }
    }

    fn speed_magnitude(&self) -> (v: u64)
        requires
            self@.settings_wf(),
        ensures
            v == self@.speed_magnitude(),
            v <= STEP_RATE_LIMIT,
    {
        if self.interval_ps == 0 {
            0
        } else {
            proof {
                lemma_interval_positive(self@.max_speed);
                vstd::arithmetic::div_mod::lemma_div_is_ordered_by_denominator(
                    PICOS_PER_SECOND as int,
                    PICOS_PER_MICRO as int,
                    self.interval_ps as int,
                );
            }
            PICOS_PER_SECOND / self.interval_ps
        }
    }

    fn stopping_distance(&self) -> (s: u64)
        requires
            self@.settings_wf(),
        ensures
            s == self@.stopping_distance(),
            s <= 500_000_000_000,
    {
        let v: u64 = self.speed_magnitude();
        assert(v * v <= 1_000_000 * 1_000_000) by (nonlinear_arith)
            requires 0 <= v <= 1_000_000;
        let two_a: u64 = 2 * (self.acceleration as u64);
        proof {
            vstd::arithmetic::div_mod::lemma_div_is_ordered_by_denominator(
                (v * v) as int,
                2,
                two_a as int,
            );
            vstd::arithmetic::div_mod::lemma_div_is_ordered((v * v) as int, 1_000_000_000_000, 2);
        }
        v * v / two_a
    }

    fn replan(&mut self)
        requires
            old(self)@.settings_wf(),
        ensures
            final(self)@ == old(self)@.replanned(),
            final(self)@.wf(),
    {
        proof {
            lemma_replanned_wf(self@);
        }
        let d: i64 = self.target_position - self.current_position;
        if d == 0 {
            self.interval_ps = 0;
            self.ramp_index = 0;
            return ;
        }
        let left: u64 = if d > 0 { d as u64 } else { (-d) as u64 };
        let stop: u64 = self.stopping_distance();
        let heading: bool = (d > 0) == self.forward;
        let n0: i64 = self.ramp_index;
        let n: i64 = if n0 > 0 {
            if stop >= left || !heading { -(stop as i64) } else { n0 }
        } else if n0 < 0 {
            if stop < left && heading { -n0 } else { n0 }
        } else {
            0
        };
        let c: u64 = self.interval_ps;
        if n == 0 {
            let first: u64 = self.initial_interval_ps;
            self.interval_ps = if first < self.min_interval_ps {
                self.min_interval_ps
            } else if first > SLOWEST_INTERVAL_PS {
                SLOWEST_INTERVAL_PS
            } else {
                first
            };
            self.forward = d > 0;
        } else if n > 0 {
            let divisor: u64 = (4 * n + 1) as u64;
            proof {
                vstd::arithmetic::div_mod::lemma_div_is_ordered_by_denominator(
                    (2 * c) as int,
                    2,
                    divisor as int,
                );
            }
            let next: u64 = c - 2 * c / divisor;
            self.interval_ps = if next < self.min_interval_ps {
                self.min_interval_ps
            } else {
                next
            };
        } else {
            let divisor: u64 = (-4 * n - 1) as u64;
            proof {
                vstd::arithmetic::div_mod::lemma_div_is_ordered_by_denominator(
                    (2 * c) as int,
                    2,
                    divisor as int,
                );
            }
            let next: u64 = c + 2 * c / divisor;
            self.interval_ps = if next > SLOWEST_INTERVAL_PS {
                SLOWEST_INTERVAL_PS
            } else {
                next
            };
        }
        self.ramp_index = if n < RAMP_INDEX_LIMIT { n + 1 } else { n };
    }

    /// Sets the asymptotic speed in steps per second. A speed of zero, or one
    /// above a million steps per second, is rejected and changes nothing; a
    /// running driver that is faster than the new maximum is slowed to it at
    /// once.
    pub fn set_max_speed(&mut self, v: u32) -> (result: Result<(), TrackerError>)
        requires
            old(self)@.wf(),
        ensures
            final(self)@.wf(),
            v == 0 || v > STEP_RATE_LIMIT ==> result == Err::<(), TrackerError>(
                TrackerError::InvalidInput,
            ) && final(self)@ == old(self)@,
            1 <= v <= STEP_RATE_LIMIT ==> result.is_ok() && final(self)@
                == old(self)@.with_max_speed(v as int),
    {
        if v == 0 || v > STEP_RATE_LIMIT {
            return Err(TrackerError::InvalidInput);
        }
        let floor: u64 = (PICOS_PER_SECOND + (v as u64) - 1) / (v as u64);
        proof {
            lemma_interval_positive(v as int);
        }
        self.max_speed = v;
        self.min_interval_ps = floor;
        if self.interval_ps != 0 && self.interval_ps < floor {
            self.interval_ps = floor;
        }
        Ok(())
    }

    /// Sets the ramp rate in steps per second squared. A rate of zero is
    /// rejected and changes nothing. The ramp in progress keeps its interval
    /// and its index.
    pub fn set_acceleration(&mut self, a: u32) -> (result: Result<(), TrackerError>)
        requires
            old(self)@.wf(),
        ensures
            final(self)@.wf(),
            a == 0 ==> result == Err::<(), TrackerError>(TrackerError::InvalidInput)
                && final(self)@ == old(self)@,
            a != 0 ==> result.is_ok() && final(self)@.acceleration == a && is_root(
                RAMP_CONSTANT as int / (a as int),
                final(self)@.initial_interval_ps / (PICOS_PER_MICRO as int),
            ) && final(self)@ == (DriverModel {
                acceleration: a as int,
                initial_interval_ps: final(self)@.initial_interval_ps,
                ..old(self)@
            }),
    {
        if a == 0 {
            return Err(TrackerError::InvalidInput);
        }
        proof {
            vstd::arithmetic::div_mod::lemma_div_is_ordered_by_denominator(
                RAMP_CONSTANT as int,
                1,
                a as int,
            );
        }
        let root: u64 = integer_root(RAMP_CONSTANT / (a as u64));
        self.acceleration = a;
        self.initial_interval_ps = root * PICOS_PER_MICRO;
        Ok(())
    }

    /// Declares the current position to be `position` and halts there.
    pub fn set_current_position(&mut self, position: i64)
        requires
            old(self)@.wf(),
            -POSITION_LIMIT <= position <= POSITION_LIMIT,
        ensures
            final(self)@.wf(),
            final(self)@ == (DriverModel {
                current_position: position as int,
                target_position: position as int,
                interval_ps: 0,
                ramp_index: 0,
                ..old(self)@
            }),
    {
        self.current_position = position;
        self.target_position = position;
        self.interval_ps = 0;
        self.ramp_index = 0;
    }

    /// Whether a relative move by `delta_steps` stays within the position range.
    pub fn can_move_by(&self, delta_steps: i64) -> (ok: bool)
        ensures
            ok == (-POSITION_LIMIT <= self@.current_position + delta_steps <= POSITION_LIMIT),
    {
        let target: i128 = self.current_position as i128 + delta_steps as i128;
        -(POSITION_LIMIT as i128) <= target && target <= POSITION_LIMIT as i128
    }

    /// Sets a new absolute target and plans the ramp again. Setting the target
    /// that is already set changes nothing.
    pub fn move_to(&mut self, target_steps: i64)
        requires
            old(self)@.wf(),
            -POSITION_LIMIT <= target_steps <= POSITION_LIMIT,
        ensures
            final(self)@.wf(),
            final(self)@ == old(self)@.moved_to(target_steps as int),
            final(self)@.target_position == target_steps,
            final(self)@.current_position == old(self)@.current_position,
    {
        if self.target_position != target_steps {
            self.target_position = target_steps;
            self.replan();
        }
    }

    /// Sets a new target relative to the current position.
    pub fn move_by(&mut self, delta_steps: i64)
        requires
            old(self)@.wf(),
            -POSITION_LIMIT <= old(self)@.current_position + delta_steps <= POSITION_LIMIT,
        ensures
            final(self)@.wf(),
            final(self)@ == old(self)@.moved_to(old(self)@.current_position + delta_steps),
            final(self)@.target_position == old(self)@.current_position + delta_steps,
            final(self)@.current_position == old(self)@.current_position,
    {
        let target: i64 = self.current_position + delta_steps;
        self.move_to(target);
    }

    /// Decelerates to a halt as fast as the acceleration permits: the target
    /// becomes the position at which the driver comes to rest.
    pub fn stop(&mut self)
        requires
            old(self)@.wf(),
        ensures
            final(self)@.wf(),
            final(self)@ == old(self)@.stopped(),
            final(self)@.target_position == old(self)@.stopping_position(),
            final(self)@.current_position == old(self)@.current_position,
    {
        if self.interval_ps == 0 {
            return ;
        }
        let stop: u64 = self.stopping_distance();
        let reach: i64 = stop as i64;
        let target: i64 = if self.forward {
            if self.current_position + reach > POSITION_LIMIT {
                POSITION_LIMIT
            } else {
                self.current_position + reach
            }
        } else {
            if self.current_position - reach < -POSITION_LIMIT {
                -POSITION_LIMIT
            } else {
                self.current_position - reach
            }
        };
        self.target_position = target;
        if target == self.current_position {
            self.interval_ps = 0;
            self.ramp_index = 0;
        } else if self.ramp_index > 0 {
            self.ramp_index = -reach;
        }
    }

    /// Non-blocking tick. When a step is due at `now_us`, takes it and returns
    /// its direction (`true` is forward); the caller then emits the pulse.
    /// A halted driver, and one whose next step is not yet due, is left
    /// unchanged.
    pub fn poll(&mut self, now_us: u64) -> (step: Option<bool>)
        requires
            old(self)@.wf(),
        ensures
            final(self)@.wf(),
            final(self)@ == old(self)@.polled(now_us as int),
            step.is_some() == old(self)@.step_due(now_us as int),
            step.is_some() ==> step == Some(old(self)@.forward),
            !old(self)@.is_running() ==> step.is_none() && final(self)@ == old(self)@,
    {
        if self.interval_ps == 0 {
            return None;
        }
        let waited: u64 = if now_us >= self.last_step_us {
            now_us - self.last_step_us
        } else {
            0
        };
        if waited < (self.interval_ps + (PICOS_PER_MICRO - 1)) / PICOS_PER_MICRO {
            return None;
        }
        let forward: bool = self.forward;
        if forward {
            if self.current_position >= POSITION_LIMIT {
                return None;
            }
            self.current_position = self.current_position + 1;
        } else {
            if self.current_position <= -POSITION_LIMIT {
                return None;
            }
            self.current_position = self.current_position - 1;
        }
        self.last_step_us = now_us;
        self.replan();
        Some(forward)
    }
}

/// The interval at an accepted maximum speed is at least one microsecond and
/// at most one second.
pub proof fn lemma_interval_positive(v: int)
    requires
        1 <= v <= STEP_RATE_LIMIT,
    ensures
        PICOS_PER_MICRO <= interval_at(v) <= PICOS_PER_SECOND,
        interval_at(v) * v >= PICOS_PER_SECOND,
{
    let num = PICOS_PER_SECOND + v - 1;
    vstd::arithmetic::div_mod::lemma_fundamental_div_mod(num, v);
    vstd::arithmetic::div_mod::lemma_mod_bound(num, v);
    let q = num / v;
    assert(v * q + num % v == num);
    assert(q >= 1_000_000) by (nonlinear_arith)
        requires
            v * q + num % v == num,
            num % v < v,
            num == 1_000_000_000_000 + v - 1,
            1 <= v <= 1_000_000,
    {
        if q < 1_000_000 {
            assert(v * q <= 1_000_000 * (1_000_000 - 1));
        }
    }
    assert(q <= 1_000_000_000_000) by (nonlinear_arith)
        requires v * q + num % v == num, num % v >= 0, num == 1_000_000_000_000 + v - 1, v >= 1;
    assert(q * v >= 1_000_000_000_000) by (nonlinear_arith)
        requires v * q + num % v == num, num % v <= v - 1, num == 1_000_000_000_000 + v - 1;
}

/// The speed of a well-formed driver never exceeds its maximum speed.
pub proof fn lemma_speed_within_limit(m: DriverModel)
    requires
        m.settings_wf(),
    ensures
        0 <= m.speed_magnitude() <= m.max_speed,
        -m.max_speed <= m.speed() <= m.max_speed,
{
    if m.interval_ps != 0 {
        lemma_interval_positive(m.max_speed);
        let c = m.interval_ps;
        let v = m.max_speed;
        let q = PICOS_PER_SECOND as int / c;
        vstd::arithmetic::div_mod::lemma_fundamental_div_mod(PICOS_PER_SECOND as int, c);
        vstd::arithmetic::div_mod::lemma_mod_bound(PICOS_PER_SECOND as int, c);
        vstd::arithmetic::div_mod::lemma_div_pos_is_pos(PICOS_PER_SECOND as int, c);
        assert(q <= v) by (nonlinear_arith)
            requires
                c * q <= 1_000_000_000_000,
                c >= m.min_interval_ps,
                m.min_interval_ps * v >= 1_000_000_000_000,
                m.min_interval_ps >= 1,
                v >= 1,
                q >= 0,
        {
            if q > v {
                assert(c * q >= m.min_interval_ps * (v + 1));
            }
        }
    }
}

/// Planning the ramp again keeps a driver well formed.
pub proof fn lemma_replanned_wf(m: DriverModel)
    requires
        m.settings_wf(),
    ensures
        m.replanned().wf(),
        0 <= m.stopping_distance() <= 500_000_000_000,
{
    lemma_interval_positive(m.max_speed);
    lemma_speed_within_limit(m);
    let v = m.speed_magnitude();
    assert(v <= 1_000_000);
    assert(0 <= v * v <= 1_000_000 * 1_000_000) by (nonlinear_arith)
        requires 0 <= v <= 1_000_000;
    vstd::arithmetic::div_mod::lemma_div_is_ordered_by_denominator(v * v, 2, 2 * m.acceleration);
    vstd::arithmetic::div_mod::lemma_div_is_ordered(v * v, 1_000_000_000_000, 2);
    vstd::arithmetic::div_mod::lemma_div_pos_is_pos(v * v, 2 * m.acceleration);
    if m.distance_to_go() != 0 {
        let n = m.planned_index();
        let c = m.interval_ps;
        if n > 0 {
            vstd::arithmetic::div_mod::lemma_div_is_ordered_by_denominator(2 * c, 2, 4 * n + 1);
            vstd::arithmetic::div_mod::lemma_div_pos_is_pos(2 * c, 4 * n + 1);
        } else if n < 0 {
            vstd::arithmetic::div_mod::lemma_div_is_ordered_by_denominator(2 * c, 2, -4 * n - 1);
            vstd::arithmetic::div_mod::lemma_div_pos_is_pos(2 * c, -4 * n - 1);
        }
    }
}

/// Ramp monotonicity. When a poll takes a step, the interval to the next step
/// is no longer than the last one while the ramp accelerates and no shorter
/// while it decelerates; and the speed never exceeds the maximum speed.
pub proof fn lemma_ramp_monotone(m: DriverModel, now_us: int)
    requires
        m.wf(),
        0 <= now_us <= u64::MAX,
    ensures
        m.polled(now_us).wf(),
        m.step_due(now_us) && m.polled(now_us).accelerating() ==> m.polled(now_us).interval_ps
            <= m.interval_ps,
        m.step_due(now_us) && m.polled(now_us).decelerating() ==> m.polled(now_us).interval_ps
            >= m.interval_ps,
        m.polled(now_us).speed_magnitude() <= m.polled(now_us).max_speed,
        m.polled(now_us).max_speed == m.max_speed,
{
    if m.step_due(now_us) {
        let stepped = DriverModel {
            current_position: if m.forward {
                m.current_position + 1
            } else {
                m.current_position - 1
            },
            last_step_us: now_us,
            ..m
        };
        lemma_replanned_wf(stepped);
        if stepped.distance_to_go() != 0 {
            let n = stepped.planned_index();
            let c = stepped.interval_ps;
            if n > 0 {
                vstd::arithmetic::div_mod::lemma_div_pos_is_pos(2 * c, 4 * n + 1);
            } else if n < 0 {
                vstd::arithmetic::div_mod::lemma_div_pos_is_pos(2 * c, -4 * n - 1);
            }
        }
    }
    lemma_speed_within_limit(m.polled(now_us));
}

/// Stop is idempotent: a second `stop` right after the first changes nothing,
/// so both give the same stopping position.
pub proof fn lemma_stop_idempotent(m: DriverModel)
    requires
        m.wf(),
    ensures
        m.stopped().wf(),
        m.stopped().stopped() == m.stopped(),
        m.stopped().stopping_position() == m.stopping_position(),
{
    lemma_replanned_wf(m);
}

/// After `stop` the distance left is at most the stopping distance, in the
/// direction of travel; a driver that is halted or slow enough to stop within
/// the current step is at rest at once.
pub proof fn lemma_stop_bounds_distance(m: DriverModel)
    requires
        m.wf(),
    ensures
        m.forward ==> 0 <= m.stopped().distance_to_go() <= m.stopping_distance(),
        !m.forward ==> -m.stopping_distance() <= m.stopped().distance_to_go() <= 0,
        m.interval_ps == 0 || m.stopping_distance() == 0 ==> !m.stopped().is_running()
            && m.stopped().distance_to_go() == 0,
{
    lemma_replanned_wf(m);
}

/// Direction changes only from rest: a poll reverses the direction of the
/// next step only when the driver could stop within the present step or has
/// come to the end of a deceleration, and it then restarts the ramp at its
/// first interval.
pub proof fn lemma_direction_flips_at_rest(m: DriverModel, now_us: int)
    requires
        m.wf(),
    ensures
        m.polled(now_us).forward != m.forward ==> m.polled(now_us).ramp_index == 1
            && m.polled(now_us).interval_ps == m.starting_interval() && (m.ramp_index == 0
            || m.stopping_distance() == 0),
{
}

/// A driver that heads for its target gets one step closer with every step
/// it takes, keeps heading for it, and halts when it is there.
pub proof fn lemma_step_approaches_target(m: DriverModel, now_us: int)
    requires
        m.wf(),
        m.is_running() ==> m.heading_for_target(),
        0 <= now_us <= u64::MAX,
    ensures
        m.polled(now_us).wf(),
        m.polled(now_us).target_position == m.target_position,
        m.step_due(now_us) ==> m.polled(now_us).steps_left() == m.steps_left() - 1,
        !m.step_due(now_us) ==> m.polled(now_us) == m,
        m.polled(now_us).is_running() ==> m.polled(now_us).heading_for_target(),
{
    lemma_ramp_monotone(m, now_us);
}

/// However a driver that heads for its target is polled, the steps left
/// shrink by the steps taken; once as many steps have been taken as were
/// left, the driver is at rest at its target.
pub proof fn lemma_runs_to_target(m: DriverModel, times: Seq<int>)
    requires
        m.wf(),
        m.is_running() ==> m.heading_for_target(),
        forall|i: int| 0 <= i < times.len() ==> 0 <= #[trigger] times[i] <= u64::MAX,
    ensures
        m.polled_all(times).wf(),
        m.polled_all(times).target_position == m.target_position,
        m.polled_all(times).steps_left() == m.steps_left() - m.steps_taken(times),
        0 <= m.steps_taken(times) <= m.steps_left(),
        m.steps_taken(times) == m.steps_left() ==> !m.polled_all(times).is_running()
            && m.polled_all(times).current_position == m.target_position
            && m.polled_all(times).speed() == 0,
    decreases times.len(),
{
    if times.len() > 0 {
        lemma_step_approaches_target(m, times[0]);
        assert forall|i: int| 0 <= i < times.skip(1).len() implies 0 <= #[trigger] times.skip(
            1,
        )[i] <= u64::MAX by {
            assert(times.skip(1)[i] == times[i + 1]);
        }
        lemma_runs_to_target(m.polled(times[0]), times.skip(1));
    }
}

/// After `stop` the driver heads for the stopping position; once the steps
/// that are left have been taken it is at rest there: it is not running and
/// its distance to go is zero.
pub proof fn lemma_stop_comes_to_rest(m: DriverModel, times: Seq<int>)
    requires
        m.wf(),
        forall|i: int| 0 <= i < times.len() ==> 0 <= #[trigger] times[i] <= u64::MAX,
        m.stopped().steps_taken(times) == m.stopped().steps_left(),
    ensures
        !m.stopped().polled_all(times).is_running(),
        m.stopped().polled_all(times).distance_to_go() == 0,
        m.stopped().polled_all(times).current_position == m.stopping_position(),
{
    lemma_stop_idempotent(m);
    lemma_stop_bounds_distance(m);
    lemma_runs_to_target(m.stopped(), times);
}

} // verus!
