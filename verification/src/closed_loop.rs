//! Closed-loop positioning on the encoder, with stall detection.
//!
//! One turn of the loop compares the encoder count with the target. Within the
//! tolerance the move is over. Otherwise the distance left is converted to a
//! chunk of motor steps, at most 1000 either way, which the caller hands to the
//! stepper driver before it polls the driver once.

use vstd::prelude::*;
use crate::limit_switch::elapsed_between;
use crate::units::{
    encoder_ticks_to_motor_steps, magnitude, steps_for_ticks, ticks_for_angle, ticks_for_steps,
};

verus! {

/// Tolerance of a closed-loop move, in encoder ticks.
pub const ENCODER_TOLERANCE: u32 = 10;

/// Largest chunk of motor steps commanded in one turn of the loop.
pub const MAX_CHUNK_STEPS: i64 = 1000;

/// Number of turns after which the loop gives up.
pub const MAX_ITERATIONS: u64 = 10_000;

/// Time, in milliseconds, for which the encoder may stand still while the
/// stepper is commanded to move.
pub const STALL_TIME_MS: u64 = 250;

/// Ticks beyond which the chunk is the largest chunk.
pub const FULL_CHUNK_TICKS: i64 = 33;

/// The chunk of motor steps for a distance left in encoder ticks.
pub open spec fn chunk_for(remaining: int) -> int {
    let steps = steps_for_ticks(remaining);
    if steps > MAX_CHUNK_STEPS {
        MAX_CHUNK_STEPS as int
    } else if steps < -MAX_CHUNK_STEPS {
        -MAX_CHUNK_STEPS as int
    } else {
        steps
    }
}

/// Converts a distance left in encoder ticks to a chunk of motor steps.
pub fn step_chunk(remaining: i128) -> (steps: i64)
    ensures
        steps == chunk_for(remaining as int),
        remaining != 0 ==> steps != 0,
{
    if remaining >= FULL_CHUNK_TICKS as i128 {
        MAX_CHUNK_STEPS
    } else if remaining <= -(FULL_CHUNK_TICKS as i128) {
        -MAX_CHUNK_STEPS
    } else {
        let steps: i64 = encoder_ticks_to_motor_steps(remaining as i64);
        if steps > MAX_CHUNK_STEPS {
            MAX_CHUNK_STEPS
        } else if steps < -MAX_CHUNK_STEPS {
            -MAX_CHUNK_STEPS
        } else {
            steps
        }
    }
}

/// Mathematical state of the stall monitor.
pub struct StallModel {
    /// Encoder count at the last check that saw movement or reset the monitor.
    pub last_count: int,
    /// Time since which the encoder has stood still under command, if it has.
    pub still_since_ms: Option<u64>,
}

/// Whether a speed in steps per second counts as the stepper trying to move.
pub open spec fn is_commanded(speed: int) -> bool {
    speed > 1 || speed < -1
}

impl StallModel {
    /// Whether a check at `now_ms` detects a stall.
    pub open spec fn stalls(self, count: int, speed: int, now_ms: u64) -> bool {
        &&& is_commanded(speed)
        &&& count == self.last_count
        &&& self.still_since_ms.is_some()
        &&& elapsed_between(self.still_since_ms.unwrap(), now_ms) >= STALL_TIME_MS
    }

    /// The state after a check at `now_ms`.
    pub open spec fn checked(self, count: int, speed: int, now_ms: u64) -> StallModel {
        if !is_commanded(speed) || count != self.last_count {
            StallModel { last_count: count, still_since_ms: None }
        } else if self.still_since_ms.is_none() {
            StallModel { last_count: count, still_since_ms: Some(now_ms) }
        } else {
            self
        }
    }
}

/// Detects an encoder that stands still while the stepper is commanded to move.
#[derive(Clone, Copy, Debug)]
pub struct StallMonitor {
    last_count: i64,
    still_since_ms: Option<u64>,
}

impl View for StallMonitor {
    type V = StallModel;

    closed spec fn view(&self) -> StallModel {
        StallModel { last_count: self.last_count as int, still_since_ms: self.still_since_ms }
    }
}

impl StallMonitor {
    /// A monitor that has seen `count` and no standstill.
    pub fn new(count: i64) -> (monitor: Self)
        ensures
            monitor@ == (StallModel { last_count: count as int, still_since_ms: None }),
    {
        StallMonitor { last_count: count, still_since_ms: None }
    }

    /// Checks the encoder count against the last one. Returns `true` when the
    /// stepper has been commanded to move (a speed above one step per second)
    /// and the count has not changed for at least 250 ms.
    pub fn check_stall(&mut self, count: i64, speed: i64, now_ms: u64) -> (stalled: bool)
        ensures
            stalled == old(self)@.stalls(count as int, speed as int, now_ms),
            final(self)@ == old(self)@.checked(count as int, speed as int, now_ms),
    {
        let trying: bool = speed > 1 || speed < -1;
        if !trying || count != self.last_count {
            self.still_since_ms = None;
            self.last_count = count;
            return false;
        }
        match self.still_since_ms {
            None => {
                self.still_since_ms = Some(now_ms);
                self.last_count = count;
                false
            },
            Some(since) => {
                let waited: u64 = if now_ms >= since { now_ms - since } else { 0 };
                waited >= STALL_TIME_MS
            },
        }
    }
}

/// What the caller does in one turn of the closed loop.
#[derive(PartialEq, Eq, Structural, Debug, Clone, Copy)]
pub enum LoopAction {
    /// The encoder is within the tolerance of the target: stop and leave the loop.
    Converged,
    /// The encoder stands still under command: stop and go to fault.
    Stalled,
    /// The loop ran out of iterations: stop and go to fault.
    GaveUp,
    /// Command a relative move of this many motor steps, then poll the driver once.
    Command {
        /// Signed motor steps, never zero.
        steps: i64,
    },
}

/// The action of one turn of the loop.
pub open spec fn loop_action(
    target: int,
    current: int,
    tolerance: int,
    iterations: int,
    stalled: bool,
) -> LoopAction {
    let remaining = target - current;
    if magnitude(remaining) <= tolerance {
        LoopAction::Converged
    } else if stalled {
        LoopAction::Stalled
    } else if iterations >= MAX_ITERATIONS {
        LoopAction::GaveUp
    } else {
        LoopAction::Command { steps: chunk_for(remaining) as i64 }
    }
}

/// A closed-loop move toward a target encoder count.
#[derive(Clone, Copy, Debug)]
pub struct ClosedLoopMove {
    target_ticks: i64,
    tolerance: u32,
    iterations: u64,
    stall: StallMonitor,
}

impl ClosedLoopMove {
    /// Target encoder count.
    pub closed spec fn target(&self) -> int {
        self.target_ticks as int
    }

    /// Tolerance in encoder ticks.
    pub closed spec fn tolerance(&self) -> int {
        self.tolerance as int
    }

    /// Number of turns that have commanded a move.
    pub closed spec fn iterations(&self) -> int {
        self.iterations as int
    }

    /// State of the stall monitor.
    pub closed spec fn stall(&self) -> StallModel {
        self.stall@
    }

    /// The iteration count is within the cap.
    pub closed spec fn wf(&self) -> bool {
        self.iterations <= MAX_ITERATIONS
    }

    /// A move toward `target_ticks` that starts with the encoder at `current_ticks`.
    pub fn new(target_ticks: i64, current_ticks: i64, tolerance: u32) -> (mv: Self)
        ensures
            mv.wf(),
            mv.target() == target_ticks,
            mv.tolerance() == tolerance,
            mv.iterations() == 0,
            mv.stall() == (StallModel { last_count: current_ticks as int, still_since_ms: None }),
    {
        ClosedLoopMove {
            target_ticks,
            tolerance,
            iterations: 0,
            stall: StallMonitor::new(current_ticks),
        }
    }

    /// Target encoder count.
    pub fn target_ticks(&self) -> (target: i64)
        ensures
            target == self.target(),
    {
        self.target_ticks
    }

    /// Number of turns that have commanded a move.
    pub fn iteration_count(&self) -> (n: u64)
        ensures
            n == self.iterations(),
    {
        self.iterations
    }

    /// One turn of the loop, for the encoder count, the driver's speed and the
    /// time as sampled by the caller.
    pub fn step(&mut self, current_ticks: i64, speed: i64, now_ms: u64) -> (action: LoopAction)
        requires
            old(self).wf(),
        ensures
            final(self).wf(),
            action == loop_action(
                old(self).target(),
                current_ticks as int,
                old(self).tolerance(),
                old(self).iterations(),
                old(self).stall().stalls(current_ticks as int, speed as int, now_ms),
            ),
            final(self).target() == old(self).target(),
            final(self).tolerance() == old(self).tolerance(),
            final(self).stall() == old(self).stall().checked(
                current_ticks as int,
                speed as int,
                now_ms,
            ),
            final(self).iterations() == old(self).iterations() + (if action matches LoopAction::Command {
                ..
            } { 1int } else { 0int }),
    {
        let stalled: bool = self.stall.check_stall(current_ticks, speed, now_ms);
        let remaining: i128 = self.target_ticks as i128 - current_ticks as i128;
        let distance: i128 = if remaining >= 0 { remaining } else { -remaining };
        if distance <= self.tolerance as i128 {
            LoopAction::Converged
        } else if stalled {
            LoopAction::Stalled
        } else if self.iterations >= MAX_ITERATIONS {
            LoopAction::GaveUp
        } else {
            self.iterations = self.iterations + 1;
            LoopAction::Command { steps: step_chunk(remaining) }
        }
    }
}

/// The distance left after one turn of the loop in an idealised plant: the
/// encoder moves by the ticks of the commanded chunk plus `noise`.
pub open spec fn ideal_next(remaining: int, noise: int) -> int {
    remaining - ticks_for_steps(chunk_for(remaining)) - noise
}

/// The distance left when the loop ends in the idealised plant, with one
/// noise value per turn: the loop ends within the tolerance or when the noise
/// values, one per allowed turn, are used up.
pub open spec fn ideal_run(remaining: int, noises: Seq<int>) -> int
    decreases noises.len(),
{
    if magnitude(remaining) <= ENCODER_TOLERANCE || noises.len() == 0 {
        remaining
    } else {
        ideal_run(ideal_next(remaining, noises[0]), noises.skip(1))
    }
}

/// One turn in the idealised plant with noise of at most two ticks: outside
/// the tolerance, the distance left shrinks by at least 30 ticks or falls to
/// at most two.
pub proof fn lemma_ideal_turn_contracts(remaining: int, noise: int)
    requires
        magnitude(remaining) > ENCODER_TOLERANCE,
        -2 <= noise <= 2,
    ensures
        magnitude(ideal_next(remaining, noise)) <= magnitude(remaining) - 30 || magnitude(
            ideal_next(remaining, noise),
        ) <= 2,
{
    if remaining >= 33 {
        assert(steps_for_ticks(remaining) >= 1000);
        assert(ticks_for_steps(1000) == 32);
    } else if remaining <= -33 {
        let p = -remaining;
        assert(remaining * 10_752_000 == -(p * 10_752_000));
        assert((2 * (p * 10_752_000) + 348_323) / 696_646int >= 1000);
        assert(steps_for_ticks(remaining) <= -1000);
        assert(-1000int * 348_323 == -348_323_000);
        assert((2 * 348_323_000int + 10_752_000) / 21_504_000int == 32);
        assert(ticks_for_steps(-1000) == -32);
    } else {
        assert(ticks_for_steps(chunk_for(remaining)) == remaining);
    }
}

/// Closed-loop convergence. In the idealised plant with noise of at most two
/// ticks per turn, a move of up to `10 + 30 * n` ticks ends within the
/// tolerance of ten ticks in at most `n` turns; five degrees are 4838 ticks
/// and take at most 161 of the 10 000 turns allowed.
pub proof fn lemma_closed_loop_converges(remaining: int, noises: Seq<int>)
    requires
        magnitude(remaining) <= ENCODER_TOLERANCE + 30 * noises.len(),
        forall|i: int| 0 <= i < noises.len() ==> -2 <= #[trigger] noises[i] <= 2,
    ensures
        magnitude(ideal_run(remaining, noises)) <= ENCODER_TOLERANCE,
    decreases noises.len(),
{
    if magnitude(remaining) > ENCODER_TOLERANCE {
        assert(noises.len() > 0);
        lemma_ideal_turn_contracts(remaining, noises[0]);
        assert forall|i: int| 0 <= i < noises.skip(1).len() implies -2 <= #[trigger] noises.skip(
            1,
        )[i] <= 2 by {
            assert(noises.skip(1)[i] == noises[i + 1]);
        }
        lemma_closed_loop_converges(ideal_next(remaining, noises[0]), noises.skip(1));
    }
}

/// A move of five degrees is 4838 encoder ticks; in the idealised plant it is
/// within the tolerance after at most 161 turns, well under the cap.
pub proof fn lemma_five_degree_move_converges(noises: Seq<int>)
    requires
        noises.len() == 161,
        forall|i: int| 0 <= i < noises.len() ==> -2 <= #[trigger] noises[i] <= 2,
    ensures
        ticks_for_angle(5_000) == 4_838,
        magnitude(ideal_run(ticks_for_angle(5_000), noises)) <= ENCODER_TOLERANCE,
        magnitude(ideal_run(ticks_for_angle(-5_000), noises)) <= ENCODER_TOLERANCE,
        noises.len() <= MAX_ITERATIONS,
{
    assert(5_000int * 348_323 == 1_741_615_000);
    assert((2 * 1_741_615_000int + 360_000) / 720_000int == 4_838);
    assert(ticks_for_angle(5_000) == 4_838);
    assert(-5_000int * 348_323 == -1_741_615_000);
    assert(ticks_for_angle(-5_000) == -4_838);
    lemma_closed_loop_converges(4_838, noises);
    lemma_closed_loop_converges(-4_838, noises);
}

} // verus!
