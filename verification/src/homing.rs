//! Homing: the search for the limit switch.
//!
//! A pass first advances the tower by 15 degrees, then sweeps back by up to a
//! full turn in chunks of one degree, looking at the limit switch before each
//! chunk. The pass ends when the switch reports home or the sweep is used up.
//! A clockwise pass advances clockwise and sweeps counter-clockwise; a
//! counter-clockwise pass does the reverse.

use vstd::prelude::*;

verus! {

/// Motor steps of the advance before the sweep: 15 degrees.
pub const ADVANCE_STEPS: i64 = 448_000;

/// Motor steps of the whole sweep: one full turn.
pub const SWEEP_STEPS: i64 = 10_752_000;

/// Motor steps of one chunk of the sweep: one degree.
pub const CHUNK_STEPS: i64 = 29_866;

/// Number of chunks in a whole sweep.
pub const SWEEP_CHUNKS: u64 = 361;

/// What the caller does next in a homing pass.
#[derive(PartialEq, Eq, Structural, Debug, Clone, Copy)]
pub enum HomingAction {
    /// The limit switch reported home: the pass is over.
    Found,
    /// The sweep is used up and the switch was never seen: the pass has failed.
    NotFound,
    /// Move by this many motor steps, then ask again.
    Move {
        /// Signed motor steps; positive is clockwise.
        steps: i64,
    },
}

/// Mathematical state of a homing pass.
pub struct HomingModel {
    /// Whether the pass advances clockwise and sweeps counter-clockwise.
    pub clockwise: bool,
    /// Whether the advance has been commanded.
    pub advanced: bool,
    /// Motor steps of the sweep that are left; zero or less when none are.
    pub remaining_steps: int,
}

impl HomingModel {
    /// Number of chunks that the sweep can still make.
    pub open spec fn chunks_left(self) -> int {
        if self.remaining_steps <= 0 {
            0
        } else {
            (self.remaining_steps + (CHUNK_STEPS - 1)) / (CHUNK_STEPS as int)
        }
    }

    /// The steps of the advance, signed by the direction of the pass.
    pub open spec fn advance(self) -> int {
        if self.clockwise { ADVANCE_STEPS as int } else { -ADVANCE_STEPS }
    }

    /// The steps of one chunk of the sweep, signed against the direction of
    /// the pass.
    pub open spec fn chunk(self) -> int {
        if self.clockwise { -CHUNK_STEPS } else { CHUNK_STEPS as int }
    }

    /// The action for a look at the switch that says `home`.
    pub open spec fn action(self, home: bool) -> HomingAction {
        if !self.advanced {
            if home {
                HomingAction::Found
            } else {
                HomingAction::Move { steps: self.advance() as i64 }
            }
        } else if self.remaining_steps <= 0 {
            HomingAction::NotFound
        } else if home {
            HomingAction::Found
        } else {
            HomingAction::Move { steps: self.chunk() as i64 }
        }
    }

    /// The state after a look at the switch that says `home`.
    pub open spec fn advanced_by(self, home: bool) -> HomingModel {
        if home {
            self
        } else if !self.advanced {
            HomingModel { advanced: true, ..self }
        } else if self.remaining_steps <= 0 {
            self
        } else {
            HomingModel { remaining_steps: self.remaining_steps - CHUNK_STEPS, ..self }
        }
    }

    /// Well-formedness: the sweep left is within one whole sweep.
    pub open spec fn wf(self) -> bool {
        -CHUNK_STEPS < self.remaining_steps <= SWEEP_STEPS
    }
}

/// One pass of the search for the limit switch.
#[derive(Clone, Copy, Debug)]
pub struct HomingPass {
    clockwise: bool,
    advanced: bool,
    remaining_steps: i64,
}

impl View for HomingPass {
    type V = HomingModel;

    closed spec fn view(&self) -> HomingModel {
        HomingModel {
            clockwise: self.clockwise,
            advanced: self.advanced,
            remaining_steps: self.remaining_steps as int,
        }
    }
}

impl HomingPass {
    /// A clockwise pass that has not moved yet and has a whole sweep left.
    pub fn new() -> (pass: Self)
        ensures
            pass@ == (HomingModel {
                clockwise: true,
                advanced: false,
                remaining_steps: SWEEP_STEPS as int,
            }),
            pass@.wf(),
            pass@.chunks_left() == SWEEP_CHUNKS,
    {
        HomingPass { clockwise: true, advanced: false, remaining_steps: SWEEP_STEPS }
    }

    /// A counter-clockwise pass that has not moved yet and has a whole sweep left.
    pub fn counter_clockwise() -> (pass: Self)
        ensures
            pass@ == (HomingModel {
                clockwise: false,
                advanced: false,
                remaining_steps: SWEEP_STEPS as int,
            }),
            pass@.wf(),
            pass@.chunks_left() == SWEEP_CHUNKS,
    {
        HomingPass { clockwise: false, advanced: false, remaining_steps: SWEEP_STEPS }
    }

    /// Number of chunks that the sweep can still make.
    pub fn chunks_left(&self) -> (chunks: u64)
        requires
            self@.wf(),
        ensures
            chunks == self@.chunks_left(),
            chunks <= SWEEP_CHUNKS,
    {
        if self.remaining_steps <= 0 {
            0
        } else {
            ((self.remaining_steps + (CHUNK_STEPS - 1)) / CHUNK_STEPS) as u64
        }
    }

    /// Takes one look at the limit switch (`home` is what it reports) and says
    /// what to do next. Each chunk that is commanded uses up one chunk of the
    /// sweep, so a pass in which the switch is never seen fails after the
    /// advance and 361 chunks.
    pub fn next(&mut self, home: bool) -> (action: HomingAction)
        requires
            old(self)@.wf(),
        ensures
            final(self)@.wf(),
            action == old(self)@.action(home),
            final(self)@ == old(self)@.advanced_by(home),
            old(self)@.advanced && (action matches HomingAction::Move { .. })
                ==> final(self)@.chunks_left() == old(self)@.chunks_left() - 1,
            action == HomingAction::NotFound ==> old(self)@.chunks_left() == 0,
    {
        if !self.advanced {
            if home {
                return HomingAction::Found;
            }
            self.advanced = true;
            return HomingAction::Move {
                steps: if self.clockwise { ADVANCE_STEPS } else { -ADVANCE_STEPS },
            };
        }
        if self.remaining_steps <= 0 {
            return HomingAction::NotFound;
        }
        if home {
            return HomingAction::Found;
        }
        self.remaining_steps = self.remaining_steps - CHUNK_STEPS;
        HomingAction::Move { steps: if self.clockwise { -CHUNK_STEPS } else { CHUNK_STEPS } }
    }
}

/// The number of chunks that a pass commands when the switch is never seen,
/// counted from a state in which the advance has been made.
pub open spec fn chunks_until_failure(m: HomingModel) -> int
    decreases m.chunks_left(),
{
    if m.wf() && m.advanced && m.remaining_steps > 0 {
        1 + chunks_until_failure(m.advanced_by(false))
    } else {
        0
    }
}

/// Limit switch never seen: after the advance, a pass sweeps exactly as many
/// chunks as it has left and then fails; a fresh pass sweeps 361 of them.
pub proof fn lemma_sweep_exhausts(m: HomingModel)
    requires
        m.wf(),
        m.advanced,
    ensures
        chunks_until_failure(m) == m.chunks_left(),
        m.chunks_left() <= SWEEP_CHUNKS,
        m.chunks_left() == 0 ==> m.action(false) == HomingAction::NotFound,
    decreases m.chunks_left(),
{
    if m.remaining_steps > 0 {
        lemma_sweep_exhausts(m.advanced_by(false));
    }
}

} // verus!
