//! Quadrature decoder: a signed tick count derived from two input lines.
//!
//! The two line levels form a 2-bit state `ab` (bit 1 is line A, bit 0 is line
//! B). Turning clockwise the state walks 0, 2, 3, 1, 0, ...; turning
//! counter-clockwise it walks the same cycle backwards. A sample that changes
//! both lines at once is invalid and counts as no movement.

use vstd::prelude::*;

verus! {

/// The 2-bit state for the levels of lines A and B.
pub open spec fn level_bits(a: bool, b: bool) -> u8 {
    if a {
        if b { 3u8 } else { 2u8 }
    } else {
        if b { 1u8 } else { 0u8 }
    }
}

/// The state that follows `ab` after one clockwise tick.
pub open spec fn cw_successor(ab: u8) -> u8 {
    if ab == 0 { 2u8 } else if ab == 2 { 3u8 } else if ab == 3 { 1u8 } else { 0u8 }
}

/// The state that follows `ab` after one counter-clockwise tick.
pub open spec fn ccw_successor(ab: u8) -> u8 {
    if ab == 0 { 1u8 } else if ab == 1 { 3u8 } else if ab == 3 { 2u8 } else { 0u8 }
}

/// Ticks gained when the state goes from `last_ab` to `ab`: +1 for a clockwise
/// tick, -1 for a counter-clockwise tick, 0 for no change and for an invalid
/// transition.
pub open spec fn quad_delta(last_ab: u8, ab: u8) -> int {
    if last_ab >= 4 || ab >= 4 {
        0
    } else if ab == cw_successor(last_ab) {
        1
    } else if ab == ccw_successor(last_ab) {
        -1
    } else {
        0
    }
}

/// Net ticks gained over a run of samples that starts from state `last_ab`.
pub open spec fn net_ticks(last_ab: u8, samples: Seq<u8>) -> int
    decreases samples.len(),
{
    if samples.len() == 0 {
        0
    } else {
        quad_delta(last_ab, samples[0]) + net_ticks(samples[0], samples.skip(1))
    }
}

/// Number of clockwise ticks in a run of samples that starts from state `last_ab`.
pub open spec fn cw_ticks(last_ab: u8, samples: Seq<u8>) -> int
    decreases samples.len(),
{
    if samples.len() == 0 {
        0
    } else {
        (if quad_delta(last_ab, samples[0]) == 1 { 1int } else { 0int })
            + cw_ticks(samples[0], samples.skip(1))
    }
}

/// Number of counter-clockwise ticks in a run of samples that starts from state `last_ab`.
pub open spec fn ccw_ticks(last_ab: u8, samples: Seq<u8>) -> int
    decreases samples.len(),
{
    if samples.len() == 0 {
        0
    } else {
        (if quad_delta(last_ab, samples[0]) == -1 { 1int } else { 0int })
            + ccw_ticks(samples[0], samples.skip(1))
    }
}

/// The state after a run of samples that starts from state `last_ab`.
pub open spec fn last_state(last_ab: u8, samples: Seq<u8>) -> u8 {
    if samples.len() == 0 { last_ab } else { samples.last() }
}

/// The 2-bit states of a run of sampled line levels.
pub open spec fn states_of(levels: Seq<(bool, bool)>) -> Seq<u8> {
    Seq::new(levels.len(), |i: int| level_bits(levels[i].0, levels[i].1))
}

/// Entry `idx` of the 16-entry transition table, where `idx` is the previous
/// state times four plus the new state.
pub fn quad_table(idx: u8) -> (delta: i8)
    requires
        idx < 16,
    ensures
        delta == quad_delta(idx / 4, idx % 4),
        idx == 0 || idx == 5 || idx == 10 || idx == 15 ==> delta == 0,
        idx == 3 || idx == 6 || idx == 9 || idx == 12 ==> delta == 0,
{
    match idx {
        1 | 7 | 8 | 14 => -1,
        2 | 4 | 11 | 13 => 1,
        _ => 0,
    }
}

/// The 2-bit state for the sampled levels of lines A and B.
pub fn encode_levels(a: bool, b: bool) -> (ab: u8)
    ensures
        ab == level_bits(a, b),
        ab < 4,
{
    let high: u8 = if a { 2 } else { 0 };
    let low: u8 = if b { 1 } else { 0 };
    high + low
}

/// Mathematical state of a decoder.
pub struct DecoderModel {
    /// Signed tick count.
    pub count: int,
    /// Levels of A and B at the previous sample.
    pub last_ab: u8,
}

impl DecoderModel {
    /// The state after one sample that reads `ab`.
    pub open spec fn sampled(self, ab: u8) -> DecoderModel {
        DecoderModel { count: self.count + quad_delta(self.last_ab, ab), last_ab: ab }
    }

    /// The state after a run of samples.
    pub open spec fn fed(self, samples: Seq<u8>) -> DecoderModel {
        DecoderModel {
            count: self.count + net_ticks(self.last_ab, samples),
            last_ab: last_state(self.last_ab, samples),
        }
    }
}

/// Incremental quadrature decoder.
#[derive(Clone, Copy, Debug)]
pub struct QuadratureDecoder {
    count: i64,
    last_ab: u8,
}

impl View for QuadratureDecoder {
    type V = DecoderModel;

    closed spec fn view(&self) -> DecoderModel {
        DecoderModel { count: self.count as int, last_ab: self.last_ab }
    }
}

impl QuadratureDecoder {
    /// The previous state is a 2-bit value.
    pub closed spec fn wf(&self) -> bool {
        self.last_ab < 4
    }

    /// A decoder at count zero whose previous state is the current line levels.
    pub fn new(a: bool, b: bool) -> (decoder: Self)
        ensures
            decoder.wf(),
            decoder@ == (DecoderModel { count: 0, last_ab: level_bits(a, b) }),
    {
        QuadratureDecoder { count: 0, last_ab: encode_levels(a, b) }
    }

    /// The tick count.
    pub fn count(&self) -> (count: i64)
        ensures
            count == self@.count,
    {
        self.count
    }

    /// The line levels seen by the previous sample.
    pub fn last_ab(&self) -> (ab: u8)
        ensures
            ab == self@.last_ab,
    {
        self.last_ab
    }

    /// Overwrites the tick count and keeps the previous line state.
    pub fn set_count(&mut self, count: i64)
        requires
            old(self).wf(),
        ensures
            final(self).wf(),
            final(self)@ == (DecoderModel { count: count as int, last_ab: old(self)@.last_ab }),
    {
        self.count = count;
    }

    /// Sets the count to zero and takes the current line levels as the previous state.
    pub fn reset(&mut self, a: bool, b: bool)
        ensures
            final(self).wf(),
            final(self)@ == (DecoderModel { count: 0, last_ab: level_bits(a, b) }),
    {
        self.count = 0;
        self.last_ab = encode_levels(a, b);
    }

    /// Takes one sample of the two lines and returns whether the count changed.
    pub fn sample(&mut self, a: bool, b: bool) -> (moved: bool)
        requires
            old(self).wf(),
            i64::MIN < old(self)@.count < i64::MAX,
        ensures
            final(self).wf(),
            final(self)@ == old(self)@.sampled(level_bits(a, b)),
            moved == (final(self)@.count != old(self)@.count),
    {
        let ab: u8 = encode_levels(a, b);
        if ab != self.last_ab {
            let idx: u8 = self.last_ab * 4 + ab;
            let delta: i8 = quad_table(idx);
            self.count = self.count + delta as i64;
            self.last_ab = ab;
            delta != 0
        } else {
            false
        }
    }

    /// Takes a run of samples in order.
    pub fn feed(&mut self, levels: &Vec<(bool, bool)>)
        requires
            old(self).wf(),
            i64::MIN + levels.len() <= old(self)@.count <= i64::MAX - levels.len(),
        ensures
            final(self).wf(),
            final(self)@ == old(self)@.fed(states_of(levels@)),
    {
        let ghost start = self@;
        let ghost states = states_of(levels@);
        let mut i: usize = 0;
        while i < levels.len()
            invariant
                i <= levels.len(),
                states == states_of(levels@),
                self.wf(),
                self@ == start.fed(states.take(i as int)),
                start.count - i <= self@.count <= start.count + i,
                i64::MIN + levels.len() <= start.count <= i64::MAX - levels.len(),
            decreases levels.len() - i,
        {
            let (a, b) = levels[i];
            proof {
                lemma_net_ticks_push(start.last_ab, states.take(i as int), states[i as int]);
                assert(states.take(i as int).push(states[i as int]) =~= states.take(i + 1));
            }
            self.sample(a, b);
            i = i + 1;
        }
        proof {
            assert(states.take(levels.len() as int) =~= states);
        }
    }
}

/// Appending one sample to a run adds the ticks of its transition.
pub proof fn lemma_net_ticks_push(last_ab: u8, samples: Seq<u8>, ab: u8)
    ensures
        net_ticks(last_ab, samples.push(ab)) == net_ticks(last_ab, samples) + quad_delta(
            last_state(last_ab, samples),
            ab,
        ),
    decreases samples.len(),
{
    if samples.len() == 0 {
        assert(samples.push(ab).skip(1) =~= Seq::<u8>::empty());
        assert(net_ticks(ab, Seq::<u8>::empty()) == 0);
    } else {
        assert(samples.push(ab).skip(1) =~= samples.skip(1).push(ab));
        lemma_net_ticks_push(samples[0], samples.skip(1), ab);
        assert(last_state(samples[0], samples.skip(1)) == last_state(last_ab, samples));
    }
}

/// The count after any run of samples is the number of clockwise ticks minus
/// the number of counter-clockwise ticks in it; unchanged and invalid
/// transitions contribute nothing.
pub proof fn lemma_count_is_net_of_turns(last_ab: u8, samples: Seq<u8>)
    ensures
        net_ticks(last_ab, samples) == cw_ticks(last_ab, samples) - ccw_ticks(last_ab, samples),
        0 <= cw_ticks(last_ab, samples) <= samples.len(),
        0 <= ccw_ticks(last_ab, samples) <= samples.len(),
    decreases samples.len(),
{
    if samples.len() > 0 {
        lemma_count_is_net_of_turns(samples[0], samples.skip(1));
    }
}

/// The transition table, entry by entry: a transition counts +1 exactly when
/// it is one clockwise tick, -1 exactly when it is one counter-clockwise tick,
/// and 0 when nothing changed or both lines toggled at once.
pub proof fn lemma_table_meaning(last_ab: u8, ab: u8)
    requires
        last_ab < 4,
        ab < 4,
    ensures
        quad_delta(last_ab, ab) == 1 <==> ab == cw_successor(last_ab),
        quad_delta(last_ab, ab) == -1 <==> ab == ccw_successor(last_ab),
        ab == last_ab ==> quad_delta(last_ab, ab) == 0,
        ab == 3 - last_ab ==> quad_delta(last_ab, ab) == 0,
        cw_successor(ccw_successor(ab)) == ab,
        ccw_successor(cw_successor(ab)) == ab,
{
}

/// Four clockwise ticks in a row, from any state, return to that state and
/// add four to the count; four counter-clockwise ticks subtract four.
pub proof fn lemma_full_cycle(ab: u8)
    requires
        ab < 4,
    ensures
        ({
            let s1 = cw_successor(ab);
            let s2 = cw_successor(s1);
            let s3 = cw_successor(s2);
            &&& cw_successor(s3) == ab
            &&& net_ticks(ab, seq![s1, s2, s3, ab]) == 4
        }),
        ({
            let s1 = ccw_successor(ab);
            let s2 = ccw_successor(s1);
            let s3 = ccw_successor(s2);
            &&& ccw_successor(s3) == ab
            &&& net_ticks(ab, seq![s1, s2, s3, ab]) == -4
        }),
{
    let s1 = cw_successor(ab);
    let s2 = cw_successor(s1);
    let s3 = cw_successor(s2);
    lemma_net_ticks_push(ab, Seq::<u8>::empty(), s1);
    lemma_net_ticks_push(ab, seq![s1], s2);
    lemma_net_ticks_push(ab, seq![s1, s2], s3);
    lemma_net_ticks_push(ab, seq![s1, s2, s3], ab);
    assert(Seq::<u8>::empty().push(s1) =~= seq![s1]);
    assert(seq![s1].push(s2) =~= seq![s1, s2]);
    assert(seq![s1, s2].push(s3) =~= seq![s1, s2, s3]);
    assert(seq![s1, s2, s3].push(ab) =~= seq![s1, s2, s3, ab]);
    let t1 = ccw_successor(ab);
    let t2 = ccw_successor(t1);
    let t3 = ccw_successor(t2);
    lemma_net_ticks_push(ab, Seq::<u8>::empty(), t1);
    lemma_net_ticks_push(ab, seq![t1], t2);
    lemma_net_ticks_push(ab, seq![t1, t2], t3);
    lemma_net_ticks_push(ab, seq![t1, t2, t3], ab);
    assert(Seq::<u8>::empty().push(t1) =~= seq![t1]);
    assert(seq![t1].push(t2) =~= seq![t1, t2]);
    assert(seq![t1, t2].push(t3) =~= seq![t1, t2, t3]);
    assert(seq![t1, t2, t3].push(ab) =~= seq![t1, t2, t3, ab]);
}

} // verus!
