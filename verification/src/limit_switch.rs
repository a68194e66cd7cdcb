//! Limit-switch gate: debounced, single-shot detection of the home reference.
//!
//! The switch input is active-low. A press is reported once, after the input
//! has been held for the debounce time, and not again until the switch has
//! been released.

use vstd::prelude::*;

verus! {

/// Time, in milliseconds, that a press must hold before it is reported.
pub const DEBOUNCE_MS: u64 = 30;

/// Milliseconds from `earlier` to `now`; zero when the clock stepped back.
pub open spec fn elapsed_between(earlier: u64, now: u64) -> int {
    if now >= earlier { now - earlier } else { 0 }
}

/// One sample of the switch input: the raw pin level and the time it was read.
pub struct SwitchSample {
    /// Raw level of the input pin; low means pressed.
    pub level_high: bool,
    /// Time of the sample, in milliseconds.
    pub now_ms: u64,
}

/// Mathematical state of the limit-switch gate.
pub struct GateModel {
    /// Whether the switch was pressed at the last sample.
    pub pressed: bool,
    /// Time of the last observed change of the input.
    pub last_change_ms: u64,
    /// Whether the current press has already been reported.
    pub zeroed_this_press: bool,
}

impl GateModel {
    /// Time of the last change once the sample has been taken in.
    pub open spec fn change_time_after(self, s: SwitchSample) -> u64 {
        if s.level_high == self.pressed { s.now_ms } else { self.last_change_ms }
    }

    /// The one-shot flag once a release, if the sample is one, has cleared it.
    pub open spec fn flag_after_release(self, s: SwitchSample) -> bool {
        if s.level_high && self.pressed { false } else { self.zeroed_this_press }
    }

    /// Whether the sample is reported as a home event.
    pub open spec fn reports_home(self, s: SwitchSample) -> bool {
        &&& !s.level_high
        &&& !self.flag_after_release(s)
        &&& elapsed_between(self.change_time_after(s), s.now_ms) >= DEBOUNCE_MS
    }

    /// The state after the sample.
    pub open spec fn polled(self, s: SwitchSample) -> GateModel {
        GateModel {
            pressed: !s.level_high,
            last_change_ms: self.change_time_after(s),
            zeroed_this_press: self.flag_after_release(s) || self.reports_home(s),
        }
    }

    /// The state after a run of samples.
    pub open spec fn polled_all(self, samples: Seq<SwitchSample>) -> GateModel
        decreases samples.len(),
    {
        if samples.len() == 0 {
            self
        } else {
            self.polled(samples[0]).polled_all(samples.skip(1))
        }
    }

    /// Number of home events reported over a run of samples.
    pub open spec fn home_events(self, samples: Seq<SwitchSample>) -> int
        decreases samples.len(),
    {
        if samples.len() == 0 {
            0
        } else {
            (if self.reports_home(samples[0]) { 1int } else { 0int })
                + self.polled(samples[0]).home_events(samples.skip(1))
        }
    }
}

/// Debounced single-shot gate on the limit switch.
#[derive(Clone, Copy, Debug)]
pub struct LimitSwitchGate {
    pressed: bool,
    last_change_ms: u64,
    zeroed_this_press: bool,
}

impl View for LimitSwitchGate {
    type V = GateModel;

    closed spec fn view(&self) -> GateModel {
        GateModel {
            pressed: self.pressed,
            last_change_ms: self.last_change_ms,
            zeroed_this_press: self.zeroed_this_press,
        }
    }
}

impl LimitSwitchGate {
    /// A released gate whose last change is at `now_ms`.
    pub fn new(now_ms: u64) -> (gate: Self)
        ensures
            gate@ == (GateModel {
                pressed: false,
                last_change_ms: now_ms,
                zeroed_this_press: false,
            }),
    {
        LimitSwitchGate { pressed: false, last_change_ms: now_ms, zeroed_this_press: false }
    }

    /// Whether the switch was pressed at the last sample.
    pub fn is_pressed(&self) -> (pressed: bool)
        ensures
            pressed == self@.pressed,
    {
        self.pressed
    }

    /// Time of the last observed change of the input.
    pub fn last_change_ms(&self) -> (ts: u64)
        ensures
            ts == self@.last_change_ms,
    {
        self.last_change_ms
    }

    /// Whether the current press has already been reported.
    pub fn zeroed_this_press(&self) -> (zeroed: bool)
        ensures
            zeroed == self@.zeroed_this_press,
    {
        self.zeroed_this_press
    }

    /// Takes one sample of the raw input and returns whether it is a home event.
    pub fn poll(&mut self, level_high: bool, now_ms: u64) -> (home: bool)
        ensures
            home == old(self)@.reports_home(SwitchSample { level_high, now_ms }),
            final(self)@ == old(self)@.polled(SwitchSample { level_high, now_ms }),
    {
        let raw_pressed: bool = !level_high;
        if raw_pressed != self.pressed {
            self.pressed = raw_pressed;
            self.last_change_ms = now_ms;
            if !raw_pressed {
                self.zeroed_this_press = false;
            }
        }
        let held: u64 = if now_ms >= self.last_change_ms {
            now_ms - self.last_change_ms
        } else {
            0
        };
        if self.pressed && !self.zeroed_this_press && held >= DEBOUNCE_MS {
            self.zeroed_this_press = true;
            true
        } else {
            false
        }
    }
}

/// Events over two runs of samples, one after the other, add up.
pub proof fn lemma_home_events_concat(g: GateModel, first: Seq<SwitchSample>, second: Seq<SwitchSample>)
    ensures
        g.home_events(first + second) == g.home_events(first) + g.polled_all(first).home_events(
            second,
        ),
    decreases first.len(),
{
    if first.len() == 0 {
        assert(first + second =~= second);
    } else {
        assert((first + second).skip(1) =~= first.skip(1) + second);
        assert((first + second)[0] == first[0]);
        lemma_home_events_concat(g.polled(first[0]), first.skip(1), second);
    }
}

/// While the input bounces for less than the debounce time, no home event is
/// reported, whatever the levels are.
pub proof fn lemma_no_event_while_bouncing(
    g: GateModel,
    samples: Seq<SwitchSample>,
    start_ms: u64,
    end_ms: u64,
)
    requires
        !g.zeroed_this_press,
        g.pressed ==> start_ms <= g.last_change_ms <= end_ms,
        end_ms - start_ms < DEBOUNCE_MS,
        forall|i: int| 0 <= i < samples.len() ==> start_ms <= (#[trigger] samples[i]).now_ms
            <= end_ms,
    ensures
        g.home_events(samples) == 0,
        !g.polled_all(samples).zeroed_this_press,
        g.polled_all(samples).pressed ==> start_ms <= g.polled_all(samples).last_change_ms
            <= end_ms,
    decreases samples.len(),
{
    if samples.len() > 0 {
        let s = samples[0];
        assert(start_ms <= s.now_ms <= end_ms);
        assert forall|i: int| 0 <= i < samples.skip(1).len() implies start_ms <= (
        #[trigger] samples.skip(1)[i]).now_ms <= end_ms by {
            assert(samples.skip(1)[i] == samples[i + 1]);
        }
        lemma_no_event_while_bouncing(g.polled(s), samples.skip(1), start_ms, end_ms);
    }
}

/// A press that has been reported is not reported again while the switch
/// stays pressed.
pub proof fn lemma_reported_press_stays_silent(g: GateModel, samples: Seq<SwitchSample>)
    requires
        g.pressed,
        g.zeroed_this_press,
        forall|i: int| 0 <= i < samples.len() ==> !(#[trigger] samples[i]).level_high,
    ensures
        g.home_events(samples) == 0,
    decreases samples.len(),
{
    if samples.len() > 0 {
        assert(!samples[0].level_high);
        assert forall|i: int| 0 <= i < samples.skip(1).len() implies !(
        #[trigger] samples.skip(1)[i]).level_high by {
            assert(samples.skip(1)[i] == samples[i + 1]);
        }
        lemma_reported_press_stays_silent(g.polled(samples[0]), samples.skip(1));
    }
}

/// A press that holds for at least the debounce time is reported exactly once.
pub proof fn lemma_hold_reports_once(g: GateModel, samples: Seq<SwitchSample>)
    requires
        samples.len() > 0,
        !g.zeroed_this_press,
        forall|i: int| 0 <= i < samples.len() ==> !(#[trigger] samples[i]).level_high,
        g.pressed ==> g.last_change_ms + DEBOUNCE_MS <= samples.last().now_ms,
        !g.pressed ==> samples[0].now_ms + DEBOUNCE_MS <= samples.last().now_ms,
    ensures
        g.home_events(samples) == 1,
    decreases samples.len(),
{
    let s = samples[0];
    let rest = samples.skip(1);
    assert(!s.level_high);
    assert forall|i: int| 0 <= i < rest.len() implies !(#[trigger] rest[i]).level_high by {
        assert(rest[i] == samples[i + 1]);
    }
    if g.reports_home(s) {
        lemma_reported_press_stays_silent(g.polled(s), rest);
    } else {
        if rest.len() == 0 {
            assert(samples.last() == s);
            assert(false);
        } else {
            assert(rest.last() == samples.last());
            lemma_hold_reports_once(g.polled(s), rest);
        }
    }
}

/// Debounce. From a released gate, an input that bounces for less than the
/// debounce time and then stays pressed for at least the debounce time gives
/// exactly one home event.
pub proof fn lemma_debounce_single_shot(
    g: GateModel,
    bounce: Seq<SwitchSample>,
    hold: Seq<SwitchSample>,
    start_ms: u64,
    end_ms: u64,
)
    requires
        !g.pressed,
        !g.zeroed_this_press,
        end_ms - start_ms < DEBOUNCE_MS,
        forall|i: int| 0 <= i < bounce.len() ==> start_ms <= (#[trigger] bounce[i]).now_ms
            <= end_ms,
        hold.len() > 0,
        forall|i: int| 0 <= i < hold.len() ==> !(#[trigger] hold[i]).level_high,
        end_ms <= hold[0].now_ms,
        hold[0].now_ms + DEBOUNCE_MS <= hold.last().now_ms,
    ensures
        g.home_events(bounce + hold) == 1,
{
    lemma_home_events_concat(g, bounce, hold);
    lemma_no_event_while_bouncing(g, bounce, start_ms, end_ms);
    lemma_hold_reports_once(g.polled_all(bounce), hold);
}

} // verus!
