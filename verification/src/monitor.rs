//! Edge detection on a sampled button line.
//!
//! A monitor is fed the level of its line once per sampling interval. It
//! reports a press on the first high sample after a low one and stays silent
//! for as long as the line is held high. Changes of level that come and go
//! between two samples are never seen.

use vstd::prelude::*;

use crate::event::ButtonEvent;

verus! {

/// Milliseconds between two samples of a button's line.
pub const SAMPLE_INTERVAL_MS: u64 = 10;

/// What a monitor remembers between two samples.
pub struct MonitorState {
    /// The event this monitor reports.
    pub event: ButtonEvent,
    /// Whether the line was high at the last sample.
    pub pressed: bool,
}

impl MonitorState {
    /// A monitor that has not yet seen its line high.
    pub open spec fn released(event: ButtonEvent) -> MonitorState {
        MonitorState { event, pressed: false }
    }

    /// Whether a sample at level `high` is reported as a press.
    pub open spec fn emits(self, high: bool) -> bool {
        high && !self.pressed
    }

    /// What a sample at level `high` produces.
    pub open spec fn output(self, high: bool) -> Option<ButtonEvent> {
        if self.emits(high) {
            Some(self.event)
        } else {
            None
        }
    }

    /// The state after a sample at level `high`.
    pub open spec fn step(self, high: bool) -> MonitorState {
        MonitorState { event: self.event, pressed: high }
    }

    /// The state after the samples `levels`, taken in order.
    pub open spec fn after(self, levels: Seq<bool>) -> MonitorState
        decreases levels.len(),
    {
        if levels.len() == 0 {
            self
        } else {
            self.after(levels.drop_last()).step(levels.last())
        }
    }

    /// Whether sample number `i` of `levels` is reported as a press.
    pub open spec fn emits_at(self, levels: Seq<bool>, i: int) -> bool
        recommends
            0 <= i < levels.len(),
    {
        self.after(levels.take(i)).emits(levels[i])
    }

    /// The level the monitor holds the line to have had just before sample
    /// number `i` of `levels`.
    pub open spec fn level_before(self, levels: Seq<bool>, i: int) -> bool
        recommends
            0 <= i < levels.len(),
    {
        if i == 0 {
            self.pressed
        } else {
            levels[i - 1]
        }
    }
}

/// The edge detector of one button.
#[derive(Debug, Clone, Copy, PartialEq, Eq)]
pub struct ButtonMonitor {
    event: ButtonEvent,
    pressed: bool,
}

impl View for ButtonMonitor {
    type V = MonitorState;

    closed spec fn view(&self) -> MonitorState {
        MonitorState { event: self.event, pressed: self.pressed }
    }
}

impl ButtonMonitor {
    /// A monitor for the button that reports `event`, not yet pressed.
    pub fn new(event: ButtonEvent) -> (m: ButtonMonitor)
        ensures
            m@ == MonitorState::released(event),
    {
        ButtonMonitor { event, pressed: false }
    }

    /// The event this monitor reports.
    pub fn event(&self) -> (event: ButtonEvent)
        ensures
            event == self@.event,
    {
        self.event
    }

    /// Whether the line was high at the last sample.
    pub fn is_pressed(&self) -> (pressed: bool)
        ensures
            pressed == self@.pressed,
    {
        self.pressed
    }

    /// Takes in one sample of the line. Returns the monitor's event if the
    /// line is high and was not at the sample before, and nothing otherwise.
    pub fn sample(&mut self, high: bool) -> (out: Option<ButtonEvent>)
        ensures
            final(self)@ == old(self)@.step(high),
            out == old(self)@.output(high),
    {
        let mut out: Option<ButtonEvent> = None;
        if high {
            if !self.pressed {
                self.pressed = true;
                out = Some(self.event);
            }
        } else {
            self.pressed = false;
        }
        out
    }
}

/// After at least one sample the monitor remembers the level of the last one
/// and nothing else.
pub proof fn lemma_state_is_last_level(s: MonitorState, levels: Seq<bool>)
    ensures
        s.after(levels).event == s.event,
        s.after(levels).pressed == if levels.len() == 0 {
            s.pressed
        } else {
            levels.last()
        },
    decreases levels.len(),
{
    if levels.len() > 0 {
        lemma_state_is_last_level(s, levels.drop_last());
    }
}

/// A press is reported at exactly the samples at which the line is seen to go
/// from low to high: one event for each such transition, and none anywhere
/// else.
pub proof fn lemma_one_event_per_rising_edge(s: MonitorState, levels: Seq<bool>, i: int)
    requires
        0 <= i < levels.len(),
    ensures
        s.emits_at(levels, i) <==> (levels[i] && !s.level_before(levels, i)),
        s.after(levels.take(i)).output(levels[i]) == if levels[i] && !s.level_before(levels, i) {
            Some(s.event)
        } else {
            None
        },
{
    lemma_state_is_last_level(s, levels.take(i));
}

/// Between two reported presses the line was sampled low at least once: while
/// a button is held it is reported a single time.
pub proof fn lemma_no_repeat_without_release(s: MonitorState, levels: Seq<bool>, i: int, j: int)
    requires
        0 <= i < j < levels.len(),
        s.emits_at(levels, i),
        s.emits_at(levels, j),
    ensures
        exists|k: int| i < k < j && !levels[k],
{
    lemma_one_event_per_rising_edge(s, levels, i);
    lemma_one_event_per_rising_edge(s, levels, j);
    // The sample just before `j` is the low one.
    assert(i < j - 1 < j && !levels[j - 1]);
}

} // verus!
