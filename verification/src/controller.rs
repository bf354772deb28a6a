//! The LED controller: every delivered event inverts the LED that belongs to
//! it.

use vstd::prelude::*;

use crate::event::ButtonEvent;

verus! {

/// One of the three LEDs.
#[derive(Debug, Clone, Copy, PartialEq, Eq, Structural)]
pub enum Led {
    Led2,
    Led3,
    Led4,
}

impl ButtonEvent {
    /// The LED that this event toggles.
    pub open spec fn spec_led(self) -> Led {
        match self {
            ButtonEvent::Button2Pressed => Led::Led2,
            ButtonEvent::Button3Pressed => Led::Led3,
            ButtonEvent::Button4Pressed => Led::Led4,
        }
    }

    /// The LED that this event toggles.
    #[verifier::when_used_as_spec(spec_led)]
    pub fn led(self) -> (led: Led)
        ensures
            led == self.spec_led(),
    {
        match self {
            ButtonEvent::Button2Pressed => Led::Led2,
            ButtonEvent::Button3Pressed => Led::Led3,
            ButtonEvent::Button4Pressed => Led::Led4,
        }
    }
}

/// An order to drive one LED's line: high for on, low for off.
#[derive(Debug, Clone, Copy, PartialEq, Eq, Structural)]
pub struct LedCommand {
    pub led: Led,
    pub on: bool,
}

/// Which of the LEDs are on.
pub struct LedLevels {
    pub led2: bool,
    pub led3: bool,
    pub led4: bool,
}

impl LedLevels {
    /// The levels at start-up: every LED is on.
    pub open spec fn all_on() -> LedLevels {
        LedLevels { led2: true, led3: true, led4: true }
    }

    /// Whether `led` is on.
    pub open spec fn is_on(self, led: Led) -> bool {
        match led {
            Led::Led2 => self.led2,
            Led::Led3 => self.led3,
            Led::Led4 => self.led4,
        }
    }

    /// The levels with `led` inverted and the other two as they were.
    pub open spec fn toggled(self, led: Led) -> LedLevels {
        match led {
            Led::Led2 => LedLevels { led2: !self.led2, ..self },
            Led::Led3 => LedLevels { led3: !self.led3, ..self },
            Led::Led4 => LedLevels { led4: !self.led4, ..self },
        }
    }

    /// The levels after the events `events` were delivered in order.
    pub open spec fn after(self, events: Seq<ButtonEvent>) -> LedLevels
        decreases events.len(),
    {
        if events.len() == 0 {
            self
        } else {
            self.after(events.drop_last()).toggled(events.last().led())
        }
    }
}

/// The number of events in `events` that toggle `led`.
pub open spec fn toggles_of(events: Seq<ButtonEvent>, led: Led) -> nat
    decreases events.len(),
{
    if events.len() == 0 {
        0
    } else {
        toggles_of(events.drop_last(), led) + if events.last().led() == led {
            1nat
        } else {
            0nat
        }
    }
}

/// The owner of the three LED levels.
#[derive(Debug, Clone, Copy, PartialEq, Eq)]
pub struct LedController {
    led2: bool,
    led3: bool,
    led4: bool,
}

impl View for LedController {
    type V = LedLevels;

    closed spec fn view(&self) -> LedLevels {
        LedLevels { led2: self.led2, led3: self.led3, led4: self.led4 }
    }
}

impl LedController {
    /// A controller with every LED on.
    pub fn new() -> (c: LedController)
        ensures
            c@ == LedLevels::all_on(),
    {
        LedController { led2: true, led3: true, led4: true }
    }

    /// Whether `led` is on.
    pub fn is_on(&self, led: Led) -> (on: bool)
        ensures
            on == self@.is_on(led),
    {
        match led {
            Led::Led2 => self.led2,
            Led::Led3 => self.led3,
            Led::Led4 => self.led4,
        }
    }

    /// Inverts the LED that belongs to `event` and leaves the other two
    /// alone. Returns the order that brings the LED's line to its new level.
    pub fn apply(&mut self, event: ButtonEvent) -> (command: LedCommand)
        ensures
            final(self)@ == old(self)@.toggled(event.led()),
            command.led == event.led(),
            command.on == !old(self)@.is_on(event.led()),
    {
        let led = event.led();
        let on = !self.is_on(led);
        match led {
            Led::Led2 => {
                self.led2 = on;
            },
            Led::Led3 => {
                self.led3 = on;
            },
            Led::Led4 => {
                self.led4 = on;
            },
        }
        LedCommand { led, on }
    }
}

/// An LED is back at the level it started from when the events delivered
/// since have toggled it an even number of times, and at the opposite level
/// when that number is odd.
pub proof fn lemma_level_follows_parity(start: LedLevels, events: Seq<ButtonEvent>, led: Led)
    ensures
        start.after(events).is_on(led) == if toggles_of(events, led) % 2 == 0 {
            start.is_on(led)
        } else {
            !start.is_on(led)
        },
    decreases events.len(),
{
    if events.len() > 0 {
        lemma_level_follows_parity(start, events.drop_last(), led);
    }
}

/// The sequence of `n` events that are all `event`.
pub open spec fn repeated(event: ButtonEvent, n: nat) -> Seq<ButtonEvent> {
    Seq::new(n, |i: int| event)
}

/// From start-up, `n` events of one tag in a row leave the tag's LED on if
/// `n` is even and off if `n` is odd; the other two LEDs stay on.
pub proof fn lemma_repeated_event_toggles(event: ButtonEvent, n: nat)
    ensures
        LedLevels::all_on().after(repeated(event, n)).is_on(event.led()) == (n % 2 == 0),
        forall|other: Led|
            other != event.led() ==> #[trigger] LedLevels::all_on().after(
                repeated(event, n),
            ).is_on(other),
{
    assert forall|led: Led|
        #[trigger] LedLevels::all_on().after(repeated(event, n)).is_on(led) == (led != event.led()
            || n % 2 == 0) by {
        lemma_level_follows_parity(LedLevels::all_on(), repeated(event, n), led);
        lemma_toggles_of_run(event, n, led);
    }
}

/// A run of `n` events of one tag toggles that tag's LED `n` times and the
/// others not at all.
proof fn lemma_toggles_of_run(event: ButtonEvent, n: nat, led: Led)
    ensures
        toggles_of(repeated(event, n), led) == if led == event.led() {
            n
        } else {
            0
        },
    decreases n,
{
    if n > 0 {
        assert(repeated(event, n).drop_last() =~= repeated(event, (n - 1) as nat));
        lemma_toggles_of_run(event, (n - 1) as nat, led);
    }
}

} // verus!
