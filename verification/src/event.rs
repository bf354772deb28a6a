//! The events that buttons produce.

use vstd::prelude::*;

verus! {

/// A press of one of the buttons. An event carries nothing but its tag.
#[derive(Debug, Clone, Copy, PartialEq, Eq, Structural)]
pub enum ButtonEvent {
    Button2Pressed,
    Button3Pressed,
    Button4Pressed,
}

} // verus!
