use vstd::prelude::*;

use crate::infra::{Gate, Switch};
use crate::message::Trigger;

verus! {

/// How long the button rests after a press, in milliseconds.
pub const DEBOUNCE_MS: u32 = 500;

/// What follows a press: the trigger to emit and the pause to make after it.
#[derive(Clone, Copy, Debug, PartialEq, Eq, Structural)]
pub struct Press {
    pub trigger: Trigger,
    pub pause_ms: u32,
}

/// The button's decisions. The pin is read by the caller.
#[derive(Clone, Copy, Debug, PartialEq, Eq, Structural)]
pub struct Button {
    pub gate: Gate,
}

impl Button {
    pub fn new(gate: Gate) -> (button: Button)
        ensures
            button.gate == gate,
    {
        Button { gate }
    }

    /// One look at the pin. A press emits `ButtonPressed`, flips the shared flag and
    /// asks for the debounce pause; without a press nothing happens.
    pub fn poll(&mut self, pressed: bool) -> (press: Option<Press>)
        ensures
            pressed ==> press == Some(Press { trigger: Trigger::ButtonPressed, pause_ms: DEBOUNCE_MS })
                && final(self).gate.state == old(self).gate.state.flipped(),
            !pressed ==> press is None && *final(self) == *old(self),
    {
        if pressed {
            let _ = self.gate.toggle();
            Some(Press { trigger: Trigger::ButtonPressed, pause_ms: DEBOUNCE_MS })
        } else {
            None
        }
    }
}

} // verus!
