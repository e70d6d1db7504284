use vstd::prelude::*;

use crate::error::Error;

verus! {

/// The state of a switch, and of the shared flag that producers consult.
#[derive(Clone, Copy, Debug, PartialEq, Eq, Structural)]
pub enum State {
    On,
    Off,
}

impl State {
    /// The other state.
    pub open spec fn flipped(self) -> State {
        match self {
            State::On => State::Off,
            State::Off => State::On,
        }
    }

    pub open spec fn spec_is_on(self) -> bool {
        self == State::On
    }

    #[verifier::when_used_as_spec(spec_is_on)]
    pub fn is_on(self) -> (on: bool)
        ensures
            on == self.spec_is_on(),
    {
        match self {
            State::On => true,
            State::Off => false,
        }
    }
}

/// Something with two states that can be flipped between them.
pub trait Switch {
    /// The state the switch is in.
    spec fn switch_state(&self) -> State;

    /// Flips the switch. A switch of this library never fails to do so.
    fn toggle(&mut self) -> (r: Result<(), Error>)
        ensures
            r is Ok,
            final(self).switch_state() == old(self).switch_state().flipped(),
    ;
}

/// The on/off flag that the button writes and the other producers read.
#[derive(Clone, Copy, Debug, PartialEq, Eq, Structural)]
pub struct Gate {
    pub state: State,
}

impl Gate {
    pub fn new(state: State) -> (gate: Gate)
        ensures
            gate.state == state,
    {
        Gate { state }
    }

    /// Whether producers may work.
    pub fn is_open(&self) -> (open: bool)
        ensures
            open == (self.state == State::On),
    {
        self.state.is_on()
    }
}

impl Switch for Gate {
    open spec fn switch_state(&self) -> State {
        self.state
    }

    fn toggle(&mut self) -> (r: Result<(), Error>)
        ensures
            final(self).state == old(self).state.flipped(),
    {
        self.state = match self.state {
            State::On => State::Off,
            State::Off => State::On,
        };
        Ok(())
    }
}

} // verus!
