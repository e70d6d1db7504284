use vstd::prelude::*;

use crate::color::{black, grb_word, Rgb};
use crate::error::Error;
use crate::infra::{State, Switch};

verus! {

/// Number of pulse pairs in one frame: one for each bit of a colour word.
pub const FRAME_BITS: usize = 24;

/// The bits of a frame in the order in which they are sent: the colour
/// word's bit 23 first, its bit 0 last.
pub open spec fn frame_bits(word: u32) -> Seq<bool> {
    Seq::new(FRAME_BITS as nat, |k: int| (word >> ((23 - k) as u32)) & 1 == 1)
}

/// The bits to send for a colour, first one first.
pub fn frame(rgb: &Rgb) -> (bits: Vec<bool>)
    ensures
        bits@ == frame_bits(grb_word(*rgb)),
{
    let word = rgb.word();
    let mut bits: Vec<bool> = Vec::with_capacity(FRAME_BITS);
    let mut k: u32 = 0;
    while k < 24
        invariant
            k <= 24,
            bits@.len() == k,
            forall|j: int| 0 <= j < k ==> bits@[j] == ((word >> ((23 - j) as u32)) & 1 == 1),
        decreases 24 - k,
    {
        let shift: u32 = 23 - k;
        bits.push((word >> shift) & 1 == 1);
        k = k + 1;
    }
    bits
}

/// The indicator as the control core sees it: a colour, and whether it is lit.
#[derive(Clone, Copy, Debug, PartialEq, Eq, Structural)]
pub struct Led {
    pub color: Rgb,
    pub state: State,
}

impl Led {
    /// What the indicator shows: its colour while lit, black while not.
    pub open spec fn spec_shown(&self) -> Rgb {
        match self.state {
            State::On => self.color,
            State::Off => black(),
        }
    }

    /// A dark indicator.
    pub fn new() -> (led: Led)
        ensures
            led == (Led { color: black(), state: State::Off }),
    {
        Led { color: Rgb::black(), state: State::Off }
    }

    #[verifier::when_used_as_spec(spec_shown)]
    pub fn shown(&self) -> (rgb: Rgb)
        ensures
            rgb == self.spec_shown(),
    {
        match self.state {
            State::On => self.color,
            State::Off => Rgb::black(),
        }
    }

    pub fn set_color(&mut self, color: Rgb)
        ensures
            *final(self) == (Led { color, state: old(self).state }),
    {
        self.color = color;
    }

    pub fn on(&mut self)
        ensures
            *final(self) == (Led { color: old(self).color, state: State::On }),
    {
        self.state = State::On;
    }

    pub fn off(&mut self)
        ensures
            *final(self) == (Led { color: old(self).color, state: State::Off }),
    {
        self.state = State::Off;
    }
}

impl Switch for Led {
    open spec fn switch_state(&self) -> State {
        self.state
    }

    fn toggle(&mut self) -> (r: Result<(), Error>)
        ensures
            *final(self) == (Led { color: old(self).color, state: old(self).state.flipped() }),
    {
        match self.state {
            State::On => self.off(),
            State::Off => self.on(),
        }
        Ok(())
    }
}

} // verus!
