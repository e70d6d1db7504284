use vstd::prelude::*;

verus! {

/// An RGB colour.
#[derive(Clone, Copy, Debug, PartialEq, Eq, Structural)]
pub struct Rgb {
    pub r: u8,
    pub g: u8,
    pub b: u8,
}

/// Brightness of the predefined colours.
pub const DEFAULT_BRIGHTNESS: u8 = 25;

pub open spec fn black() -> Rgb {
    Rgb { r: 0, g: 0, b: 0 }
}

pub open spec fn green() -> Rgb {
    Rgb { r: 0, g: DEFAULT_BRIGHTNESS, b: 0 }
}

pub open spec fn red() -> Rgb {
    Rgb { r: DEFAULT_BRIGHTNESS, g: 0, b: 0 }
}

/// The 24-bit word an indicator is sent for a colour: green in bits 16..24,
/// red in bits 8..16, blue in bits 0..8.
pub open spec fn grb_word(rgb: Rgb) -> u32 {
    ((rgb.g as u32) << 16) | ((rgb.r as u32) << 8) | (rgb.b as u32)
}

impl Rgb {
    #[must_use]
    pub fn new(r: u8, g: u8, b: u8) -> (rgb: Rgb)
        ensures
            rgb == (Rgb { r, g, b }),
    {
        Rgb { r, g, b }
    }

    /// An indicator that shows nothing.
    pub fn black() -> (rgb: Rgb)
        ensures
            rgb == black(),
    {
        Rgb { r: 0, g: 0, b: 0 }
    }

    /// Green at the default brightness.
    pub fn green() -> (rgb: Rgb)
        ensures
            rgb == green(),
    {
        Rgb { r: 0, g: DEFAULT_BRIGHTNESS, b: 0 }
    }

    /// Red at the default brightness.
    pub fn red() -> (rgb: Rgb)
        ensures
            rgb == red(),
    {
        Rgb { r: DEFAULT_BRIGHTNESS, g: 0, b: 0 }
    }

    /// The colour as the word that is shifted out to the indicator.
    pub fn word(&self) -> (w: u32)
        ensures
            w == grb_word(*self),
            w as int == self.g as int * 65536 + self.r as int * 256 + self.b as int,
    {
        let g: u32 = self.g.into();
        let r: u32 = self.r.into();
        let b: u32 = self.b.into();
        proof {
            assert(((g << 16) | (r << 8) | b) == g * 65536 + r * 256 + b) by (bit_vector)
                requires
                    g < 256,
                    r < 256,
                    b < 256,
            ;
        }
        (g << 16) | (r << 8) | b
    }
}

impl From<&Rgb> for u32 {
    fn from(rgb: &Rgb) -> (w: u32) {
        rgb.word()
    }
}

impl vstd::std_specs::convert::FromSpecImpl<&Rgb> for u32 {
    open spec fn obeys_from_spec() -> bool {
        true
    }

    open spec fn from_spec(rgb: &Rgb) -> u32 {
        grb_word(*rgb)
    }
}

} // verus!
