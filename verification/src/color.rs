//! Colours.

use vstd::prelude::*;

verus! {

/// An RGB colour. Channels run from 0 to 255; larger values are kept as given.
#[derive(Copy, Clone, Debug, PartialEq, Eq, Structural)]
pub struct Color {
    pub r: u16,
    pub g: u16,
    pub b: u16,
}

impl Color {
    pub fn new(r: u16, g: u16, b: u16) -> (c: Self)
        ensures
            c == (Color { r, g, b }),
    {
        Self { r, g, b }
    }

    pub open spec fn spec_white() -> Color {
        Color { r: 255, g: 255, b: 255 }
    }

    pub open spec fn spec_black() -> Color {
        Color { r: 0, g: 0, b: 0 }
    }

    #[verifier::when_used_as_spec(spec_white)]
    pub fn white() -> (c: Self)
        ensures
            c == Color::spec_white(),
    {
        Self { r: 255, g: 255, b: 255 }
    }

    #[verifier::when_used_as_spec(spec_black)]
    pub fn black() -> (c: Self)
        ensures
            c == Color::spec_black(),
    {
        Self { r: 0, g: 0, b: 0 }
    }

    /// The three channels in the order red, green, blue.
    pub fn channels(self) -> (c: (u16, u16, u16))
        ensures
            c == (self.r, self.g, self.b),
    {
        (self.r, self.g, self.b)
    }
}

} // verus!
