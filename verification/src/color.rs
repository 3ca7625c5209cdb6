//! Colours with four 8-bit channels.

use vstd::prelude::*;

verus! {

/// A colour given by its red, green, blue and alpha channels, each in `0..=255`.
///
/// An alpha of 255 is fully opaque.
#[derive(Clone, Copy, Debug, PartialEq, Eq, Structural)]
pub struct Color {
    pub r: u8,
    pub g: u8,
    pub b: u8,
    pub a: u8,
}

impl Color {
    /// The opaque colour with the given red, green and blue channels.
    pub open spec fn rgb(r: u8, g: u8, b: u8) -> Color {
        Color { r, g, b, a: 255 }
    }

    /// Opaque white.
    pub open spec fn white() -> Color {
        Color::rgb(255, 255, 255)
    }

    /// Opaque black, the colour a cell gets when its tag has no palette entry.
    pub open spec fn black() -> Color {
        Color::rgb(0, 0, 0)
    }

    /// Builds an opaque colour from three channels; the alpha channel is fixed to 255.
    pub fn from_rgb(r: u8, g: u8, b: u8) -> (c: Color)
        ensures
            c == Color::rgb(r, g, b),
    {
        Color { r, g, b, a: 255 }
    }
}

} // verus!
