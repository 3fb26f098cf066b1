//! Plain RGBA colors, the values carried between the style lookup, the
//! animated transition and the shape's fill uniform.

use vstd::prelude::*;

verus! {

/// An RGBA color with one byte per channel.
#[derive(Debug, Copy, Clone, PartialEq, Eq, Structural)]
pub struct Color {
    /// Red channel.
    pub r: u8,
    /// Green channel.
    pub g: u8,
    /// Blue channel.
    pub b: u8,
    /// Alpha channel.
    pub a: u8,
}

impl Color {
    /// The fully transparent color, the value every uniform starts from.
    pub fn transparent() -> (c: Color)
        ensures
            c == Color::spec_transparent(),
    {
        Color { r: 0, g: 0, b: 0, a: 0 }
    }

    /// The fully transparent color, as seen by specifications.
    pub open spec fn spec_transparent() -> Color {
        Color { r: 0, g: 0, b: 0, a: 0 }
    }
}

impl Default for Color {
    /// A freshly allocated color uniform holds the transparent color.
    fn default() -> (c: Color)
        ensures
            c == Color::spec_transparent(),
    {
        Color::transparent()
    }
}

} // verus!
