//! RGBA colors handed to the display backend with every draw command.

use vstd::prelude::*;

verus! {

/// An 8-bit-per-channel RGBA color.
#[derive(Clone, Copy, Debug, PartialEq, Eq, Structural)]
pub struct Color {
    pub r: u8,
    pub g: u8,
    pub b: u8,
    pub a: u8,
}

impl Color {
    /// Opaque white, the tint used for untinted texture draws.
    pub fn white() -> (c: Color)
        ensures
            c == (Color { r: 255, g: 255, b: 255, a: 255 }),
    {
        Color { r: 255, g: 255, b: 255, a: 255 }
    }

    /// The red used for countdown digits and debug text.
    pub fn red() -> (c: Color)
        ensures
            c == (Color { r: 230, g: 41, b: 55, a: 255 }),
    {
        Color { r: 230, g: 41, b: 55, a: 255 }
    }
}

/// What unpacking a `0xRRGGBBAA` word into a color means.
pub open spec fn spec_color_of_u32(value: u32) -> Color {
    Color {
        r: (value >> 24) as u8,
        g: ((value >> 16) & 0xff) as u8,
        b: ((value >> 8) & 0xff) as u8,
        a: (value & 0xff) as u8,
    }
}

impl From<u32> for Color {
    /// Unpacks a `0xRRGGBBAA` word, highest byte first.
    fn from(value: u32) -> (c: Color) {
        Color {
            r: (value >> 24) as u8,
            g: ((value >> 16) & 0xff) as u8,
            b: ((value >> 8) & 0xff) as u8,
            a: (value & 0xff) as u8,
        }
    }
}

impl vstd::std_specs::convert::FromSpecImpl<u32> for Color {
    open spec fn obeys_from_spec() -> bool {
        true
    }

    open spec fn from_spec(value: u32) -> Color {
        spec_color_of_u32(value)
    }
}

} // verus!
