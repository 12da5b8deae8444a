//! Colours as four plain channels.

use vstd::prelude::*;

verus! {

/// A colour of four channels, each one byte: red, green, blue and alpha.
#[derive(Clone, Copy, Debug, PartialEq, Eq, Structural)]
pub struct Color {
    pub r: u8,
    pub g: u8,
    pub b: u8,
    pub a: u8,
}

impl Color {
    /// The colour with the given channels.
    pub fn new(r: u8, g: u8, b: u8, a: u8) -> (c: Color)
        ensures
            c == (Color { r, g, b, a }),
    {
        Color { r, g, b, a }
    }

    /// The colour whose channels are the four bytes, in the order red,
    /// green, blue, alpha.
    pub fn from_array(channels: [u8; 4]) -> (c: Color)
        ensures
            c == (Color { r: channels[0], g: channels[1], b: channels[2], a: channels[3] }),
    {
        Color { r: channels[0], g: channels[1], b: channels[2], a: channels[3] }
    }
}

} // verus!
