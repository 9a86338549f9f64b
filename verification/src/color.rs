//! Colours and the palette of the game.

use vstd::prelude::*;

verus! {

/// An RGBA colour, eight bits to the channel.
#[derive(Clone, Copy, PartialEq, Eq, Structural, Debug)]
pub struct Color {
    pub r: u8,
    pub g: u8,
    pub b: u8,
    pub a: u8,
}

/// The colour with the given channels and full opacity.
pub open spec fn opaque(r: u8, g: u8, b: u8) -> Color {
    Color { r, g, b, a: 255 }
}

/// The five colours that pillars and the player wear.
pub open spec fn spec_palette() -> Seq<Color> {
    seq![
        opaque(35, 61, 77),
        opaque(254, 127, 45),
        opaque(252, 202, 70),
        opaque(161, 193, 129),
        opaque(97, 155, 138),
    ]
}

/// The background of a frame.
pub open spec fn spec_white() -> Color {
    opaque(255, 255, 255)
}

/// The colour of the captions.
pub open spec fn spec_black() -> Color {
    opaque(0, 0, 0)
}

impl Color {
    /// The colour with the given channels.
    pub fn new(r: u8, g: u8, b: u8, a: u8) -> (color: Color)
        ensures
            color == (Color { r, g, b, a }),
    {
        Color { r, g, b, a }
    }
}

/// The background of a frame.
#[verifier::when_used_as_spec(spec_white)]
pub fn white() -> (color: Color)
    ensures
        color == spec_white(),
{
    Color { r: 255, g: 255, b: 255, a: 255 }
}

/// The colour of the captions.
#[verifier::when_used_as_spec(spec_black)]
pub fn black() -> (color: Color)
    ensures
        color == spec_black(),
{
    Color { r: 0, g: 0, b: 0, a: 255 }
}

/// The five colours that pillars and the player wear.
pub fn palette() -> (colors: Vec<Color>)
    ensures
        colors@ == spec_palette(),
{
    let mut colors: Vec<Color> = Vec::new();
    colors.push(Color { r: 35, g: 61, b: 77, a: 255 });
    colors.push(Color { r: 254, g: 127, b: 45, a: 255 });
    colors.push(Color { r: 252, g: 202, b: 70, a: 255 });
    colors.push(Color { r: 161, g: 193, b: 129, a: 255 });
    colors.push(Color { r: 97, g: 155, b: 138, a: 255 });
    assert(colors@ =~= spec_palette());
    colors
}

} // verus!
