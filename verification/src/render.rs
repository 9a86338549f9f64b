//! The drawing commands that make up a frame.

use vstd::prelude::*;
use crate::color::Color;
use crate::geometry::Rect;

verus! {

/// The captions that a frame can show.
#[derive(Clone, Copy, PartialEq, Eq, Structural, Debug)]
pub enum Caption {
    /// The key bindings, shown until they have scrolled away.
    Intro,
    /// The score.
    Score,
    /// The prompt to start again, shown once the game is over.
    Restart,
}

/// One step of drawing a frame, for the program that owns the surface.
#[derive(Clone, Copy, PartialEq, Eq, Structural, Debug)]
pub enum DrawCommand {
    /// Fill the whole surface.
    Clear { color: Color },
    /// Draw a caption with its top-left corner at `(x, y)`.
    Text { caption: Caption, x: i64, y: i64, color: Color },
    /// Draw a filled rectangle.
    Rectangle { rect: Rect, color: Color },
    /// Show what was drawn.
    Present,
}

} // verus!
