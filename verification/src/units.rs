//! The constants of the game, in fixed-point sub-units where they are lengths.

use vstd::prelude::*;

verus! {

/// Sub-units in one logical unit of the drawing surface.
pub const UNIT: i64 = 10_000;

/// Width of the drawing surface.
pub const WINDOW_WIDTH: i64 = 800 * UNIT;

/// Height of the drawing surface.
pub const WINDOW_HEIGHT: i64 = 600 * UNIT;

/// Logic ticks in one second.
pub const DESIRED_FPS: u32 = 60;

/// Pillars that are active during a session.
pub const NUM_PILLARS: usize = 5;

/// Height of the opening between the two blocks of a pillar.
pub const PILLAR_GAP: i64 = 220 * UNIT;

/// Horizontal distance from one pillar to the next.
pub const PILLAR_DISTANCE: i64 = 300 * UNIT;

/// Width of a pillar block.
pub const PILLAR_WIDTH: i64 = 80 * UNIT;

/// Change of the scroll speed in one tick.
pub const PILLAR_ACCELERATION: i64 = -4;

/// Scroll speed at the start of a session, per tick.
pub const INITIAL_SPEED: i64 = -UNIT;

/// Gain of the player's downward velocity in one tick.
pub const GRAVITY: i64 = UNIT;

/// Vertical velocity that a jump sets.
pub const JUMP_AMOUNT: i64 = -10 * UNIT;

/// Left edge of the player's body: the middle of the window.
pub const PLAYER_X: i64 = 400 * UNIT;

/// Top edge of the player's body at the start: the middle of the window.
pub const PLAYER_START_Y: i64 = 300 * UNIT;

/// Side of the player's square body.
pub const PLAYER_SIZE: i64 = 50 * UNIT;

/// Height of a top block whose gap ends at the bottom of the window. The
/// heights that a pillar draws are below it.
pub const MAX_GAP_TOP: i64 = WINDOW_HEIGHT - PILLAR_GAP;

/// Ticks that one session can run. Up to here the score fits its type even
/// if every pillar scores on every tick, and every coordinate fits its own:
/// at sixty ticks a second, some five months of play.
pub const MAX_TICKS: i64 = 800_000_000;

/// Scroll speed after the last tick that a session can run.
pub const MIN_SPEED: i64 = INITIAL_SPEED + PILLAR_ACCELERATION * MAX_TICKS;

/// Left edge of the intro caption at the start, and of the restart prompt:
/// a third of the window's width.
pub const CAPTION_X: i64 = 2_666_666;

/// Top edge of the intro caption and of the restart prompt: the window's
/// height divided by 2.2.
pub const CAPTION_Y: i64 = 2_727_272;

/// Left and top edge of the score caption.
pub const SCORE_POS: i64 = 20 * UNIT;

/// Whether a number is one that an `i64` can hold.
pub open spec fn fits_i64(v: int) -> bool {
    i64::MIN <= v <= i64::MAX
}

} // verus!
