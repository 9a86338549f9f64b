//! Game rules of a colour-matching flappy cube, with every rule proved.
//!
//! A cube falls under gravity while pillars scroll towards it. Each pillar
//! has a colour and a gap; the cube survives a pillar only when it wears the
//! pillar's colour and stays inside the gap. This crate holds the state of
//! one session and the rules that move it from tick to tick. Windowing,
//! drawing and sound belong to the program around it: the rules hand back
//! lists of drawing commands and sound cues for that program to carry out.
//!
//! All lengths are fixed-point integers, `units::UNIT` to one logical unit
//! of the drawing surface.

pub mod units;
pub mod geometry;
pub mod color;
pub mod random;
pub mod render;
pub mod pillar;
pub mod player;
pub mod text;
pub mod session;
