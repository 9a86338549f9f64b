//! Pillars: two blocks of one colour with a gap between them.

use vstd::prelude::*;
use crate::color::Color;
use crate::geometry::Rect;
use crate::random::RandomSource;
use crate::render::DrawCommand;
use crate::units::{
    fits_i64, MAX_GAP_TOP, PILLAR_DISTANCE, PILLAR_GAP, PILLAR_WIDTH, WINDOW_HEIGHT,
};

verus! {

/// An obstacle: a block that hangs from the top of the window and a block
/// that stands on its bottom, both of one colour.
#[derive(Clone, Copy, PartialEq, Eq, Structural, Debug)]
pub struct Pillar {
    pub color: Color,
    pub top: Rect,
    pub bottom: Rect,
}

impl Pillar {
    /// The gap is exactly `PILLAR_GAP` tall and the bottom block ends at the
    /// bottom of the window.
    pub open spec fn gap_holds(self) -> bool {
        &&& self.bottom.y == self.top.h + PILLAR_GAP
        &&& self.bottom.h == WINDOW_HEIGHT - self.bottom.y
    }

    /// A pillar as the game makes them: both blocks in one column of the
    /// pillar width, the top block hanging from the top edge, and the gap
    /// inside the window.
    pub open spec fn wf(self) -> bool {
        &&& self.top.x == self.bottom.x
        &&& self.top.w == PILLAR_WIDTH
        &&& self.bottom.w == PILLAR_WIDTH
        &&& self.top.y == 0
        &&& 0 <= self.top.h <= MAX_GAP_TOP
        &&& self.gap_holds()
    }

    /// The pillar of the given colour at `x` whose gap starts at `gap_top`.
    pub open spec fn spec_new(color: Color, x: i64, gap_top: i64) -> Pillar {
        Pillar {
            color,
            top: Rect { x, y: 0, w: PILLAR_WIDTH, h: gap_top },
            bottom: Rect {
                x,
                y: (gap_top + PILLAR_GAP) as i64,
                w: PILLAR_WIDTH,
                h: (WINDOW_HEIGHT - (gap_top + PILLAR_GAP)) as i64,
            },
        }
    }

    /// Whether a move by `speed` takes the pillar wholly past the left edge.
    pub open spec fn leaves_screen(self, speed: i64) -> bool {
        self.top.x + speed + PILLAR_WIDTH <= 0
    }

    /// `self` is `before` moved by `speed` along x, and nothing else.
    pub open spec fn shifted_from(self, before: Pillar, speed: i64) -> bool {
        &&& self.color == before.color
        &&& self.top == (Rect { x: (before.top.x + speed) as i64, ..before.top })
        &&& self.bottom == (Rect { x: (before.bottom.x + speed) as i64, ..before.bottom })
    }

    /// `self` is `before` set to `x` with a new colour and a new gap that
    /// starts at `gap_top`. Only the columns' widths and the top edge stay.
    pub open spec fn recycled_with(
        self,
        before: Pillar,
        color: Color,
        x: i64,
        gap_top: i64,
    ) -> bool {
        &&& self.color == color
        &&& self.top == (Rect { x, h: gap_top, ..before.top })
        &&& self.bottom == (Rect {
            x,
            y: (gap_top + PILLAR_GAP) as i64,
            h: (WINDOW_HEIGHT - (gap_top + PILLAR_GAP)) as i64,
            ..before.bottom
        })
    }

    /// `self` is `before` recycled behind a pillar at `last_x`: one
    /// pillar distance to its right, in some colour of `palette`, with a gap
    /// that starts somewhere in `[0, MAX_GAP_TOP)`.
    pub open spec fn recycled_from(self, before: Pillar, palette: Seq<Color>, last_x: i64) -> bool {
        &&& palette.contains(self.color)
        &&& 0 <= self.top.h < MAX_GAP_TOP
        &&& self.recycled_with(before, self.color, (last_x + PILLAR_DISTANCE) as i64, self.top.h)
    }

    /// What one tick makes of `before`, given the palette, the place of the
    /// pillar ahead of it and the scroll speed.
    pub open spec fn updated_from(
        self,
        before: Pillar,
        palette: Seq<Color>,
        last_x: i64,
        speed: i64,
    ) -> bool {
        if before.leaves_screen(speed) {
            self.recycled_from(before, palette, last_x)
        } else {
            self.shifted_from(before, speed)
        }
    }

    /// Makes the pillar of the given colour at `x` whose gap starts at
    /// `gap_top`.
    pub fn new(color: Color, x: i64, gap_top: i64) -> (pillar: Pillar)
        requires
            0 <= gap_top <= MAX_GAP_TOP,
        ensures
            pillar == Pillar::spec_new(color, x, gap_top),
            pillar.wf(),
    {
        Pillar {
            color,
            top: Rect { x, y: 0, w: PILLAR_WIDTH, h: gap_top },
            bottom: Rect {
                x,
                y: gap_top + PILLAR_GAP,
                w: PILLAR_WIDTH,
                h: WINDOW_HEIGHT - (gap_top + PILLAR_GAP),
            },
        }
    }

    /// Moves both blocks by `speed` along x.
    pub fn shift(&mut self, speed: i64)
        requires
            fits_i64(old(self).top.x + speed),
            fits_i64(old(self).bottom.x + speed),
        ensures
            final(self).shifted_from(*old(self), speed),
            old(self).wf() ==> final(self).wf(),
    {
        self.top.x = self.top.x + speed;
        self.bottom.x = self.bottom.x + speed;
    }

    /// Sets the pillar to `x` and gives it a new colour and a new gap.
    pub fn recycle(&mut self, color: Color, x: i64, gap_top: i64)
        requires
            0 <= gap_top <= MAX_GAP_TOP,
        ensures
            final(self).recycled_with(*old(self), color, x, gap_top),
            old(self).wf() ==> final(self).wf(),
    {
        self.top.x = x;
        self.bottom.x = x;
        self.color = color;
        self.top.h = gap_top;
        self.bottom.y = gap_top + PILLAR_GAP;
        self.bottom.h = WINDOW_HEIGHT - (gap_top + PILLAR_GAP);
    }

    /// Moves the pillar by `speed`. A pillar that has then wholly passed the
    /// left edge is recycled: it goes one pillar distance to the right of
    /// `last_x`, the place of the pillar ahead of it, and draws a new colour
    /// from `colors_list` and a new gap.
    pub fn update(
        &mut self,
        colors_list: &Vec<Color>,
        last_x: i64,
        speed: i64,
        rng: &mut RandomSource,
    )
        requires
            fits_i64(old(self).top.x + speed),
            fits_i64(old(self).bottom.x + speed),
            old(self).leaves_screen(speed) ==> colors_list.len() > 0 && fits_i64(
                last_x + PILLAR_DISTANCE,
            ),
        ensures
            final(self).updated_from(*old(self), colors_list@, last_x, speed),
            old(self).gap_holds() ==> final(self).gap_holds(),
            old(self).wf() ==> final(self).wf(),
            speed <= 0 && old(self).top.w == PILLAR_WIDTH && old(self).top.right() <= 0
                ==> final(self).recycled_from(*old(self), colors_list@, last_x),
    {
        self.shift(speed);
        if self.top.x as i128 + PILLAR_WIDTH as i128 <= 0 {
            let index: usize = rng.below(colors_list.len() as u64) as usize;
            let height: i64 = rng.below(MAX_GAP_TOP as u64) as i64;
            self.recycle(colors_list[index], last_x + PILLAR_DISTANCE, height);
        }
    }

    /// Every update keeps the gap: after it the gap is still exactly
    /// `PILLAR_GAP` tall and the bottom block still ends at the bottom of the
    /// window. A recycled pillar has such a gap whatever it was before, and
    /// a well-formed pillar stays well-formed.
    pub proof fn lemma_update_keeps_gap(
        before: Pillar,
        after: Pillar,
        palette: Seq<Color>,
        last_x: i64,
        speed: i64,
    )
        requires
            after.updated_from(before, palette, last_x, speed),
        ensures
            before.gap_holds() ==> after.gap_holds(),
            before.leaves_screen(speed) ==> after.gap_holds(),
            before.wf() ==> after.wf(),
    {
    }

    /// A pillar whose right edge is at or left of zero before an update to
    /// the left is recycled by it: it stands one pillar distance to the
    /// right of `last_x`, wears a colour of the palette, and its gap starts
    /// in `[0, MAX_GAP_TOP)`.
    pub proof fn lemma_offscreen_pillar_is_recycled(
        before: Pillar,
        after: Pillar,
        palette: Seq<Color>,
        last_x: i64,
        speed: i64,
    )
        requires
            before.top.w == PILLAR_WIDTH,
            before.top.right() <= 0,
            speed <= 0,
            fits_i64(last_x + PILLAR_DISTANCE),
            after.updated_from(before, palette, last_x, speed),
        ensures
            after.top.x == last_x + PILLAR_DISTANCE,
            after.bottom.x == last_x + PILLAR_DISTANCE,
            palette.contains(after.color),
            0 <= after.top.h < MAX_GAP_TOP,
            after.gap_holds(),
    {
    }

    /// The drawing commands of the pillar: its top block, then its bottom
    /// block, both filled with its colour.
    pub open spec fn spec_draw(self) -> Seq<DrawCommand> {
        seq![
            DrawCommand::Rectangle { rect: self.top, color: self.color },
            DrawCommand::Rectangle { rect: self.bottom, color: self.color },
        ]
    }

    /// Appends the pillar's drawing commands to `frame`.
    pub fn draw(&self, frame: &mut Vec<DrawCommand>)
        ensures
            final(frame)@ == old(frame)@ + self.spec_draw(),
    {
        frame.push(DrawCommand::Rectangle { rect: self.top, color: self.color });
        frame.push(DrawCommand::Rectangle { rect: self.bottom, color: self.color });
        assert(frame@ =~= old(frame)@ + self.spec_draw());
    }
}

} // verus!
