//! The player: a coloured square that falls, jumps and changes colour.

use vstd::prelude::*;
use crate::color::Color;
use crate::geometry::{
    center_column, collide_rect, spec_center_column, spec_collide_rect, Point2, Rect,
};
use crate::pillar::Pillar;
use crate::render::DrawCommand;
use crate::units::{fits_i64, GRAVITY, JUMP_AMOUNT, WINDOW_HEIGHT};

verus! {

/// A sound that the game asks for. Playing it is left to the caller, who
/// may ignore a cue that cannot be played.
#[derive(Clone, Copy, PartialEq, Eq, Structural, Debug)]
pub enum Cue {
    /// The player jumped.
    Jump,
    /// The player changed colour.
    Switch,
    /// The player passed the middle of a pillar.
    Clink,
    /// The player hit a pillar.
    Crash,
}

/// The player's square, its colour and its velocity.
#[derive(Clone, Copy, PartialEq, Eq, Structural, Debug)]
pub struct Player {
    pub color_index: usize,
    pub color: Color,
    pub body: Rect,
    pub velocity: Point2,
}

impl Player {
    /// The player's colour is the one that its index names in `palette`.
    pub open spec fn wears(self, palette: Seq<Color>) -> bool {
        &&& self.color_index < palette.len()
        &&& self.color == palette[self.color_index as int]
    }

    /// The player's horizontal extent overlaps the pillar's.
    pub open spec fn in_column(self, pillar: Pillar) -> bool {
        self.body.x < pillar.top.right() && self.body.right() > pillar.top.x
    }

    /// The pillar ends the game: the player is in its column and either
    /// wears another colour, wherever it flies, or touches one of the blocks.
    pub open spec fn crashes_into(self, pillar: Pillar) -> bool {
        self.in_column(pillar) && (pillar.color != self.color || spec_collide_rect(
            self.body,
            pillar.top,
        ) || spec_collide_rect(self.body, pillar.bottom))
    }

    /// The pillar scores: the player is in its column and their centre
    /// columns coincide.
    pub open spec fn passes(self, pillar: Pillar) -> bool {
        self.in_column(pillar) && spec_center_column(self.body) == spec_center_column(pillar.top)
    }

    /// Some pillar ends the game.
    pub open spec fn crashes(self, pillars: Seq<Pillar>) -> bool {
        exists|i: int| 0 <= i < pillars.len() && self.crashes_into(#[trigger] pillars[i])
    }

    /// The number of pillars that score.
    pub open spec fn passes_count(self, pillars: Seq<Pillar>) -> nat
        decreases pillars.len(),
    {
        if pillars.len() == 0 {
            0
        } else {
            self.passes_count(pillars.drop_last()) + if self.passes(pillars.last()) {
                1nat
            } else {
                0nat
            }
        }
    }

    /// The cues that one pillar gives rise to: the crash before the clink.
    pub open spec fn cues_for(self, pillar: Pillar) -> Seq<Cue> {
        (if self.crashes_into(pillar) {
            seq![Cue::Crash]
        } else {
            Seq::<Cue>::empty()
        }) + (if self.passes(pillar) {
            seq![Cue::Clink]
        } else {
            Seq::<Cue>::empty()
        })
    }

    /// The cues that the pillars give rise to, in the pillars' order.
    pub open spec fn cues(self, pillars: Seq<Pillar>) -> Seq<Cue>
        decreases pillars.len(),
    {
        if pillars.len() == 0 {
            Seq::<Cue>::empty()
        } else {
            self.cues(pillars.drop_last()) + self.cues_for(pillars.last())
        }
    }

    /// Gravity can be applied without leaving the range of the coordinates.
    pub open spec fn can_fall(self) -> bool {
        &&& fits_i64(self.velocity.y + GRAVITY)
        &&& fits_i64(self.body.y + self.velocity.y + GRAVITY)
    }

    /// The player one tick of free fall later. Gravity is added to the
    /// velocity and the velocity to the position. A body whose bottom edge
    /// has then reached the bottom of the window gets the velocity
    /// `-GRAVITY`, which the next tick's gravity cancels.
    pub open spec fn fallen(self) -> Player {
        let vy = self.velocity.y + GRAVITY;
        let y = self.body.y + vy;
        Player {
            body: Rect { y: y as i64, ..self.body },
            velocity: Point2 {
                y: if y + self.body.h >= WINDOW_HEIGHT {
                    (-GRAVITY) as i64
                } else {
                    vy as i64
                },
                ..self.velocity
            },
            ..self
        }
    }

    /// The player after a jump: the vertical velocity is the jump amount,
    /// whatever it was.
    pub open spec fn jumped(self) -> Player {
        Player { velocity: Point2 { y: JUMP_AMOUNT, ..self.velocity }, ..self }
    }

    /// The player after a change of colour: the next colour of `palette`,
    /// the first one after the last.
    pub open spec fn switched(self, palette: Seq<Color>) -> Player {
        let index = (self.color_index + 1) % (palette.len() as int);
        Player { color_index: index as usize, color: palette[index], ..self }
    }

    /// Checks the player against every pillar, then lets it fall for one tick.
    ///
    /// A pillar whose column the player is in ends the game when the colours
    /// differ or when the player touches one of its blocks, and it scores
    /// when the two centre columns coincide. Each crash queues a crash cue
    /// and each score a clink cue, pillar by pillar. The result tells
    /// whether the game is over.
    pub fn update(
        &mut self,
        pillars: &Vec<Pillar>,
        sounds: &mut Vec<Cue>,
        score: &mut u32,
    ) -> (game_over: bool)
        requires
            old(self).can_fall(),
            *old(score) + old(self).passes_count(pillars@) <= u32::MAX,
        ensures
            game_over == old(self).crashes(pillars@),
            *final(score) == *old(score) + old(self).passes_count(pillars@),
            *final(score) - *old(score) <= pillars.len(),
            final(sounds)@ == old(sounds)@ + old(self).cues(pillars@),
            *final(self) == old(self).fallen(),
    {
        let mut game_over = false;
        let mut i: usize = 0;
        while i < pillars.len()
            invariant
                i <= pillars.len(),
                *self == *old(self),
                game_over == self.crashes(pillars@.take(i as int)),
                *score == *old(score) + self.passes_count(pillars@.take(i as int)),
                *old(score) + self.passes_count(pillars@) <= u32::MAX,
                sounds@ == old(sounds)@ + self.cues(pillars@.take(i as int)),
            decreases pillars.len() - i,
        {
            let pillar = &pillars[i];
            proof {
                let next = pillars@.take(i + 1);
                assert(next.drop_last() =~= pillars@.take(i as int));
                assert(next.last() == pillars@[i as int]);
                Self::lemma_passes_count_grows(*self, pillars@, i + 1);
                Self::lemma_crashes_push(*self, pillars@.take(i as int), *pillar);
            }
            if (self.body.x as i128) < pillar.top.x as i128 + pillar.top.w as i128
                && self.body.x as i128 + self.body.w as i128 > pillar.top.x as i128 {
                if pillar.color != self.color {
                    sounds.push(Cue::Crash);
                    game_over = true;
                } else if collide_rect(&self.body, &pillar.top) || collide_rect(
                    &self.body,
                    &pillar.bottom,
                ) {
                    sounds.push(Cue::Crash);
                    game_over = true;
                }
                if center_column(&self.body) == center_column(&pillar.top) {
                    *score = *score + 1;
                    sounds.push(Cue::Clink);
                }
            }
            i = i + 1;
            assert(sounds@ =~= old(sounds)@ + self.cues(pillars@.take(i as int)));
        }
        assert(pillars@.take(i as int) =~= pillars@);
        proof {
            Self::lemma_passes_count_bounded(*self, pillars@);
        }
        self.velocity.y = self.velocity.y + GRAVITY;
        self.body.y = self.body.y + self.velocity.y;
        if self.body.y as i128 + self.body.h as i128 >= WINDOW_HEIGHT as i128 {
            self.velocity.y = -GRAVITY;
        }
        game_over
    }

    /// Sets the vertical velocity to the jump amount.
    pub fn jump(&mut self)
        ensures
            *final(self) == old(self).jumped(),
            final(self).velocity.y == JUMP_AMOUNT,
    {
        self.velocity.y = JUMP_AMOUNT;
    }

    /// Takes the next colour of `palette`, the first one after the last.
    pub fn switch_color(&mut self, palette: &Vec<Color>)
        requires
            palette.len() > 0,
            old(self).color_index < usize::MAX,
        ensures
            *final(self) == old(self).switched(palette@),
            final(self).wears(palette@),
    {
        self.color_index = (self.color_index + 1) % palette.len();
        self.color = palette[self.color_index];
    }

    /// The drawing command of the player: its body, filled with its colour.
    pub open spec fn spec_draw(self) -> Seq<DrawCommand> {
        seq![DrawCommand::Rectangle { rect: self.body, color: self.color }]
    }

    /// Appends the player's drawing command to `frame`.
    pub fn draw(&self, frame: &mut Vec<DrawCommand>)
        ensures
            final(frame)@ == old(frame)@ + self.spec_draw(),
    {
        frame.push(DrawCommand::Rectangle { rect: self.body, color: self.color });
        assert(frame@ =~= old(frame)@ + self.spec_draw());
    }

    /// A game that is over after `pillars` and one more pillar is over
    /// after `pillars` or because of that pillar.
    proof fn lemma_crashes_push(player: Player, pillars: Seq<Pillar>, pillar: Pillar)
        ensures
            player.crashes(pillars.push(pillar)) == (player.crashes(pillars)
                || player.crashes_into(pillar)),
    {
        let longer = pillars.push(pillar);
        if player.crashes(pillars) {
            let i = choose|i: int|
                0 <= i < pillars.len() && player.crashes_into(#[trigger] pillars[i]);
            assert(longer[i] == pillars[i]);
        }
        if player.crashes_into(pillar) {
            assert(longer[pillars.len() as int] == pillar);
        }
        if player.crashes(longer) {
            let i = choose|i: int|
                0 <= i < longer.len() && player.crashes_into(#[trigger] longer[i]);
            if i < pillars.len() {
                assert(pillars[i] == longer[i]);
            }
        }
    }

    /// The first `n` pillars score no more often than all of them.
    proof fn lemma_passes_count_grows(player: Player, pillars: Seq<Pillar>, n: int)
        requires
            0 <= n <= pillars.len(),
        ensures
            player.passes_count(pillars.take(n)) <= player.passes_count(pillars),
        decreases pillars.len() - n,
    {
        if n == pillars.len() {
            assert(pillars.take(n) =~= pillars);
        } else {
            Self::lemma_passes_count_grows(player, pillars, n + 1);
            assert(pillars.take(n + 1).drop_last() =~= pillars.take(n));
        }
    }

    /// The player's colour stays the one that its index names in the
    /// palette, whatever the player does: fall, jump or change colour. The
    /// palette is one that a vector can hold.
    pub proof fn lemma_moves_keep_colour(player: Player, palette: Seq<Color>)
        requires
            player.wears(palette),
            palette.len() <= usize::MAX,
        ensures
            player.fallen().wears(palette),
            player.jumped().wears(palette),
            player.switched(palette).wears(palette),
    {
    }

    /// Each pillar scores at most once in a tick.
    pub proof fn lemma_passes_count_bounded(player: Player, pillars: Seq<Pillar>)
        ensures
            player.passes_count(pillars) <= pillars.len(),
        decreases pillars.len(),
    {
        if pillars.len() > 0 {
            Self::lemma_passes_count_bounded(player, pillars.drop_last());
        }
    }

    /// A jump overrides the vertical velocity and does not add to it: the
    /// velocity after a jump is the jump amount whatever the velocity before
    /// it was, and a second jump changes nothing.
    pub proof fn lemma_jump_overrides(player: Player, prior: i64)
        ensures
            player.jumped().velocity.y == JUMP_AMOUNT,
            (Player { velocity: Point2 { y: prior, ..player.velocity }, ..player }).jumped()
                == player.jumped(),
            player.jumped().jumped() == player.jumped(),
    {
    }

    /// The soft floor: a player that moves up no faster than `GRAVITY`
    /// before a tick of free fall does so after it.
    pub proof fn lemma_soft_floor(player: Player)
        requires
            player.can_fall(),
            player.velocity.y >= -GRAVITY,
        ensures
            player.fallen().velocity.y >= -GRAVITY,
    {
    }
}

} // verus!
