//! One session of the game: its state and the rules that move it.

use vstd::prelude::*;
use crate::color::{black, palette, spec_black, spec_palette, spec_white, white, Color};
use crate::geometry::{Point2, Rect};
use crate::pillar::Pillar;
use crate::player::{Cue, Player};
use crate::random::RandomSource;
use crate::render::{Caption, DrawCommand};
use crate::text::{decimal, spec_decimal};
use crate::units::{
    CAPTION_X, CAPTION_Y, GRAVITY, INITIAL_SPEED, JUMP_AMOUNT, MAX_GAP_TOP, MIN_SPEED, NUM_PILLARS,
    PILLAR_ACCELERATION, PILLAR_DISTANCE, PILLAR_WIDTH, PLAYER_SIZE, PLAYER_START_Y, PLAYER_X,
    SCORE_POS, UNIT, WINDOW_HEIGHT, WINDOW_WIDTH,
};

verus! {

/// The keys that the game tells apart.
#[derive(Clone, Copy, PartialEq, Eq, Structural, Debug)]
pub enum KeyCode {
    /// Jump.
    Space,
    /// Change colour.
    LControl,
    /// Change colour.
    RControl,
    /// Start again, once the game is over.
    Return,
    /// Any other key.
    Other,
}

/// What the session keeps of its captions.
pub struct Texts {
    /// Top-left corner of the intro caption.
    pub intro_pos: Point2,
    /// Whether the intro caption has scrolled away for good.
    pub intro_offscreen: bool,
    /// The score in decimal digits.
    pub score: String,
}

/// The state of one session.
pub struct MainState {
    colors: Vec<Color>,
    player: Player,
    pillars: Vec<Pillar>,
    pillar_speed: i64,
    game_over: bool,
    score: u32,
    texts: Texts,
}

/// The state of a session as a mathematical value.
pub struct MainStateView {
    pub colors: Seq<Color>,
    pub player: Player,
    pub pillars: Seq<Pillar>,
    pub pillar_speed: i64,
    pub game_over: bool,
    pub score: u32,
    pub intro_pos: Point2,
    pub intro_offscreen: bool,
    pub score_text: Seq<char>,
}

/// The index of the pillar ahead of pillar `i` among `count` pillars: the
/// one before it, and the last one for the first.
pub open spec fn ahead_of(i: int, count: int) -> int {
    if i == 0 {
        count - 1
    } else {
        i - 1
    }
}

/// The drawing commands of the pillars, in the pillars' order.
pub open spec fn spec_draw_pillars(pillars: Seq<Pillar>) -> Seq<DrawCommand>
    decreases pillars.len(),
{
    if pillars.len() == 0 {
        Seq::<DrawCommand>::empty()
    } else {
        spec_draw_pillars(pillars.drop_last()) + pillars.last().spec_draw()
    }
}

impl MainStateView {
    /// The ticks that the session has run, read off the scroll speed, which
    /// every tick changes by the acceleration: four sub-units.
    pub open spec fn ticks(self) -> int {
        (INITIAL_SPEED - self.pillar_speed) / 4
    }

    /// Pillar `i` is a well-formed pillar in a colour of the palette that
    /// has not wholly left the screen, and no further to the right than the
    /// ticks so far can have carried it.
    pub open spec fn pillar_in_play(self, i: int) -> bool {
        let pillar = self.pillars[i];
        &&& pillar.wf()
        &&& self.colors.contains(pillar.color)
        &&& pillar.top.x + PILLAR_WIDTH > 0
        &&& pillar.top.x <= WINDOW_WIDTH + (NUM_PILLARS - 1 + self.ticks()) * PILLAR_DISTANCE
    }

    /// The player wears a colour of the palette, keeps its column and size,
    /// and is within what the ticks so far allow. A player on the floor does
    /// not move down.
    pub open spec fn player_in_play(self) -> bool {
        let player = self.player;
        let n = self.ticks();
        &&& player.wears(self.colors)
        &&& player.body.x == PLAYER_X
        &&& player.body.w == PLAYER_SIZE
        &&& player.body.h == PLAYER_SIZE
        &&& player.velocity.x == 0
        &&& JUMP_AMOUNT <= player.velocity.y <= n * GRAVITY
        &&& PLAYER_START_Y - 9 * GRAVITY * n <= player.body.y <= WINDOW_HEIGHT + n * GRAVITY
        &&& player.body.bottom() >= WINDOW_HEIGHT ==> player.velocity.y <= -GRAVITY
    }

    /// The invariant of a session: the palette is the game's, the speed is
    /// one that whole ticks lead to, the player and all five pillars are in
    /// play, no pillar can have scored more than once a tick, the score
    /// caption shows the score, and the intro caption has only moved left,
    /// at no more than the speed of the last tick.
    pub open spec fn wf(self) -> bool {
        &&& self.colors == spec_palette()
        &&& MIN_SPEED <= self.pillar_speed <= INITIAL_SPEED
        &&& (INITIAL_SPEED - self.pillar_speed) % 4 == 0
        &&& self.player_in_play()
        &&& self.pillars.len() == NUM_PILLARS
        &&& forall|i: int| 0 <= i < self.pillars.len() ==> self.pillar_in_play(i)
        &&& self.score <= 5 * self.ticks()
        &&& self.score_text == spec_decimal(self.score as nat)
        &&& self.intro_pos.y == CAPTION_Y
        &&& CAPTION_X + self.ticks() * MIN_SPEED <= self.intro_pos.x <= CAPTION_X
    }

    /// Whether the session can take a tick: it is over, so that a tick
    /// changes nothing, or it has ticks left.
    pub open spec fn can_update(self) -> bool {
        self.game_over || self.pillar_speed > MIN_SPEED
    }

    /// The key makes the player jump: the jump key while the game runs.
    pub open spec fn jumps_on(self, keycode: KeyCode) -> bool {
        !self.game_over && keycode == KeyCode::Space
    }

    /// The key changes the player's colour: a colour key while the game runs.
    pub open spec fn switches_on(self, keycode: KeyCode) -> bool {
        !self.game_over && (keycode == KeyCode::LControl || keycode == KeyCode::RControl)
    }

    /// The key begins the session anew: the restart key once the game is over.
    pub open spec fn restarts_on(self, keycode: KeyCode) -> bool {
        self.game_over && keycode == KeyCode::Return
    }

    /// The key does nothing.
    pub open spec fn ignores(self, keycode: KeyCode) -> bool {
        !self.jumps_on(keycode) && !self.switches_on(keycode) && !self.restarts_on(keycode)
    }

    /// Pillar `i` stands where a new session puts it: one pillar distance
    /// after the pillar before it, the first at the right edge of the window.
    pub open spec fn pillar_placed(self, i: int) -> bool {
        let pillar = self.pillars[i];
        &&& pillar.wf()
        &&& self.colors.contains(pillar.color)
        &&& pillar.top.x == WINDOW_WIDTH + PILLAR_DISTANCE * i
        &&& pillar.top.h < MAX_GAP_TOP
    }

    /// The state of a session that has just begun. The pillars' colours and
    /// gaps and the player's colour are not fixed; all else is.
    pub open spec fn fresh(self) -> bool {
        &&& self.colors == spec_palette()
        &&& self.player.wears(self.colors)
        &&& self.player.body == (Rect {
            x: PLAYER_X,
            y: PLAYER_START_Y,
            w: PLAYER_SIZE,
            h: PLAYER_SIZE,
        })
        &&& self.player.velocity == (Point2 { x: 0, y: 0 })
        &&& self.pillars.len() == NUM_PILLARS
        &&& forall|i: int| 0 <= i < self.pillars.len() ==> self.pillar_placed(i)
        &&& self.pillar_speed == INITIAL_SPEED
        &&& !self.game_over
        &&& self.score == 0
        &&& self.score_text == spec_decimal(0)
        &&& self.intro_pos == (Point2 { x: CAPTION_X, y: CAPTION_Y })
        &&& !self.intro_offscreen
    }

    /// `self` is what one tick makes of `before`, a session that is not
    /// over, when the intro caption is `intro_width` logical units wide and
    /// `sounds` are the cues of the tick.
    ///
    /// The scroll speed grows by the acceleration. Every pillar is updated
    /// at the new speed, behind the place that the pillar ahead of it had
    /// before the tick. The player is checked against the updated pillars:
    /// that decides whether the game is over, the score and the cues. Then
    /// the player falls. A visible intro caption scrolls at the new speed
    /// and is hidden for good once its right edge has reached the left edge
    /// of the window.
    pub open spec fn updated_from(
        self,
        before: MainStateView,
        intro_width: u32,
        sounds: Seq<Cue>,
    ) -> bool {
        &&& self.colors == before.colors
        &&& self.pillar_speed == before.pillar_speed + PILLAR_ACCELERATION
        &&& self.pillars.len() == before.pillars.len()
        &&& forall|i: int|
            0 <= i < self.pillars.len() ==> (#[trigger] self.pillars[i]).updated_from(
                before.pillars[i],
                before.colors,
                before.pillars[ahead_of(i, before.pillars.len() as int)].top.x,
                self.pillar_speed,
            )
        &&& self.game_over == before.player.crashes(self.pillars)
        &&& self.score == before.score + before.player.passes_count(self.pillars)
        &&& sounds == before.player.cues(self.pillars)
        &&& self.player == before.player.fallen()
        &&& self.score_text == spec_decimal(self.score as nat)
        &&& self.intro_pos.y == before.intro_pos.y
        &&& if before.intro_offscreen {
            self.intro_offscreen && self.intro_pos.x == before.intro_pos.x
        } else {
            &&& self.intro_pos.x == before.intro_pos.x + self.pillar_speed
            &&& self.intro_offscreen == (self.intro_pos.x + intro_width * UNIT <= 0)
        }
    }

    /// The drawing commands of a frame, in order: clear to white, the intro
    /// caption unless it is hidden, the pillars, the player, the score
    /// caption, the restart prompt if the game is over, and the
    /// presentation of the frame.
    pub open spec fn spec_draw(self) -> Seq<DrawCommand> {
        seq![DrawCommand::Clear { color: spec_white() }] + (if self.intro_offscreen {
            Seq::<DrawCommand>::empty()
        } else {
            seq![
                DrawCommand::Text {
                    caption: Caption::Intro,
                    x: self.intro_pos.x,
                    y: self.intro_pos.y,
                    color: spec_black(),
                },
            ]
        }) + spec_draw_pillars(self.pillars) + self.player.spec_draw() + seq![
            DrawCommand::Text {
                caption: Caption::Score,
                x: SCORE_POS,
                y: SCORE_POS,
                color: spec_black(),
            },
        ] + (if self.game_over {
            seq![
                DrawCommand::Text {
                    caption: Caption::Restart,
                    x: CAPTION_X,
                    y: CAPTION_Y,
                    color: spec_black(),
                },
            ]
        } else {
            Seq::<DrawCommand>::empty()
        }) + seq![DrawCommand::Present]
    }
}

impl View for MainState {
    type V = MainStateView;

    closed spec fn view(&self) -> MainStateView {
        MainStateView {
            colors: self.colors@,
            player: self.player,
            pillars: self.pillars@,
            pillar_speed: self.pillar_speed,
            game_over: self.game_over,
            score: self.score,
            intro_pos: self.texts.intro_pos,
            intro_offscreen: self.texts.intro_offscreen,
            score_text: self.texts.score@,
        }
    }
}

impl MainState {
    /// Begins a session: the palette, five pillars one pillar distance
    /// apart from the right edge of the window on, each with a drawn gap
    /// and a drawn colour, and the player at rest in the middle of the
    /// window in a drawn colour.
    pub fn new(rng: &mut RandomSource) -> (state: MainState)
        ensures
            state@.fresh(),
            state@.wf(),
    {
        let colors_list = palette();
        let mut pv: Vec<Pillar> = Vec::new();
        let mut i: usize = 0;
        while i < NUM_PILLARS
            invariant
                i <= NUM_PILLARS,
                pv.len() == i,
                colors_list@ == spec_palette(),
                forall|k: int|
                    0 <= k < i ==> {
                        &&& (#[trigger] pv[k]).wf()
                        &&& colors_list@.contains(pv[k].color)
                        &&& pv[k].top.x == WINDOW_WIDTH + PILLAR_DISTANCE * k
                        &&& pv[k].top.h < MAX_GAP_TOP
                    },
            decreases NUM_PILLARS - i,
        {
            let height: i64 = rng.below(MAX_GAP_TOP as u64) as i64;
            let color = colors_list[rng.below(colors_list.len() as u64) as usize];
            pv.push(Pillar::new(color, WINDOW_WIDTH + PILLAR_DISTANCE * (i as i64), height));
            i = i + 1;
        }
        let color_index: usize = rng.below(colors_list.len() as u64) as usize;
        let player = Player {
            color_index,
            color: colors_list[color_index],
            body: Rect { x: PLAYER_X, y: PLAYER_START_Y, w: PLAYER_SIZE, h: PLAYER_SIZE },
            velocity: Point2 { x: 0, y: 0 },
        };
        let state = MainState {
            colors: colors_list,
            player,
            pillars: pv,
            pillar_speed: INITIAL_SPEED,
            game_over: false,
            score: 0,
            texts: Texts {
                intro_pos: Point2 { x: CAPTION_X, y: CAPTION_Y },
                intro_offscreen: false,
                score: decimal(0),
            },
        };
        proof {
            assert forall|i: int| 0 <= i < state@.pillars.len() implies state@.pillar_placed(i) by {
                assert(state@.pillars[i] == pv[i]);
            }
            MainStateView::lemma_fresh_is_wf(state@);
        }
        state
    }

    /// Begins the session anew.
    pub fn reset(&mut self, rng: &mut RandomSource)
        ensures
            final(self)@.fresh(),
            final(self)@.wf(),
    {
        *self = MainState::new(rng);
    }

    /// The palette.
    pub fn colors(&self) -> (colors: &Vec<Color>)
        ensures
            colors@ == self@.colors,
    {
        &self.colors
    }

    /// The player.
    pub fn player(&self) -> (player: Player)
        ensures
            player == self@.player,
    {
        self.player
    }

    /// The pillars, in their cyclic order.
    pub fn pillars(&self) -> (pillars: &Vec<Pillar>)
        ensures
            pillars@ == self@.pillars,
    {
        &self.pillars
    }

    /// The scroll speed, per tick.
    pub fn pillar_speed(&self) -> (speed: i64)
        ensures
            speed == self@.pillar_speed,
    {
        self.pillar_speed
    }

    /// Whether the game is over.
    pub fn game_over(&self) -> (over: bool)
        ensures
            over == self@.game_over,
    {
        self.game_over
    }

    /// The score.
    pub fn score(&self) -> (score: u32)
        ensures
            score == self@.score,
    {
        self.score
    }

    /// The place of the intro caption, whether it is hidden, and the text of
    /// the score caption.
    pub fn texts(&self) -> (texts: &Texts)
        ensures
            texts.intro_pos == self@.intro_pos,
            texts.intro_offscreen == self@.intro_offscreen,
            texts.score@ == self@.score_text,
    {
        &self.texts
    }

    /// Whether the session can take a tick.
    pub fn can_update(&self) -> (can: bool)
        ensures
            can == self@.can_update(),
    {
        self.game_over || self.pillar_speed > MIN_SPEED
    }

    /// Runs one tick and returns its cues. A session that is over stays as
    /// it is.
    pub fn update(&mut self, rng: &mut RandomSource, intro_width: u32) -> (sounds: Vec<Cue>)
        requires
            old(self)@.wf(),
            old(self)@.can_update(),
        ensures
            final(self)@.wf(),
            old(self)@.game_over ==> final(self)@ == old(self)@ && sounds@.len() == 0,
            !old(self)@.game_over ==> final(self)@.updated_from(old(self)@, intro_width, sounds@),
    {
        let mut sounds: Vec<Cue> = Vec::new();
        if !self.game_over {
            let ghost before = self@;
            self.pillar_speed = self.pillar_speed + PILLAR_ACCELERATION;
            let ghost moving = self@;
            proof {
                lemma_bounds_linear(before.ticks());
            }
            let count = self.pillars.len();
            let mut last_x: i64 = self.pillars[count - 1].top.x;
            let mut i: usize = 0;
            while i < count
                invariant
                    count == NUM_PILLARS,
                    i <= count,
                    before.wf(),
                    before.pillar_speed > MIN_SPEED,
                    moving == (MainStateView {
                        pillar_speed: (before.pillar_speed + PILLAR_ACCELERATION) as i64,
                        ..before
                    }),
                    self@ == (MainStateView { pillars: self.pillars@, ..moving }),
                    self.pillars.len() == count,
                    last_x == before.pillars[ahead_of(i as int, count as int)].top.x,
                    forall|k: int|
                        0 <= k < i ==> (#[trigger] self.pillars[k]).updated_from(
                            before.pillars[k],
                            before.colors,
                            before.pillars[ahead_of(k, count as int)].top.x,
                            moving.pillar_speed,
                        ),
                    forall|k: int| i <= k < count ==> self.pillars[k] == before.pillars[k],
                decreases count - i,
            {
                assert(before.pillar_in_play(i as int));
                assert(before.pillar_in_play(ahead_of(i as int, count as int)));
                let own_x: i64 = self.pillars[i].top.x;
                self.pillars[i].update(&self.colors, last_x, self.pillar_speed, rng);
                last_x = own_x;
                i = i + 1;
            }
            proof {
                Player::lemma_passes_count_bounded(self.player, self.pillars@);
            }
            self.game_over = self.player.update(&self.pillars, &mut sounds, &mut self.score);
            self.texts.score = decimal(self.score);
            if !self.texts.intro_offscreen {
                self.texts.intro_pos.x = self.texts.intro_pos.x + self.pillar_speed;
                if self.texts.intro_pos.x + (intro_width as i64) * UNIT <= 0 {
                    self.texts.intro_offscreen = true;
                }
            }
            proof {
                MainStateView::lemma_update_keeps_wf(before, self@, intro_width, sounds@);
            }
        }
        sounds
    }

    /// Handles a key that went down and returns its cue, if it has one.
    ///
    /// While the game runs, the jump key makes the player jump and a colour
    /// key gives it the next colour. Once the game is over, the restart key
    /// begins the session anew. Any other key changes nothing.
    pub fn key_down_event(
        &mut self,
        keycode: KeyCode,
        rng: &mut RandomSource,
    ) -> (sound: Option<Cue>)
        requires
            old(self)@.wf(),
        ensures
            final(self)@.wf(),
            old(self)@.jumps_on(keycode) ==> {
                &&& final(self)@ == (MainStateView {
                    player: old(self)@.player.jumped(),
                    ..old(self)@
                })
                &&& sound == Some(Cue::Jump)
            },
            old(self)@.switches_on(keycode) ==> {
                &&& final(self)@ == (MainStateView {
                    player: old(self)@.player.switched(old(self)@.colors),
                    ..old(self)@
                })
                &&& sound == Some(Cue::Switch)
            },
            old(self)@.restarts_on(keycode) ==> final(self)@.fresh() && sound.is_none(),
            old(self)@.ignores(keycode) ==> final(self)@ == old(self)@ && sound.is_none(),
    {
        let ghost before = self@;
        if !self.game_over {
            let sound = match keycode {
                KeyCode::Space => {
                    self.player.jump();
                    Some(Cue::Jump)
                },
                KeyCode::LControl | KeyCode::RControl => {
                    self.player.switch_color(&self.colors);
                    Some(Cue::Switch)
                },
                _ => None,
            };
            proof {
                MainStateView::lemma_key_keeps_wf(before);
            }
            sound
        } else {
            match keycode {
                KeyCode::Return => {
                    self.reset(rng);
                    None
                },
                _ => None,
            }
        }
    }

    /// The drawing commands of a frame, in order.
    pub fn draw(&self) -> (frame: Vec<DrawCommand>)
        ensures
            frame@ == self@.spec_draw(),
    {
        let mut frame: Vec<DrawCommand> = Vec::new();
        frame.push(DrawCommand::Clear { color: white() });
        if !self.texts.intro_offscreen {
            frame.push(
                DrawCommand::Text {
                    caption: Caption::Intro,
                    x: self.texts.intro_pos.x,
                    y: self.texts.intro_pos.y,
                    color: black(),
                },
            );
        }
        let ghost head = frame@;
        let mut i: usize = 0;
        while i < self.pillars.len()
            invariant
                i <= self.pillars.len(),
                frame@ == head + spec_draw_pillars(self.pillars@.take(i as int)),
            decreases self.pillars.len() - i,
        {
            assert(self.pillars@.take(i + 1).drop_last() =~= self.pillars@.take(i as int));
            self.pillars[i].draw(&mut frame);
            i = i + 1;
            assert(frame@ =~= head + spec_draw_pillars(self.pillars@.take(i as int)));
        }
        assert(self.pillars@.take(i as int) =~= self.pillars@);
        self.player.draw(&mut frame);
        frame.push(
            DrawCommand::Text {
                caption: Caption::Score,
                x: SCORE_POS,
                y: SCORE_POS,
                color: black(),
            },
        );
        if self.game_over {
            frame.push(
                DrawCommand::Text {
                    caption: Caption::Restart,
                    x: CAPTION_X,
                    y: CAPTION_Y,
                    color: black(),
                },
            );
        }
        frame.push(DrawCommand::Present);
        assert(frame@ =~= self@.spec_draw());
        frame
    }
}

/// The bounds of the invariant after `n` ticks, with their constants
/// multiplied out.
proof fn lemma_bounds_linear(n: int)
    ensures
        n * GRAVITY == 10_000 * n,
        9 * GRAVITY * n == 90_000 * n,
        (NUM_PILLARS - 1 + n) * PILLAR_DISTANCE == 12_000_000 + 3_000_000 * n,
        n * MIN_SPEED == -3_200_010_000 * n,
{
    assert(n * GRAVITY == 10_000 * n) by (nonlinear_arith)
        requires
            GRAVITY == 10_000,
    ;
    assert(9 * GRAVITY * n == 90_000 * n) by (nonlinear_arith)
        requires
            GRAVITY == 10_000,
    ;
    assert((NUM_PILLARS - 1 + n) * PILLAR_DISTANCE == 12_000_000 + 3_000_000 * n)
        by (nonlinear_arith)
        requires
            NUM_PILLARS == 5,
            PILLAR_DISTANCE == 3_000_000,
    ;
    assert(n * MIN_SPEED == -3_200_010_000 * n) by (nonlinear_arith)
        requires
            MIN_SPEED == -3_200_010_000,
    ;
}

impl MainStateView {
    /// A session that has just begun meets the invariant of a session.
    pub proof fn lemma_fresh_is_wf(state: MainStateView)
        requires
            state.fresh(),
        ensures
            state.wf(),
            state.can_update(),
    {
        assert(state.ticks() == 0);
        lemma_bounds_linear(0);
        assert forall|i: int| 0 <= i < state.pillars.len() implies state.pillar_in_play(i) by {
            assert(state.pillar_placed(i));
        }
        assert(state.player_in_play());
    }

    /// A key keeps the invariant of a session: a jump and a change of
    /// colour leave the player in play, in a colour of the palette.
    pub proof fn lemma_key_keeps_wf(before: MainStateView)
        requires
            before.wf(),
        ensures
            (MainStateView { player: before.player.jumped(), ..before }).wf(),
            (MainStateView { player: before.player.switched(before.colors), ..before }).wf(),
    {
        let jumped = MainStateView { player: before.player.jumped(), ..before };
        let switched = MainStateView { player: before.player.switched(before.colors), ..before };
        lemma_bounds_linear(before.ticks());
        assert forall|i: int| 0 <= i < before.pillars.len() implies jumped.pillar_in_play(i)
            && switched.pillar_in_play(i) by {
            assert(before.pillar_in_play(i));
        }
    }

    /// A tick keeps the invariant of a session: whatever it draws, the
    /// pillars keep their gaps and stay in play, the player keeps a colour
    /// of the palette, and the score and its text agree.
    pub proof fn lemma_update_keeps_wf(
        before: MainStateView,
        after: MainStateView,
        intro_width: u32,
        sounds: Seq<Cue>,
    )
        requires
            before.wf(),
            before.can_update(),
            !before.game_over,
            after.updated_from(before, intro_width, sounds),
        ensures
            after.wf(),
    {
        let n = before.ticks();
        assert(after.ticks() == n + 1);
        lemma_bounds_linear(n);
        lemma_bounds_linear(n + 1);
        assert forall|i: int| 0 <= i < after.pillars.len() implies after.pillar_in_play(i) by {
            let ahead = ahead_of(i, before.pillars.len() as int);
            assert(before.pillar_in_play(i));
            assert(before.pillar_in_play(ahead));
            assert(after.pillars[i].updated_from(
                before.pillars[i],
                before.colors,
                before.pillars[ahead].top.x,
                after.pillar_speed,
            ));
        }
        Player::lemma_passes_count_bounded(before.player, after.pillars);
        assert(after.player_in_play());
    }
}

} // verus!
