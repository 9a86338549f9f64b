use flappy_cube::color::{palette, Color};
use flappy_cube::geometry::{Point2, Rect};
use flappy_cube::pillar::Pillar;
use flappy_cube::player::{Cue, Player};
use flappy_cube::render::DrawCommand;
use flappy_cube::units::{GRAVITY, JUMP_AMOUNT, UNIT};

fn player_at(y: i64, color: Color) -> Player {
    Player {
        color_index: 0,
        color,
        body: Rect::new(400 * UNIT, y, 50 * UNIT, 50 * UNIT),
        velocity: Point2 { x: 0, y: 0 },
    }
}

fn green() -> Color {
    Color::new(0, 200, 0, 255)
}

fn blue() -> Color {
    Color::new(0, 0, 200, 255)
}

#[test]
fn another_colour_is_fatal_without_touching() {
    // The gap runs from 100 to 320 and the player flies inside it.
    let pillars = vec![Pillar::new(blue(), 420 * UNIT, 100 * UNIT)];
    let mut player = player_at(150 * UNIT, green());
    let mut sounds = Vec::new();
    let mut score = 0;
    assert!(player.update(&pillars, &mut sounds, &mut score));
    assert_eq!(sounds, vec![Cue::Crash]);
    assert_eq!(score, 0);
}

#[test]
fn the_same_colour_is_fatal_on_touching_the_top_block() {
    let pillars = vec![Pillar::new(green(), 420 * UNIT, 100 * UNIT)];
    let mut player = player_at(99 * UNIT, green());
    let mut sounds = Vec::new();
    let mut score = 0;
    assert!(player.update(&pillars, &mut sounds, &mut score));
    assert_eq!(sounds, vec![Cue::Crash]);
}

#[test]
fn the_same_colour_is_fatal_on_touching_the_bottom_block() {
    let pillars = vec![Pillar::new(green(), 420 * UNIT, 100 * UNIT)];
    let mut player = player_at(270 * UNIT + 1, green());
    let mut sounds = Vec::new();
    let mut score = 0;
    assert!(player.update(&pillars, &mut sounds, &mut score));
    assert_eq!(sounds, vec![Cue::Crash]);
}

#[test]
fn the_same_colour_passes_through_the_gap() {
    let pillars = vec![Pillar::new(green(), 420 * UNIT, 100 * UNIT)];
    for y in [100 * UNIT, 150 * UNIT, 270 * UNIT] {
        let mut player = player_at(y, green());
        let mut sounds = Vec::new();
        let mut score = 0;
        assert!(!player.update(&pillars, &mut sounds, &mut score));
        assert!(sounds.is_empty());
        assert_eq!(score, 0);
    }
}

#[test]
fn a_pillar_outside_the_column_is_harmless() {
    // The player spans 400 to 450; these pillars end at 400 or start at 450.
    let pillars = vec![
        Pillar::new(blue(), 320 * UNIT, 0),
        Pillar::new(blue(), 450 * UNIT, 0),
        Pillar::new(blue(), 900 * UNIT, 0),
    ];
    let mut player = player_at(500 * UNIT, green());
    let mut sounds = Vec::new();
    let mut score = 0;
    assert!(!player.update(&pillars, &mut sounds, &mut score));
    assert!(sounds.is_empty());
    assert_eq!(score, 0);
}

#[test]
fn the_column_starts_one_sub_unit_inside() {
    let pillars = vec![Pillar::new(blue(), 450 * UNIT - 1, 0)];
    let mut player = player_at(0, green());
    let mut sounds = Vec::new();
    let mut score = 0;
    assert!(player.update(&pillars, &mut sounds, &mut score));
}

#[test]
fn score_rises_once_as_a_pillar_passes_the_centre() {
    // The player's centre column is 425. A pillar is 80 wide, so the
    // columns coincide while its left edge is in [385, 386).
    let mut score = 0;
    let mut sounds = Vec::new();
    let mut x = 387 * UNIT + UNIT / 2;
    let mut history = Vec::new();
    while x > 380 * UNIT {
        let pillars = vec![Pillar::new(green(), x, 100 * UNIT)];
        let mut player = player_at(150 * UNIT, green());
        assert!(!player.update(&pillars, &mut sounds, &mut score));
        history.push(score);
        x -= UNIT;
    }
    assert_eq!(history, vec![0, 0, 1, 1, 1, 1, 1, 1]);
    assert_eq!(sounds, vec![Cue::Clink]);
}

#[test]
fn score_rises_on_every_tick_that_finds_the_centres_aligned() {
    // A pillar that moves by less than a unit stays in the column.
    let mut score = 7;
    let mut sounds = Vec::new();
    for x in [3_859_999, 3_855_000, 3_850_000, 3_849_999] {
        let pillars = vec![Pillar::new(green(), x, 100 * UNIT)];
        let mut player = player_at(150 * UNIT, green());
        player.update(&pillars, &mut sounds, &mut score);
    }
    assert_eq!(score, 10);
    assert_eq!(sounds, vec![Cue::Clink, Cue::Clink, Cue::Clink]);
}

#[test]
fn a_fast_pillar_can_skip_the_centre() {
    let mut score = 0;
    let mut sounds = Vec::new();
    for x in [386 * UNIT, 384 * UNIT + UNIT / 2] {
        let pillars = vec![Pillar::new(green(), x, 100 * UNIT)];
        let mut player = player_at(150 * UNIT, green());
        player.update(&pillars, &mut sounds, &mut score);
    }
    assert_eq!(score, 0);
    assert!(sounds.is_empty());
}

#[test]
fn a_crash_and_a_score_can_fall_on_one_tick() {
    let pillars = vec![Pillar::new(blue(), 385 * UNIT, 100 * UNIT)];
    let mut player = player_at(150 * UNIT, green());
    let mut sounds = vec![Cue::Jump];
    let mut score = 41;
    assert!(player.update(&pillars, &mut sounds, &mut score));
    assert_eq!(score, 42);
    assert_eq!(sounds, vec![Cue::Jump, Cue::Crash, Cue::Clink]);
}

#[test]
fn every_pillar_in_the_column_counts() {
    let pillars = vec![
        Pillar::new(green(), 385 * UNIT, 100 * UNIT),
        Pillar::new(blue(), 900 * UNIT, 100 * UNIT),
        Pillar::new(blue(), 385 * UNIT, 100 * UNIT),
        Pillar::new(green(), 385 * UNIT + 9_999, 0),
    ];
    let mut player = player_at(150 * UNIT, green());
    let mut sounds = Vec::new();
    let mut score = 0;
    assert!(player.update(&pillars, &mut sounds, &mut score));
    assert_eq!(score, 3);
    assert_eq!(sounds, vec![Cue::Clink, Cue::Crash, Cue::Clink, Cue::Clink]);
}

#[test]
fn no_pillars_no_crash() {
    let mut player = player_at(150 * UNIT, green());
    let mut sounds = Vec::new();
    let mut score = 3;
    assert!(!player.update(&Vec::new(), &mut sounds, &mut score));
    assert_eq!(score, 3);
    assert!(sounds.is_empty());
}

#[test]
fn gravity_adds_to_velocity_and_velocity_to_position() {
    let mut player = player_at(300 * UNIT, green());
    let mut sounds = Vec::new();
    let mut score = 0;
    player.update(&Vec::new(), &mut sounds, &mut score);
    assert_eq!(player.velocity, Point2 { x: 0, y: GRAVITY });
    assert_eq!(player.body, Rect::new(400 * UNIT, 301 * UNIT, 50 * UNIT, 50 * UNIT));
    player.update(&Vec::new(), &mut sounds, &mut score);
    assert_eq!(player.velocity.y, 2 * GRAVITY);
    assert_eq!(player.body.y, 303 * UNIT);
    player.update(&Vec::new(), &mut sounds, &mut score);
    assert_eq!(player.velocity.y, 3 * GRAVITY);
    assert_eq!(player.body.y, 306 * UNIT);
}

#[test]
fn update_checks_pillars_before_falling() {
    // One sub-unit above the bottom block: the fall of this tick would
    // take the player into it, but the check comes first.
    let pillars = vec![Pillar::new(green(), 420 * UNIT, 100 * UNIT)];
    let mut player = player_at(270 * UNIT, green());
    let mut sounds = Vec::new();
    let mut score = 0;
    assert!(!player.update(&pillars, &mut sounds, &mut score));
    assert_eq!(player.body.y, 271 * UNIT);
    assert!(player.update(&pillars, &mut sounds, &mut score));
}

#[test]
fn the_floor_resets_the_velocity() {
    let mut player = player_at(549 * UNIT + UNIT / 2, green());
    let mut sounds = Vec::new();
    let mut score = 0;
    player.update(&Vec::new(), &mut sounds, &mut score);
    assert_eq!(player.body.y, 550 * UNIT + UNIT / 2);
    assert_eq!(player.velocity.y, -GRAVITY);
    // The next tick's gravity cancels the reset: the player rests.
    player.update(&Vec::new(), &mut sounds, &mut score);
    assert_eq!(player.body.y, 550 * UNIT + UNIT / 2);
    assert_eq!(player.velocity.y, -GRAVITY);
}

#[test]
fn the_floor_is_reached_exactly_at_the_window_edge() {
    let mut sounds = Vec::new();
    let mut score = 0;
    let mut above = player_at(549 * UNIT - 1, green());
    above.update(&Vec::new(), &mut sounds, &mut score);
    assert_eq!(above.velocity.y, GRAVITY);
    let mut on = player_at(549 * UNIT, green());
    on.update(&Vec::new(), &mut sounds, &mut score);
    assert_eq!(on.body.y, 550 * UNIT);
    assert_eq!(on.velocity.y, -GRAVITY);
}

#[test]
fn the_floor_is_soft() {
    let mut player = player_at(500 * UNIT, green());
    player.velocity.y = 70 * UNIT;
    let mut sounds = Vec::new();
    let mut score = 0;
    player.update(&Vec::new(), &mut sounds, &mut score);
    assert_eq!(player.body.y, 571 * UNIT);
    assert_eq!(player.velocity.y, -GRAVITY);
}

#[test]
fn free_fall_never_goes_up_faster_than_gravity() {
    let mut player = player_at(300 * UNIT, green());
    let mut sounds = Vec::new();
    let mut score = 0;
    let mut landed = false;
    for _ in 0..1_000 {
        player.update(&Vec::new(), &mut sounds, &mut score);
        assert!(player.velocity.y >= -GRAVITY);
        if player.body.y + player.body.h >= 600 * UNIT {
            landed = true;
            assert_eq!(player.velocity.y, -GRAVITY);
        }
    }
    assert!(landed);
    assert_eq!(player.body.y, 553 * UNIT);
}

#[test]
fn jump_overrides_the_velocity() {
    for prior in [0, GRAVITY, -GRAVITY, 55 * UNIT, -55 * UNIT, JUMP_AMOUNT, i64::MAX, i64::MIN] {
        let mut player = player_at(300 * UNIT, green());
        player.velocity.y = prior;
        let before = player;
        player.jump();
        assert_eq!(player.velocity.y, -10 * UNIT);
        assert_eq!(player.velocity.x, before.velocity.x);
        assert_eq!(player.body, before.body);
        assert_eq!(player.color, before.color);
        assert_eq!(player.color_index, before.color_index);
        let once = player;
        player.jump();
        assert_eq!(player, once);
    }
}

#[test]
fn a_jump_rises_for_nine_ticks() {
    let mut player = player_at(300 * UNIT, green());
    let mut sounds = Vec::new();
    let mut score = 0;
    player.jump();
    let mut heights = Vec::new();
    for _ in 0..10 {
        player.update(&Vec::new(), &mut sounds, &mut score);
        heights.push(player.body.y / UNIT);
    }
    assert_eq!(heights, vec![291, 283, 276, 270, 265, 261, 258, 256, 255, 255]);
}

#[test]
fn switch_color_walks_the_palette_in_a_cycle() {
    let colors = palette();
    let mut player = player_at(300 * UNIT, colors[0]);
    let before = player;
    for step in 1..=12usize {
        player.switch_color(&colors);
        assert_eq!(player.color_index, step % 5);
        assert_eq!(player.color, colors[step % 5]);
        assert_eq!(player.body, before.body);
        assert_eq!(player.velocity, before.velocity);
    }
}

#[test]
fn switch_color_mends_a_stale_colour() {
    let colors = palette();
    let mut player = player_at(300 * UNIT, green());
    player.color_index = 4;
    player.switch_color(&colors);
    assert_eq!(player.color_index, 0);
    assert_eq!(player.color, colors[0]);
    player.color_index = 17;
    player.switch_color(&colors);
    assert_eq!(player.color_index, 3);
    assert_eq!(player.color, colors[3]);
}

#[test]
fn switch_color_with_one_colour_stays() {
    let colors = vec![green()];
    let mut player = player_at(300 * UNIT, green());
    player.switch_color(&colors);
    assert_eq!(player.color_index, 0);
    assert_eq!(player.color, green());
}

#[test]
fn player_draws_its_body() {
    let player = player_at(300 * UNIT, green());
    let mut frame = Vec::new();
    player.draw(&mut frame);
    assert_eq!(frame, vec![DrawCommand::Rectangle { rect: player.body, color: green() }]);
}
