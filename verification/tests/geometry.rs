use flappy_cube::geometry::{center_column, collide_rect, whole_units, Rect};
use flappy_cube::units::UNIT;

fn rect(x: i64, y: i64, w: i64, h: i64) -> Rect {
    Rect::new(x * UNIT, y * UNIT, w * UNIT, h * UNIT)
}

#[test]
fn overlapping_rectangles_collide() {
    assert!(collide_rect(&rect(0, 0, 10, 10), &rect(5, 5, 10, 10)));
    assert!(collide_rect(&rect(5, 5, 10, 10), &rect(0, 0, 10, 10)));
}

#[test]
fn a_rectangle_inside_another_collides() {
    assert!(collide_rect(&rect(0, 0, 100, 100), &rect(40, 40, 5, 5)));
    assert!(collide_rect(&rect(40, 40, 5, 5), &rect(0, 0, 100, 100)));
}

#[test]
fn rectangles_that_only_touch_do_not_collide() {
    assert!(!collide_rect(&rect(0, 0, 10, 10), &rect(10, 0, 10, 10)));
    assert!(!collide_rect(&rect(0, 0, 10, 10), &rect(0, 10, 10, 10)));
    assert!(!collide_rect(&rect(10, 0, 10, 10), &rect(0, 0, 10, 10)));
    assert!(!collide_rect(&rect(0, 10, 10, 10), &rect(0, 0, 10, 10)));
}

#[test]
fn a_sub_unit_of_overlap_is_enough() {
    let a = Rect::new(0, 0, 10 * UNIT + 1, 10 * UNIT);
    assert!(collide_rect(&a, &rect(10, 0, 10, 10)));
}

#[test]
fn rectangles_apart_on_one_axis_do_not_collide() {
    assert!(!collide_rect(&rect(0, 0, 10, 10), &rect(20, 0, 10, 10)));
    assert!(!collide_rect(&rect(0, 0, 10, 10), &rect(0, 20, 10, 10)));
    assert!(!collide_rect(&rect(0, 0, 10, 10), &rect(5, 20, 10, 10)));
}

#[test]
fn an_empty_rectangle_collides_with_nothing_it_merely_touches() {
    assert!(!collide_rect(&rect(0, 0, 0, 0), &rect(0, 0, 10, 10)));
    assert!(collide_rect(&rect(5, 5, 0, 0), &rect(0, 0, 10, 10)));
}

#[test]
fn collide_rect_takes_the_widest_coordinates() {
    let far = Rect::new(i64::MAX, i64::MAX, i64::MAX, i64::MAX);
    let near = Rect::new(i64::MIN, i64::MIN, i64::MAX, i64::MAX);
    assert!(collide_rect(&far, &far));
    assert!(!collide_rect(&far, &near));
}

#[test]
fn whole_units_round_towards_zero() {
    assert_eq!(whole_units(0), 0);
    assert_eq!(whole_units(9_999), 0);
    assert_eq!(whole_units(10_000), 1);
    assert_eq!(whole_units(3_859_999), 385);
    assert_eq!(whole_units(-1), 0);
    assert_eq!(whole_units(-9_999), 0);
    assert_eq!(whole_units(-10_000), -1);
    assert_eq!(whole_units(-25_000), -2);
}

#[test]
fn center_column_adds_truncated_edge_and_half_width() {
    assert_eq!(center_column(&rect(400, 0, 50, 50)), 425);
    assert_eq!(center_column(&rect(385, 0, 80, 10)), 425);
    assert_eq!(center_column(&Rect::new(3_859_999, 0, 800_000, 0)), 425);
    assert_eq!(center_column(&Rect::new(3_860_000, 0, 800_000, 0)), 426);
    assert_eq!(center_column(&Rect::new(-15_000, 0, 30_000, 0)), 0);
    assert_eq!(center_column(&Rect::new(0, 0, 19_999, 0)), 0);
    assert_eq!(center_column(&Rect::new(0, 0, 20_000, 0)), 1);
}
