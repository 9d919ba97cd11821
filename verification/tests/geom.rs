//! Geometry, colors, keyboard state, render ordering, and the fixed-point
//! arithmetic helpers.

use mob_sim::components::SpriteComp;
use mob_sim::geom::{Point2D, Rect};
use mob_sim::gfx::Color;
use mob_sim::input::{read_dir_input, KeyboardState, SCANCODE_A, SCANCODE_S};
use mob_sim::math::{isqrt64, scaled_ratio};
use mob_sim::render::build_draw_list;
use mob_sim::world::World;

#[test]
fn rect_accessors() {
    let mut r = Rect::new(3, 4, 10, 20);
    assert_eq!(r.left(), 3);
    assert_eq!(r.top(), 4);
    assert_eq!(r.width(), 10);
    assert_eq!(r.height(), 20);
    assert_eq!(r.right(), 13);
    assert_eq!(r.bottom(), 24);
    r.set_x(7);
    r.set_y(8);
    assert_eq!(r.left(), 7);
    assert_eq!(r.top(), 8);
}

#[test]
fn rect_intersection() {
    let a = Rect::new(0, 0, 10, 10);
    assert!(a.has_intersection(&Rect::new(5, 5, 10, 10)));
    assert!(!a.has_intersection(&Rect::new(10, 0, 10, 10)));
    assert!(!a.has_intersection(&Rect::new(0, 10, 5, 5)));
    // empty rectangles never intersect anything
    assert!(!a.has_intersection(&Rect::new(0, 0, 0, 10)));
    assert!(!Rect::new(0, 0, -5, 10).has_intersection(&a));
}

#[test]
fn rect_contains_point() {
    let r = Rect::new(2, 3, 4, 5);
    assert!(r.contains_point(Point2D::new(2, 3)));
    assert!(r.contains_point(Point2D::new(5, 7)));
    assert!(!r.contains_point(Point2D::new(6, 3)));
    assert!(!r.contains_point(Point2D::new(2, 8)));
}

#[test]
fn point_setters() {
    let mut p = Point2D::def();
    assert_eq!(p, Point2D::new(0, 0));
    p.set_x(5);
    p.set_y(-2);
    assert_eq!((p.x(), p.y()), (5, -2));
    p.set_from_typle((9, 11));
    assert_eq!((p.x(), p.y()), (9, 11));
}

#[test]
fn color_from_tuples() {
    let c = Color::from((1u8, 2u8, 3u8));
    assert_eq!((c.r, c.g, c.b, c.a), (1, 2, 3, 0xff));
    let c = Color::from((1u8, 2u8, 3u8, 4u8));
    assert_eq!((c.r, c.g, c.b, c.a), (1, 2, 3, 4));
}

#[test]
fn keyboard_state_pressed() {
    let mut raw = vec![0u8; 512];
    raw[SCANCODE_A as usize] = 1;
    raw[SCANCODE_S as usize] = 1;
    let keys = KeyboardState::new(raw);
    assert!(keys.is_scancode_pressed(SCANCODE_A));
    assert!(!keys.is_scancode_pressed(7));
    let inp = read_dir_input(&keys);
    assert!(inp.left && inp.down && !inp.right && !inp.up);
}

#[test]
fn isqrt_exact_and_floor() {
    assert_eq!(isqrt64(0), 0);
    assert_eq!(isqrt64(1), 1);
    assert_eq!(isqrt64(2), 1);
    assert_eq!(isqrt64(3), 1);
    assert_eq!(isqrt64(4), 2);
    assert_eq!(isqrt64(1_600_000_000), 40_000);
    assert_eq!(isqrt64(1_680_999_999), 40_999);
    assert_eq!(isqrt64(u64::MAX), 0xFFFF_FFFF);
}

#[test]
fn scaled_ratio_truncates_toward_zero() {
    assert_eq!(scaled_ratio(7, 1, 2), 3);
    assert_eq!(scaled_ratio(-7, 1, 2), -3);
    assert_eq!(scaled_ratio(40_000, 1000, 40_000), 1000);
    assert_eq!(scaled_ratio(-1000, 3_166_730, 1_000_000), -3_166);
    assert_eq!(scaled_ratio(0, 12345, 7), 0);
}

fn sprite_at(y: i32, w: i32) -> SpriteComp {
    SpriteComp { srs: Rect::new(0, 0, w, 10), pos: Point2D::new(0, y) }
}

#[test]
fn render_order_sorted_by_depth_key() {
    // sprites at y 50, 10, 30 with equal width: draw order must be the
    // ascending permutation [1, 2, 0]
    let mut w = World::new();
    for y in [50, 10, 30] {
        let e = w.create_entity();
        w.attach_sprite(e, sprite_at(y, 10));
    }
    let cmds = build_draw_list(&w);
    assert_eq!(cmds.len(), 3);
    assert_eq!(cmds[0].dst.y, 10);
    assert_eq!(cmds[1].dst.y, 30);
    assert_eq!(cmds[2].dst.y, 50);
}

#[test]
fn render_order_wider_sprite_later() {
    // equal y: the wider sprite has the larger key and is drawn later
    let mut w = World::new();
    let a = w.create_entity();
    w.attach_sprite(a, sprite_at(10, 100));
    let b = w.create_entity();
    w.attach_sprite(b, sprite_at(10, 2));
    let cmds = build_draw_list(&w);
    assert_eq!(cmds[0].src.w, 2);
    assert_eq!(cmds[1].src.w, 100);
}

#[test]
fn render_order_ties_keep_insertion_order() {
    let mut w = World::new();
    let mut expect = Vec::new();
    for x in [5, 6, 7] {
        let e = w.create_entity();
        let mut s = sprite_at(20, 10);
        s.pos.set_x(x);
        w.attach_sprite(e, s);
        expect.push(x);
    }
    let cmds = build_draw_list(&w);
    let got: Vec<i32> = cmds.iter().map(|c| c.dst.x).collect();
    assert_eq!(got, expect);
}
