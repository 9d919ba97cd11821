//! Behavior of the simulation passes: input normalization, pursuit/orbit
//! branching, repulsion symmetry, degenerate distances, integration, and a
//! whole frame end to end.

use mob_sim::components::{AccelerationComp, MobComp, MovementComp, PlayerComp, SpriteComp};
use mob_sim::frame::{run_frame, Config, FpsCapDeltaTime};
use mob_sim::geom::{Point2D, Rect};
use mob_sim::input::{player_input, InputState};
use mob_sim::integrate::integrate;
use mob_sim::avoid::{mob_pursuit, mob_repulsion};
use mob_sim::vec2::Vector2D;
use mob_sim::world::World;

fn sprite(x: i32, y: i32) -> SpriteComp {
    SpriteComp { srs: Rect::new(0, 0, 48, 48), pos: Point2D::new(x, y) }
}

/// A world with one player at the given milli-pixel position.
fn world_with_player(px: i64, py: i64) -> (World, usize) {
    let mut w = World::new();
    let pla = w.create_entity();
    w.attach_player(pla, PlayerComp {});
    w.attach_sprite(pla, sprite((px / 1000) as i32, (py / 1000) as i32));
    w.attach_movement(pla, MovementComp { position: Vector2D::new(px, py) });
    w.attach_acceleration(pla, AccelerationComp { acceleration: Vector2D::def() });
    (w, pla)
}

fn add_mob(w: &mut World, x: i64, y: i64, rx: i64, ry: i64) -> usize {
    let e = w.create_entity();
    w.attach_sprite(e, sprite((x / 1000) as i32, (y / 1000) as i32));
    w.attach_movement(e, MovementComp { position: Vector2D::new(x, y) });
    w.attach_acceleration(e, AccelerationComp { acceleration: Vector2D::def() });
    w.attach_mob(e, MobComp { rotate_dir: Vector2D::new(rx, ry) });
    e
}

fn accel_of(w: &World, e: usize) -> Vector2D {
    w.accelerations[e].unwrap().acceleration
}

fn pos_of(w: &World, e: usize) -> Vector2D {
    w.movements[e].unwrap().position
}

#[test]
fn input_single_axis_full_scale() {
    let (mut w, pla) = world_with_player(0, 0);
    let inp = InputState { left: true, right: false, up: false, down: false };
    player_input(&mut w, inp);
    assert_eq!(accel_of(&w, pla), Vector2D::new(-1000, 0));
}

#[test]
fn input_diagonal_normalized() {
    let (mut w, pla) = world_with_player(0, 0);
    let inp = InputState { left: true, right: false, up: true, down: false };
    player_input(&mut w, inp);
    let a = accel_of(&w, pla);
    assert_eq!(a, Vector2D::new(-707, -707));
    // magnitude stays within a thousandth of the single-axis magnitude,
    // never the doubled unnormalized value
    let mag_sq = a.x * a.x + a.y * a.y;
    assert!(999 * 999 < mag_sq && mag_sq < 1000 * 1000);
}

#[test]
fn input_diagonal_all_quadrants() {
    for (l, r, u, d, ex, ey) in [
        (true, false, false, true, -707i64, 707i64),
        (false, true, true, false, 707, -707),
        (false, true, false, true, 707, 707),
    ] {
        let (mut w, pla) = world_with_player(0, 0);
        player_input(&mut w, InputState { left: l, right: r, up: u, down: d });
        assert_eq!(accel_of(&w, pla), Vector2D::new(ex, ey));
    }
}

#[test]
fn input_no_keys_zero() {
    let (mut w, pla) = world_with_player(0, 0);
    player_input(&mut w, InputState { left: false, right: false, up: false, down: false });
    assert_eq!(accel_of(&w, pla), Vector2D::new(0, 0));
}

#[test]
fn input_right_wins_over_left() {
    // the later-checked direction wins a simultaneous press on one axis
    let (mut w, pla) = world_with_player(0, 0);
    player_input(&mut w, InputState { left: true, right: true, up: false, down: false });
    assert_eq!(accel_of(&w, pla), Vector2D::new(1000, 0));
}

#[test]
fn input_down_wins_over_up() {
    let (mut w, pla) = world_with_player(0, 0);
    player_input(&mut w, InputState { left: false, right: false, up: true, down: true });
    assert_eq!(accel_of(&w, pla), Vector2D::new(0, 1000));
}

#[test]
fn pursuit_at_boundary_orbits() {
    // distance exactly 40 px: squared distance equals the default
    // threshold, which must take the orbit branch
    let (mut w, pla) = world_with_player(0, 0);
    let m = add_mob(&mut w, 40_000, 0, -1, 1);
    mob_pursuit(&mut w, pla, 1_600_000_000);
    // direction to player is (-1000, 0); orbit swaps components:
    // (nd.y * rot.x, nd.x * rot.y) = (0, -1000)
    assert_eq!(accel_of(&w, m), Vector2D::new(0, -1000));
}

#[test]
fn pursuit_beyond_boundary_chases() {
    // distance 41 px: squared distance exceeds the threshold, direct pursuit
    let (mut w, pla) = world_with_player(0, 0);
    let m = add_mob(&mut w, 41_000, 0, -1, 1);
    mob_pursuit(&mut w, pla, 1_600_000_000);
    assert_eq!(accel_of(&w, m), Vector2D::new(-1000, 0));
}

#[test]
fn repulsion_mutually_opposing() {
    // two mobs 30 px apart, inside the 40 px radius, no player influence
    let (mut w, _pla) = world_with_player(500_000, 500_000);
    let a = add_mob(&mut w, 0, 0, -1, 1);
    let b = add_mob(&mut w, 30_000, 0, 1, -1);
    mob_repulsion(&mut w, 1_600_000_000);
    let aa = accel_of(&w, a);
    let ab = accel_of(&w, b);
    assert_eq!(aa, Vector2D::new(-1000, 0));
    assert_eq!(ab, Vector2D::new(1000, 0));
    assert_eq!(aa.x, -ab.x);
    assert_eq!(aa.y, -ab.y);
}

#[test]
fn repulsion_outside_radius_no_push() {
    let (mut w, _pla) = world_with_player(500_000, 500_000);
    let a = add_mob(&mut w, 0, 0, -1, 1);
    let b = add_mob(&mut w, 50_000, 0, 1, -1);
    mob_repulsion(&mut w, 1_600_000_000);
    assert_eq!(accel_of(&w, a), Vector2D::new(0, 0));
    assert_eq!(accel_of(&w, b), Vector2D::new(0, 0));
}

#[test]
fn zero_distance_mob_on_player() {
    // a mob exactly on the player: pursuit yields the zero vector, not an
    // undefined value
    let (mut w, pla) = world_with_player(100_000, 200_000);
    let m = add_mob(&mut w, 100_000, 200_000, 1, -1);
    mob_pursuit(&mut w, pla, 1_600_000_000);
    assert_eq!(accel_of(&w, m), Vector2D::new(0, 0));
}

#[test]
fn zero_distance_mob_on_mob() {
    // two mobs on the same spot: no contribution rather than a non-number
    let (mut w, _pla) = world_with_player(500_000, 500_000);
    let a = add_mob(&mut w, 7_000, 9_000, -1, 1);
    let b = add_mob(&mut w, 7_000, 9_000, 1, -1);
    mob_repulsion(&mut w, 1_600_000_000);
    assert_eq!(accel_of(&w, a), Vector2D::new(0, 0));
    assert_eq!(accel_of(&w, b), Vector2D::new(0, 0));
}

#[test]
fn integrate_zero_accel_keeps_position() {
    // zero acceleration: position unchanged whatever the elapsed time
    for dt in [0u64, 1, 16_667, 100_000_000] {
        let (mut w, pla) = world_with_player(123_456, -789);
        integrate(&mut w, 190, dt);
        assert_eq!(pos_of(&w, pla), Vector2D::new(123_456, -789));
    }
}

#[test]
fn integrate_zero_dt_freezes_motion() {
    let (mut w, pla) = world_with_player(10_000, 20_000);
    player_input(&mut w, InputState { left: false, right: true, up: false, down: false });
    integrate(&mut w, 190, 0);
    assert_eq!(pos_of(&w, pla), Vector2D::new(10_000, 20_000));
    // and the acceleration is still reset afterwards
    assert_eq!(accel_of(&w, pla), Vector2D::new(0, 0));
}

#[test]
fn integrate_advances_and_resets() {
    let (mut w, pla) = world_with_player(0, 0);
    player_input(&mut w, InputState { left: false, right: true, up: false, down: false });
    // 190 px/s for 1/60 s at full-scale intent: 190 * 16667 / 1000 = 3166
    // milli-pixels, truncated
    integrate(&mut w, 190, 16_667);
    assert_eq!(pos_of(&w, pla), Vector2D::new(3_166, 0));
    assert_eq!(accel_of(&w, pla), Vector2D::new(0, 0));
    let spr = w.sprites[pla].unwrap();
    assert_eq!(spr.pos, Point2D::new(3, 0));
}

#[test]
fn frame_end_to_end_mob_approaches_player() {
    // player at (640, 360) stationary, mob at (640, 400): outside the
    // repulsion radius and in pursuit range; after one frame at 1/60 s and
    // speed 190 the mob has moved up by 190/60 = 3.166 px
    let (mut w, pla) = world_with_player(640_000, 360_000);
    let m = add_mob(&mut w, 640_000, 400_000, -1, 1);
    let cfg = Config { vel: 190, chase_threshold_sq: 400_000_000, repulsion_radius_sq: 400_000_000 };
    let inp = InputState { left: false, right: false, up: false, down: false };
    let cmds = run_frame(&mut w, pla, inp, cfg, 16_667);
    // the mob moved toward the player along the normalized pursuit vector
    assert_eq!(pos_of(&w, m), Vector2D::new(640_000, 396_834));
    let spr = w.sprites[m].unwrap();
    assert_eq!(spr.pos, Point2D::new(640, 396));
    // the player did not move
    assert_eq!(pos_of(&w, pla), Vector2D::new(640_000, 360_000));
    // both sprites are drawn, player (key 384) before mob (key 420)
    assert_eq!(cmds.len(), 2);
    assert_eq!(cmds[0].dst.y, 360);
    assert_eq!(cmds[1].dst.y, 396);
}

#[test]
fn fps_cap_delta_time() {
    let mut f = FpsCapDeltaTime::new(60);
    assert_eq!(f.frame_delay, 16);
    assert_eq!(f.set_fps, 60);
    f.start(16_667);
    assert_eq!(f.dt, 16_667);
    assert_eq!(f.end(10), 6);
    assert_eq!(f.end(16), 0);
    assert_eq!(f.end(100), 0);
}

#[test]
fn config_default_values() {
    let c = Config::default();
    assert_eq!(c.vel, 190);
    assert_eq!(c.chase_threshold_sq, 1_600_000_000);
    assert_eq!(c.repulsion_radius_sq, 1_600_000_000);
}
