//! The component store: entity creation, attachment, structural queries,
//! and world setup.

use mob_sim::components::{AccelerationComp, MobComp, MovementComp, PlayerComp, SpriteComp};
use mob_sim::geom::{Point2D, Rect};
use mob_sim::spawn::{mob_src_rect, random_pos_xy, setup_world, SPAWN_X, SPAWN_Y};
use mob_sim::vec2::Vector2D;
use mob_sim::world::{CompKind, World};

fn comp(srs: Rect) -> SpriteComp {
    SpriteComp { srs, pos: Point2D::def() }
}

#[test]
fn create_entity_fresh_ids() {
    let mut w = World::new();
    assert_eq!(w.create_entity(), 0);
    assert_eq!(w.create_entity(), 1);
    assert_eq!(w.create_entity(), 2);
    assert_eq!(w.sprites.len(), 3);
}

#[test]
fn attach_replaces() {
    let mut w = World::new();
    let e = w.create_entity();
    w.attach_movement(e, MovementComp { position: Vector2D::new(1, 2) });
    w.attach_movement(e, MovementComp { position: Vector2D::new(3, 4) });
    assert_eq!(w.movements[e].unwrap().position, Vector2D::new(3, 4));
}

#[test]
fn query_filters_and_order() {
    let mut w = World::new();
    // 0: player with acceleration; 1: mob with acceleration and movement;
    // 2: bare sprite; 3: another mob
    let e0 = w.create_entity();
    w.attach_player(e0, PlayerComp {});
    w.attach_acceleration(e0, AccelerationComp { acceleration: Vector2D::def() });
    let e1 = w.create_entity();
    w.attach_mob(e1, MobComp { rotate_dir: Vector2D::new(1, -1) });
    w.attach_acceleration(e1, AccelerationComp { acceleration: Vector2D::def() });
    w.attach_movement(e1, MovementComp { position: Vector2D::def() });
    let e2 = w.create_entity();
    w.attach_sprite(e2, comp(Rect::new(0, 0, 1, 1)));
    let e3 = w.create_entity();
    w.attach_mob(e3, MobComp { rotate_dir: Vector2D::new(-1, 1) });
    w.attach_acceleration(e3, AccelerationComp { acceleration: Vector2D::def() });
    w.attach_movement(e3, MovementComp { position: Vector2D::def() });

    let mobs = w.query(
        &vec![CompKind::Mob, CompKind::Acceleration, CompKind::Movement],
        &vec![],
    );
    assert_eq!(mobs, vec![e1, e3]);

    let accel_not_player = w.query(&vec![CompKind::Acceleration], &vec![CompKind::Player]);
    assert_eq!(accel_not_player, vec![e1, e3]);

    let players = w.query(&vec![CompKind::Player], &vec![]);
    assert_eq!(players, vec![e0]);

    let everything = w.query(&vec![], &vec![]);
    assert_eq!(everything, vec![e0, e1, e2, e3]);
}

#[test]
fn query_restartable_fresh_each_call() {
    let mut w = World::new();
    let e = w.create_entity();
    w.attach_sprite(e, comp(Rect::new(0, 0, 2, 2)));
    let first = w.query(&vec![CompKind::Sprite], &vec![]);
    let second = w.query(&vec![CompKind::Sprite], &vec![]);
    assert_eq!(first, second);
}

#[test]
fn setup_world_spawns_player_and_mobs() {
    let mut w = World::new();
    let pla = setup_world(&mut w, 20);
    assert_eq!(pla, 0);
    assert_eq!(w.sprites.len(), 21);
    // the player is at the screen center, not a mob
    assert!(w.players[0].is_some());
    assert!(w.mobs[0].is_none());
    let p = w.movements[0].unwrap().position;
    assert_eq!(p, Vector2D::new(SPAWN_X as i64 * 1000, SPAWN_Y as i64 * 1000));
    // every mob carries all four components and a valid orbit direction
    for e in 1..21 {
        assert!(w.mobs[e].is_some());
        assert!(w.sprites[e].is_some());
        assert!(w.accelerations[e].is_some());
        assert!(w.movements[e].is_some());
        let rot = w.mobs[e].unwrap().rotate_dir;
        assert!(rot == Vector2D::new(-1, 1) || rot == Vector2D::new(1, -1));
        assert_eq!(w.accelerations[e].unwrap().acceleration, Vector2D::def());
    }
}

#[test]
fn random_pos_even_index_pins_x() {
    for _ in 0..50 {
        let (x, y) = random_pos_xy(0);
        assert!(x == -17 || x == 1297);
        assert!((-17..737).contains(&y));
    }
}

#[test]
fn random_pos_odd_index_pins_y() {
    for _ in 0..50 {
        let (x, y) = random_pos_xy(1);
        assert!((-17..1297).contains(&x));
        assert!(y == -17 || y == 737);
    }
}

#[test]
fn mob_src_rect_regions() {
    assert_eq!(mob_src_rect(0), Rect::new(0, 0, 48, 48));
    assert_eq!(mob_src_rect(1), Rect::new(48, 0, 48, 48));
    assert_eq!(mob_src_rect(2), Rect::new(0, 48, 48, 51));
}
