//! The avoidance and pursuit system: per-mob steering toward (or around)
//! the player, followed by pairwise mob-mob repulsion.
//!
//! Directions are normalized with the verified integer square root to
//! vectors of [`SCALE`] magnitude; a zero distance yields a zero
//! contribution instead of an undefined value.

use vstd::prelude::*;
use crate::components::mob_wf;
use crate::math::{
    isqrt64, lemma_mul_div_le, lemma_scaled_ratio_bound, lemma_scaled_ratio_neg,
    lemma_sqrt_floor, scaled_ratio, scaled_ratio_spec, sqrt_floor, SCALE,
};
use crate::vec2::{vec2_zero, Vector2D};
use crate::world::{positions_within, World};
use crate::components::AccelerationComp;
use crate::{MAX_ENTITIES, POS_LIMIT};

verus! {

/// The direction `(dx, dy)` normalized to a vector of `SCALE` magnitude
/// (componentwise truncating division); the zero vector when the distance
/// is zero.
pub open spec fn norm_scaled_spec(dx: int, dy: int) -> (int, int) {
    let h = sqrt_floor((dx * dx + dy * dy) as nat) as int;
    if h == 0 {
        (0, 0)
    } else {
        (scaled_ratio_spec(dx, SCALE as int, h), scaled_ratio_spec(dy, SCALE as int, h))
    }
}

/// Both components of a normalized direction are bounded by `SCALE`.
pub proof fn lemma_norm_scaled_bound(dx: int, dy: int)
    ensures
        -(SCALE as int) <= norm_scaled_spec(dx, dy).0 <= SCALE as int,
        -(SCALE as int) <= norm_scaled_spec(dx, dy).1 <= SCALE as int,
{
    assert(dx * dx >= 0) by (nonlinear_arith);
    assert(dy * dy >= 0) by (nonlinear_arith);
    let ds = dx * dx + dy * dy;
    lemma_sqrt_floor(ds as nat);
    let h = sqrt_floor(ds as nat) as int;
    if h != 0 {
        assert(-h <= dx <= h) by (nonlinear_arith)
            requires dx * dx <= ds && ds < (h + 1) * (h + 1) && h >= 0;
        assert(-h <= dy <= h) by (nonlinear_arith)
            requires dy * dy <= ds && ds < (h + 1) * (h + 1) && h >= 0;
        lemma_scaled_ratio_bound(dx, SCALE as int, h);
        lemma_scaled_ratio_bound(dy, SCALE as int, h);
    }
}

/// Negating a direction negates its normalization exactly.
pub proof fn lemma_norm_scaled_neg(dx: int, dy: int)
    ensures
        norm_scaled_spec(-dx, -dy).0 == -norm_scaled_spec(dx, dy).0,
        norm_scaled_spec(-dx, -dy).1 == -norm_scaled_spec(dx, dy).1,
{
    assert((-dx) * (-dx) == dx * dx) by (nonlinear_arith);
    assert((-dy) * (-dy) == dy * dy) by (nonlinear_arith);
    assert(dx * dx >= 0) by (nonlinear_arith);
    assert(dy * dy >= 0) by (nonlinear_arith);
    let ds = dx * dx + dy * dy;
    let h = sqrt_floor(ds as nat) as int;
    lemma_sqrt_floor(ds as nat);
    if h != 0 {
        lemma_scaled_ratio_neg(dx, SCALE as int, h);
        lemma_scaled_ratio_neg(dy, SCALE as int, h);
    }
}

/// Steering for one mob relative to the player: the normalized direction to
/// the player when the squared distance strictly exceeds the chase
/// threshold, otherwise the orbiting swap of its components signed by the
/// mob's orbit direction.
pub open spec fn pursuit_accel_spec(
    ppos: Vector2D,
    mpos: Vector2D,
    rot: Vector2D,
    chase_sq: int,
) -> (int, int) {
    let dx = ppos.x - mpos.x;
    let dy = ppos.y - mpos.y;
    let ds = dx * dx + dy * dy;
    let nd = norm_scaled_spec(dx, dy);
    if chase_sq < ds {
        nd
    } else {
        (nd.1 * rot.x, nd.0 * rot.y)
    }
}

/// Pursuit/orbit steering is bounded by `SCALE` on both axes.
pub proof fn lemma_pursuit_accel_bound(ppos: Vector2D, mpos: Vector2D, rot: Vector2D, chase_sq: int)
    requires
        rot.x == 1 || rot.x == -1,
        rot.y == 1 || rot.y == -1,
    ensures
        -(SCALE as int) <= pursuit_accel_spec(ppos, mpos, rot, chase_sq).0 <= SCALE as int,
        -(SCALE as int) <= pursuit_accel_spec(ppos, mpos, rot, chase_sq).1 <= SCALE as int,
{
    let dx = ppos.x - mpos.x;
    let dy = ppos.y - mpos.y;
    lemma_norm_scaled_bound(dx, dy);
    let nd = norm_scaled_spec(dx, dy);
    assert(nd.1 * 1 == nd.1);
    assert(nd.0 * 1 == nd.0);
    assert(nd.1 * -1 == -nd.1);
    assert(nd.0 * -1 == -nd.0);
}

/// The boundary is deterministic: a squared distance that does not exceed
/// the chase threshold takes the orbit branch; only a strictly greater one
/// pursues.
pub proof fn lemma_chase_boundary(ppos: Vector2D, mpos: Vector2D, rot: Vector2D, chase_sq: int)
    ensures
        ({
            let dx = ppos.x - mpos.x;
            let dy = ppos.y - mpos.y;
            let ds = dx * dx + dy * dy;
            let nd = norm_scaled_spec(dx, dy);
            &&& (ds <= chase_sq ==> pursuit_accel_spec(ppos, mpos, rot, chase_sq) == (
                nd.1 * rot.x,
                nd.0 * rot.y,
            ))
            &&& (ds > chase_sq ==> pursuit_accel_spec(ppos, mpos, rot, chase_sq) == nd)
        }),
{
}

/// Repulsion pushed onto a mob at `pi` by a mob at `pj`: the normalized
/// direction from `pj` to `pi`, counted only strictly inside the repulsion
/// radius; zero at zero distance.
pub open spec fn repulse_contrib_spec(pi: Vector2D, pj: Vector2D, radius_sq: int) -> (int, int) {
    let dx = pi.x - pj.x;
    let dy = pi.y - pj.y;
    let ds = dx * dx + dy * dy;
    if ds < radius_sq {
        norm_scaled_spec(dx, dy)
    } else {
        (0, 0)
    }
}

/// A repulsion contribution is bounded by `SCALE` on both axes.
pub proof fn lemma_repulse_contrib_bound(pi: Vector2D, pj: Vector2D, radius_sq: int)
    ensures
        -(SCALE as int) <= repulse_contrib_spec(pi, pj, radius_sq).0 <= SCALE as int,
        -(SCALE as int) <= repulse_contrib_spec(pi, pj, radius_sq).1 <= SCALE as int,
{
    lemma_norm_scaled_bound(pi.x - pj.x, pi.y - pj.y);
}

/// Repulsion is mutually opposing: over a full pass, the push a mob at `pi`
/// receives from a mob at `pj` is the exact negation of the push the mob at
/// `pj` receives back.
pub proof fn lemma_repulse_antisymmetric(pi: Vector2D, pj: Vector2D, radius_sq: int)
    ensures
        repulse_contrib_spec(pi, pj, radius_sq).0 == -repulse_contrib_spec(pj, pi, radius_sq).0,
        repulse_contrib_spec(pi, pj, radius_sq).1 == -repulse_contrib_spec(pj, pi, radius_sq).1,
{
    let dx = pi.x - pj.x;
    let dy = pi.y - pj.y;
    assert((-dx) * (-dx) == dx * dx) by (nonlinear_arith);
    assert((-dy) * (-dy) == dy * dy) by (nonlinear_arith);
    lemma_norm_scaled_neg(dx, dy);
}

/// Two entities at identical coordinates produce no steering: pursuit and
/// repulsion both yield the zero vector instead of an undefined value.
pub proof fn lemma_zero_distance(p: Vector2D, rot: Vector2D, chase_sq: int, radius_sq: int)
    ensures
        pursuit_accel_spec(p, p, rot, chase_sq) == (0int, 0int),
        repulse_contrib_spec(p, p, radius_sq) == (0int, 0int),
{
    assert(sqrt_floor(0nat) == 0);
    assert(p.x - p.x == 0);
    assert(p.y - p.y == 0);
    assert(norm_scaled_spec(0, 0) == (0int, 0int));
    assert((0int) * rot.x == 0) by (nonlinear_arith);
    assert((0int) * rot.y == 0) by (nonlinear_arith);
}

/// Which entities the avoidance passes treat as mobs.
pub open spec fn mob_flags(w: World) -> Seq<bool> {
    Seq::new(w.num_entities(), |i: int| w.is_mob(i))
}

/// The attached positions of a store (the zero vector where no movement is
/// attached).
pub open spec fn positions_seq(w: World) -> Seq<Vector2D> {
    Seq::new(
        w.num_entities(),
        |i: int|
            if w.movements@[i] is Some {
                w.position_of(i)
            } else {
                vec2_zero()
            },
    )
}

/// The repulsion accumulated by mob `i` from the mobs with index below `k`,
/// skipping `i` itself.
pub open spec fn repulse_sum_spec(
    flags: Seq<bool>,
    pos: Seq<Vector2D>,
    i: int,
    k: int,
    radius_sq: int,
) -> (int, int)
    decreases k,
{
    if k <= 0 {
        (0, 0)
    } else {
        let prev = repulse_sum_spec(flags, pos, i, k - 1, radius_sq);
        if k - 1 != i && flags[k - 1] {
            let c = repulse_contrib_spec(pos[i], pos[k - 1], radius_sq);
            (prev.0 + c.0, prev.1 + c.1)
        } else {
            prev
        }
    }
}

/// The pursuit/orbit pass: recomputes the acceleration of every mob from
/// its position relative to the player entity `pla`. Positions, sprites and
/// tags are untouched; non-mob accelerations keep their value.
pub fn mob_pursuit(world: &mut World, pla: usize, chase_sq: i64)
    requires
        old(world).wf(),
        pla < old(world).num_entities(),
        old(world).movements@[pla as int] is Some,
        positions_within(*old(world), POS_LIMIT as int),
    ensures
        final(world).wf(),
        final(world).num_entities() == old(world).num_entities(),
        final(world).sprites@ == old(world).sprites@,
        final(world).players@ == old(world).players@,
        final(world).mobs@ == old(world).mobs@,
        final(world).movements@ == old(world).movements@,
        forall|i: int|
            0 <= i < old(world).num_entities() ==> final(world).accelerations@[i] == (
            if old(world).is_mob(i) {
                Some(
                    AccelerationComp {
                        acceleration: Vector2D {
                            x: pursuit_accel_spec(
                                old(world).position_of(pla as int),
                                old(world).position_of(i),
                                old(world).rot_of(i),
                                chase_sq as int,
                            ).0 as i64,
                            y: pursuit_accel_spec(
                                old(world).position_of(pla as int),
                                old(world).position_of(i),
                                old(world).rot_of(i),
                                chase_sq as int,
                            ).1 as i64,
                        },
                    },
                )
            } else {
                old(world).accelerations@[i]
            }),
{
    let ppos: Vector2D = world.movements[pla].unwrap().position;
    let n: usize = world.sprites.len();
    let mut e: usize = 0;
    while e < n
        invariant
            world.wf(),
            n == world.num_entities(),
            e <= n,
            pla < n,
            world.sprites@ == old(world).sprites@,
            world.players@ == old(world).players@,
            world.mobs@ == old(world).mobs@,
            world.movements@ == old(world).movements@,
            old(world).movements@[pla as int] is Some,
            ppos == old(world).position_of(pla as int),
            positions_within(*old(world), POS_LIMIT as int),
            forall|i: int|
                0 <= i < e ==> world.accelerations@[i] == (
                if old(world).is_mob(i) {
                    Some(
                        AccelerationComp {
                            acceleration: Vector2D {
                                x: pursuit_accel_spec(
                                    old(world).position_of(pla as int),
                                    old(world).position_of(i),
                                    old(world).rot_of(i),
                                    chase_sq as int,
                                ).0 as i64,
                                y: pursuit_accel_spec(
                                    old(world).position_of(pla as int),
                                    old(world).position_of(i),
                                    old(world).rot_of(i),
                                    chase_sq as int,
                                ).1 as i64,
                            },
                        },
                    )
                } else {
                    old(world).accelerations@[i]
                }),
            forall|i: int|
                e <= i < n ==> world.accelerations@[i] == old(world).accelerations@[i],
        decreases n - e,
    {
        if world.mobs[e].is_some() && world.accelerations[e].is_some()
            && world.movements[e].is_some() {
            let mpos: Vector2D = world.movements[e].unwrap().position;
            let rot: Vector2D = world.mobs[e].unwrap().rotate_dir;
            proof {
                assert(old(world).movements@[e as int] is Some);
                assert(old(world).movements@[pla as int] is Some);
                assert(old(world).mobs@[e as int] is Some);
                assert(mob_wf(old(world).mobs@[e as int]->Some_0));
            }
            let dx: i64 = ppos.x - mpos.x;
            let dy: i64 = ppos.y - mpos.y;
            proof {
                assert(0 <= dx * dx <= 4_000_000_000_000_000_000) by (nonlinear_arith)
                    requires -2_000_000_000 <= dx <= 2_000_000_000;
                assert(0 <= dy * dy <= 4_000_000_000_000_000_000) by (nonlinear_arith)
                    requires -2_000_000_000 <= dy <= 2_000_000_000;
            }
            let ds: i64 = dx * dx + dy * dy;
            let hyp: u64 = isqrt64(ds as u64);
            let ax: i64;
            let ay: i64;
            if hyp == 0 {
                ax = 0;
                ay = 0;
                proof {
                    assert(norm_scaled_spec(dx as int, dy as int) == (0int, 0int));
                    assert((0int) * rot.x == 0) by (nonlinear_arith);
                    assert((0int) * rot.y == 0) by (nonlinear_arith);
                    assert(pursuit_accel_spec(ppos, mpos, rot, chase_sq as int) == (0int, 0int));
                }
            } else {
                proof {
                    assert(-(hyp as int) <= dx <= hyp as int) by (nonlinear_arith)
                        requires
                            dx * dx <= ds && (ds as int) < (hyp + 1) * (hyp + 1) && hyp >= 0;
                    assert(-(hyp as int) <= dy <= hyp as int) by (nonlinear_arith)
                        requires
                            dy * dy <= ds && (ds as int) < (hyp + 1) * (hyp + 1) && hyp >= 0;
                    lemma_mul_div_le(if dx >= 0 { dx as int } else { -dx as int }, SCALE as int, hyp as int);
                    lemma_mul_div_le(if dy >= 0 { dy as int } else { -dy as int }, SCALE as int, hyp as int);
                    lemma_scaled_ratio_bound(dx as int, SCALE as int, hyp as int);
                    lemma_scaled_ratio_bound(dy as int, SCALE as int, hyp as int);
                }
                let nx: i64 = scaled_ratio(dx, SCALE as u64, hyp);
                let ny: i64 = scaled_ratio(dy, SCALE as u64, hyp);
                if chase_sq < ds {
                    ax = nx;
                    ay = ny;
                } else {
                    proof {
                        if rot.x == 1 {
                            assert(ny * rot.x == ny);
                        } else {
                            assert(ny * rot.x == -ny);
                        }
                        if rot.y == 1 {
                            assert(nx * rot.y == nx);
                        } else {
                            assert(nx * rot.y == -nx);
                        }
                    }
                    ax = ny * rot.x;
                    ay = nx * rot.y;
                }
            }
            proof {
                assert(ax as int == pursuit_accel_spec(ppos, mpos, rot, chase_sq as int).0);
                assert(ay as int == pursuit_accel_spec(ppos, mpos, rot, chase_sq as int).1);
            }
            world.accelerations[e] = Some(
                AccelerationComp { acceleration: Vector2D { x: ax, y: ay } },
            );
        }
        e = e + 1;
    }
}

/// The accumulated repulsion over `k` entities is bounded by `k * SCALE`.
pub proof fn lemma_repulse_sum_bound(
    flags: Seq<bool>,
    pos: Seq<Vector2D>,
    i: int,
    k: int,
    radius_sq: int,
)
    requires
        k >= 0,
    ensures
        -(k * (SCALE as int)) <= repulse_sum_spec(flags, pos, i, k, radius_sq).0 <= k * (
        SCALE as int),
        -(k * (SCALE as int)) <= repulse_sum_spec(flags, pos, i, k, radius_sq).1 <= k * (
        SCALE as int),
    decreases k,
{
    if k > 0 {
        lemma_repulse_sum_bound(flags, pos, i, k - 1, radius_sq);
        if k - 1 != i && flags[k - 1] {
            lemma_repulse_contrib_bound(pos[i], pos[k - 1], radius_sq);
        }
    }
}

/// With only the mobs `i` and `oth` flagged, the accumulated repulsion of
/// `i` over the first `k` entities collapses to the single contribution
/// from `oth` once `oth` has been passed.
proof fn lemma_sum_single(
    flags: Seq<bool>,
    pos: Seq<Vector2D>,
    i: int,
    oth: int,
    k: int,
    radius_sq: int,
)
    requires
        0 <= i < flags.len(),
        0 <= oth < flags.len(),
        i != oth,
        flags[oth],
        forall|j: int| 0 <= j < flags.len() && j != i && j != oth ==> !(#[trigger] flags[j]),
        k <= flags.len(),
        pos.len() == flags.len(),
    ensures
        repulse_sum_spec(flags, pos, i, k, radius_sq) == (if oth < k {
            repulse_contrib_spec(pos[i], pos[oth], radius_sq)
        } else {
            (0int, 0int)
        }),
    decreases k,
{
    if k > 0 {
        lemma_sum_single(flags, pos, i, oth, k - 1, radius_sq);
        let prev = repulse_sum_spec(flags, pos, i, k - 1, radius_sq);
        if k - 1 == oth {
            assert(prev == (0int, 0int));
            let c = repulse_contrib_spec(pos[i], pos[oth], radius_sq);
            assert(repulse_sum_spec(flags, pos, i, k, radius_sq) == (prev.0 + c.0, prev.1 + c.1));
            assert((prev.0 + c.0, prev.1 + c.1) == (c.0, c.1));
            assert(c == (c.0, c.1));
        } else if k - 1 == i {
            assert(repulse_sum_spec(flags, pos, i, k, radius_sq) == prev);
        } else {
            assert(!flags[k - 1]);
            assert(repulse_sum_spec(flags, pos, i, k, radius_sq) == prev);
        }
    }
}

/// Repulsion symmetry over a full pass: with exactly two mobs `a` and `b`
/// and no other influence, the repulsion accumulated by `a` over the whole
/// pass is the exact negation of the repulsion accumulated by `b`.
pub proof fn lemma_two_mob_pass_opposes(
    flags: Seq<bool>,
    pos: Seq<Vector2D>,
    a: int,
    b: int,
    radius_sq: int,
)
    requires
        0 <= a < flags.len(),
        0 <= b < flags.len(),
        a != b,
        flags[a],
        flags[b],
        forall|j: int| 0 <= j < flags.len() && j != a && j != b ==> !(#[trigger] flags[j]),
        pos.len() == flags.len(),
    ensures
        repulse_sum_spec(flags, pos, a, flags.len() as int, radius_sq).0
            == -repulse_sum_spec(flags, pos, b, flags.len() as int, radius_sq).0,
        repulse_sum_spec(flags, pos, a, flags.len() as int, radius_sq).1
            == -repulse_sum_spec(flags, pos, b, flags.len() as int, radius_sq).1,
{
    lemma_sum_single(flags, pos, a, b, flags.len() as int, radius_sq);
    lemma_sum_single(flags, pos, b, a, flags.len() as int, radius_sq);
    lemma_repulse_antisymmetric(pos[a], pos[b], radius_sq);
}

/// Every mob acceleration lies within `bound` on both axes.
pub open spec fn mob_accels_within(w: World, bound: int) -> bool {
    forall|i: int|
        0 <= i < w.num_entities() && #[trigger] w.is_mob(i) ==> -bound <= w.accel_of(i).x
            <= bound && -bound <= w.accel_of(i).y <= bound
}

/// The acceleration of mob `i` after a full repulsion pass over `w`: its
/// prior steering plus the accumulated pushes from every other mob.
pub open spec fn repulsed_accel_spec(w: World, i: int, radius_sq: int) -> (int, int) {
    let s = repulse_sum_spec(
        mob_flags(w),
        positions_seq(w),
        i,
        w.num_entities() as int,
        radius_sq,
    );
    (w.accel_of(i).x + s.0, w.accel_of(i).y + s.1)
}

/// The pairwise repulsion pass: for every ordered pair of distinct mobs,
/// the normalized push away from the other mob is accumulated (added, not
/// overwritten) into the first mob's acceleration. All pushes are
/// accumulated before any position changes; positions, sprites and tags
/// are untouched.
pub fn mob_repulsion(world: &mut World, radius_sq: i64)
    requires
        old(world).wf(),
        old(world).num_entities() <= MAX_ENTITIES,
        positions_within(*old(world), POS_LIMIT as int),
        mob_accels_within(*old(world), SCALE as int),
    ensures
        final(world).wf(),
        final(world).num_entities() == old(world).num_entities(),
        final(world).sprites@ == old(world).sprites@,
        final(world).players@ == old(world).players@,
        final(world).mobs@ == old(world).mobs@,
        final(world).movements@ == old(world).movements@,
        forall|i: int|
            0 <= i < old(world).num_entities() ==> final(world).accelerations@[i] == (
            if old(world).is_mob(i) {
                Some(
                    AccelerationComp {
                        acceleration: Vector2D {
                            x: repulsed_accel_spec(*old(world), i, radius_sq as int).0 as i64,
                            y: repulsed_accel_spec(*old(world), i, radius_sq as int).1 as i64,
                        },
                    },
                )
            } else {
                old(world).accelerations@[i]
            }),
{
    let n: usize = world.sprites.len();
    let ghost flags = mob_flags(*old(world));
    let ghost posq = positions_seq(*old(world));
    let mut e: usize = 0;
    while e < n
        invariant
            world.wf(),
            n == world.num_entities(),
            e <= n,
            n <= MAX_ENTITIES,
            world.sprites@ == old(world).sprites@,
            world.players@ == old(world).players@,
            world.mobs@ == old(world).mobs@,
            world.movements@ == old(world).movements@,
            positions_within(*old(world), POS_LIMIT as int),
            mob_accels_within(*old(world), SCALE as int),
            flags == mob_flags(*old(world)),
            posq == positions_seq(*old(world)),
            forall|i: int|
                0 <= i < n ==> (world.accelerations@[i] is Some) == (
                old(world).accelerations@[i] is Some),
            forall|i: int|
                0 <= i < e ==> world.accelerations@[i] == (
                if old(world).is_mob(i) {
                    Some(
                        AccelerationComp {
                            acceleration: Vector2D {
                                x: repulsed_accel_spec(*old(world), i, radius_sq as int).0 as i64,
                                y: repulsed_accel_spec(*old(world), i, radius_sq as int).1 as i64,
                            },
                        },
                    )
                } else {
                    old(world).accelerations@[i]
                }),
            forall|i: int|
                e <= i < n ==> world.accelerations@[i] == old(world).accelerations@[i],
        decreases n - e,
    {
        if world.mobs[e].is_some() && world.accelerations[e].is_some()
            && world.movements[e].is_some() {
            proof {
                assert(old(world).is_mob(e as int));
                assert(old(world).movements@[e as int] is Some);
            }
            let pos_e: Vector2D = world.movements[e].unwrap().position;
            let mut acc: Vector2D = world.accelerations[e].unwrap().acceleration;
            proof {
                assert(posq[e as int] == pos_e);
                assert(acc == old(world).accel_of(e as int));
            }
            let mut j: usize = 0;
            while j < n
                invariant
                    world.wf(),
                    n == world.num_entities(),
                    j <= n,
                    e < n,
                    n <= MAX_ENTITIES,
                    world.sprites@ == old(world).sprites@,
                    world.players@ == old(world).players@,
                    world.mobs@ == old(world).mobs@,
                    world.movements@ == old(world).movements@,
                    positions_within(*old(world), POS_LIMIT as int),
                    mob_accels_within(*old(world), SCALE as int),
                    flags == mob_flags(*old(world)),
                    posq == positions_seq(*old(world)),
                    old(world).is_mob(e as int),
                    pos_e == old(world).position_of(e as int),
                    posq[e as int] == pos_e,
                    acc.x as int == old(world).accel_of(e as int).x + repulse_sum_spec(
                        flags,
                        posq,
                        e as int,
                        j as int,
                        radius_sq as int,
                    ).0,
                    acc.y as int == old(world).accel_of(e as int).y + repulse_sum_spec(
                        flags,
                        posq,
                        e as int,
                        j as int,
                        radius_sq as int,
                    ).1,
                    forall|i: int|
                        0 <= i < n ==> (world.accelerations@[i] is Some) == (
                        old(world).accelerations@[i] is Some),
                    forall|i: int|
                        0 <= i < e ==> world.accelerations@[i] == (
                        if old(world).is_mob(i) {
                            Some(
                                AccelerationComp {
                                    acceleration: Vector2D {
                                        x: repulsed_accel_spec(
                                            *old(world),
                                            i,
                                            radius_sq as int,
                                        ).0 as i64,
                                        y: repulsed_accel_spec(
                                            *old(world),
                                            i,
                                            radius_sq as int,
                                        ).1 as i64,
                                    },
                                },
                            )
                        } else {
                            old(world).accelerations@[i]
                        }),
                    forall|i: int|
                        e <= i < n ==> world.accelerations@[i] == old(world).accelerations@[i],
                decreases n - j,
            {
                proof {
                    lemma_repulse_sum_bound(flags, posq, e as int, j as int, radius_sq as int);
                    assert(mob_accels_within(*old(world), SCALE as int));
                    assert(old(world).is_mob(e as int));
                }
                if j != e && world.mobs[j].is_some() && world.accelerations[j].is_some()
                    && world.movements[j].is_some() {
                    proof {
                        assert(old(world).is_mob(j as int));
                        assert(old(world).movements@[j as int] is Some);
                        assert(flags[j as int]);
                    }
                    let pos_j: Vector2D = world.movements[j].unwrap().position;
                    proof {
                        assert(posq[j as int] == pos_j);
                    }
                    let dx: i64 = pos_e.x - pos_j.x;
                    let dy: i64 = pos_e.y - pos_j.y;
                    proof {
                        assert(0 <= dx * dx <= 4_000_000_000_000_000_000) by (nonlinear_arith)
                            requires -2_000_000_000 <= dx <= 2_000_000_000;
                        assert(0 <= dy * dy <= 4_000_000_000_000_000_000) by (nonlinear_arith)
                            requires -2_000_000_000 <= dy <= 2_000_000_000;
                    }
                    let ds: i64 = dx * dx + dy * dy;
                    let ghost c = repulse_contrib_spec(pos_e, pos_j, radius_sq as int);
                    let mut rx: i64 = 0;
                    let mut ry: i64 = 0;
                    if ds < radius_sq {
                        let hyp: u64 = isqrt64(ds as u64);
                        if hyp != 0 {
                            proof {
                                assert(-(hyp as int) <= dx <= hyp as int) by (nonlinear_arith)
                                    requires
                                        dx * dx <= ds && (ds as int) < (hyp + 1) * (hyp + 1)
                                            && hyp >= 0;
                                assert(-(hyp as int) <= dy <= hyp as int) by (nonlinear_arith)
                                    requires
                                        dy * dy <= ds && (ds as int) < (hyp + 1) * (hyp + 1)
                                            && hyp >= 0;
                                lemma_mul_div_le(
                                    if dx >= 0 { dx as int } else { -dx as int },
                                    SCALE as int,
                                    hyp as int,
                                );
                                lemma_mul_div_le(
                                    if dy >= 0 { dy as int } else { -dy as int },
                                    SCALE as int,
                                    hyp as int,
                                );
                                lemma_scaled_ratio_bound(dx as int, SCALE as int, hyp as int);
                                lemma_scaled_ratio_bound(dy as int, SCALE as int, hyp as int);
                            }
                            rx = scaled_ratio(dx, SCALE as u64, hyp);
                            ry = scaled_ratio(dy, SCALE as u64, hyp);
                        } else {
                            proof {
                                assert(norm_scaled_spec(dx as int, dy as int) == (0int, 0int));
                            }
                        }
                    }
                    proof {
                        assert(rx as int == c.0 && ry as int == c.1);
                        lemma_repulse_contrib_bound(pos_e, pos_j, radius_sq as int);
                        assert(repulse_sum_spec(flags, posq, e as int, j as int + 1, radius_sq as int).0
                            == repulse_sum_spec(flags, posq, e as int, j as int, radius_sq as int).0 + c.0);
                        assert(repulse_sum_spec(flags, posq, e as int, j as int + 1, radius_sq as int).1
                            == repulse_sum_spec(flags, posq, e as int, j as int, radius_sq as int).1 + c.1);
                    }
                    acc.x = acc.x + rx;
                    acc.y = acc.y + ry;
                } else {
                    proof {
                        if j != e {
                            assert(!(world.mobs@[j as int] is Some
                                && world.accelerations@[j as int] is Some
                                && world.movements@[j as int] is Some));
                            assert(!flags[j as int]);
                        }
                        assert(repulse_sum_spec(flags, posq, e as int, j as int + 1, radius_sq as int)
                            == repulse_sum_spec(flags, posq, e as int, j as int, radius_sq as int));
                    }
                }
                j = j + 1;
            }
            world.accelerations[e] = Some(AccelerationComp { acceleration: acc });
        }
        e = e + 1;
    }
}

} // verus!
