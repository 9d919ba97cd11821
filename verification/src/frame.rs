//! The frame scheduler: the per-frame pipeline (input, pursuit, repulsion,
//! integration, render ordering) in its required order, and the pure state
//! of the frame-rate cap.
//!
//! The wall clock lives with the caller: it feeds elapsed times in and
//! performs the capping sleep itself.

use vstd::prelude::*;
use crate::avoid::{
    lemma_pursuit_accel_bound, lemma_repulse_sum_bound, mob_accels_within, mob_flags,
    mob_pursuit, mob_repulsion, positions_seq, pursuit_accel_spec, repulse_sum_spec,
    repulsed_accel_spec,
};
use crate::components::{mob_wf, AccelerationComp, MovementComp, SpriteComp};
use crate::geom::Point2D;
use crate::input::{input_accel_spec, lemma_input_accel_values, player_input, InputState};
use crate::integrate::{delta_spec, integrate};
use crate::math::SCALE;
use crate::render::{build_draw_list, draw_cmds_spec, sorted_by_key, DrawCmd};
use crate::vec2::Vector2D;
use crate::world::{accels_within, positions_within, World};
use crate::{ACC_LIMIT, FRAME_POS_LIMIT, MAX_ENTITIES, POS_LIMIT, SPEED_DT_LIMIT};

verus! {

/// Movement speed constant, in pixels per second.
pub const VEL: u64 = 190;

/// Default squared interaction distance: 40 pixels, squared, in
/// milli-pixel units; serves as both chase threshold and repulsion radius.
pub const DIS: i64 = 1_600_000_000;

/// Start-of-run tuning of the simulation.
#[derive(Clone, Copy, Debug, PartialEq, Eq, Structural)]
pub struct Config {
    /// Movement speed, pixels per second.
    pub vel: u64,
    /// Squared chase threshold, milli-pixel units squared.
    pub chase_threshold_sq: i64,
    /// Squared repulsion radius, milli-pixel units squared.
    pub repulsion_radius_sq: i64,
}

impl Default for Config {
    /// The default tuning: speed `VEL`, both distances at `DIS`.
    fn default() -> (c: Config)
        ensures
            c.vel == VEL,
            c.chase_threshold_sq == DIS,
            c.repulsion_radius_sq == DIS,
    {
        Config { vel: VEL, chase_threshold_sq: DIS, repulsion_radius_sq: DIS }
    }
}

/// The pure state of the frame-rate cap: target frame duration in
/// milliseconds, the target rate, and the elapsed time of the last frame in
/// microseconds.
pub struct FpsCapDeltaTime {
    pub frame_delay: u64,
    pub set_fps: u64,
    pub dt: u64,
}

impl FpsCapDeltaTime {
    /// A cap at the given rate (frames per second, at least one).
    pub fn new(fps: u64) -> (s: FpsCapDeltaTime)
        requires
            1 <= fps,
        ensures
            s.frame_delay == 1000u64 / fps,
            s.set_fps == fps,
            s.dt == 0,
    {
        FpsCapDeltaTime { frame_delay: 1000 / fps, set_fps: fps, dt: 0 }
    }

    /// Starts a frame: records the wall time elapsed since the previous
    /// frame started, in microseconds.
    pub fn start(&mut self, elapsed_us: u64)
        ensures
            final(self).dt == elapsed_us,
            final(self).frame_delay == old(self).frame_delay,
            final(self).set_fps == old(self).set_fps,
    {
        self.dt = elapsed_us;
    }

    /// Ends a frame: how many milliseconds remain of the frame budget, to
    /// be slept by the caller.
    pub fn end(&self, cap_frame_elapsed_ms: u64) -> (sleep_ms: u64)
        ensures
            sleep_ms == (if cap_frame_elapsed_ms < self.frame_delay {
                (self.frame_delay - cap_frame_elapsed_ms) as u64
            } else {
                0u64
            }),
    {
        if cap_frame_elapsed_ms < self.frame_delay {
            self.frame_delay - cap_frame_elapsed_ms
        } else {
            0
        }
    }
}

/// The acceleration each entity carries into integration: a mob gets its
/// pursuit/orbit steering plus the accumulated repulsion of the full
/// pairwise pass; the steerable player gets the input intent; anything else
/// keeps its prior acceleration.
pub open spec fn frame_accel_spec(
    w: World,
    pla: int,
    inp: InputState,
    cfg: Config,
    i: int,
) -> (int, int) {
    if w.is_mob(i) {
        let p = pursuit_accel_spec(
            w.position_of(pla),
            w.position_of(i),
            w.rot_of(i),
            cfg.chase_threshold_sq as int,
        );
        let s = repulse_sum_spec(
            mob_flags(w),
            positions_seq(w),
            i,
            w.num_entities() as int,
            cfg.repulsion_radius_sq as int,
        );
        (p.0 + s.0, p.1 + s.1)
    } else if w.is_player_ctrl(i) {
        input_accel_spec(inp)
    } else {
        (w.accel_of(i).x as int, w.accel_of(i).y as int)
    }
}

/// One whole frame: input, pursuit/orbit, pairwise repulsion, integration,
/// then the sorted draw list of the finished state. All mob accelerations
/// are fully accumulated before the integrator reads any of them, the input
/// intent is written before the avoidance pass, and rendering sees only
/// finalized positions.
pub fn run_frame(
    world: &mut World,
    pla: usize,
    inp: InputState,
    cfg: Config,
    dt_us: u64,
) -> (cmds: Vec<DrawCmd>)
    requires
        old(world).wf(),
        old(world).num_entities() <= MAX_ENTITIES,
        pla < old(world).num_entities(),
        old(world).movements@[pla as int] is Some,
        positions_within(*old(world), FRAME_POS_LIMIT as int),
        accels_within(*old(world), SCALE as int),
        cfg.vel * dt_us <= SPEED_DT_LIMIT,
    ensures
        final(world).wf(),
        final(world).num_entities() == old(world).num_entities(),
        final(world).players@ == old(world).players@,
        final(world).mobs@ == old(world).mobs@,
        positions_within(*final(world), POS_LIMIT as int),
        forall|i: int|
            0 <= i < old(world).num_entities() ==> final(world).movements@[i] == (
            if old(world).is_kinematic(i) {
                Some(
                    MovementComp {
                        position: Vector2D {
                            x: (old(world).position_of(i).x + delta_spec(
                                frame_accel_spec(*old(world), pla as int, inp, cfg, i).0,
                                cfg.vel as int,
                                dt_us as int,
                            )) as i64,
                            y: (old(world).position_of(i).y + delta_spec(
                                frame_accel_spec(*old(world), pla as int, inp, cfg, i).1,
                                cfg.vel as int,
                                dt_us as int,
                            )) as i64,
                        },
                    },
                )
            } else {
                old(world).movements@[i]
            }),
        forall|i: int|
            0 <= i < old(world).num_entities() ==> final(world).accelerations@[i] == (
            if old(world).is_kinematic(i) {
                Some(AccelerationComp { acceleration: Vector2D { x: 0, y: 0 } })
            } else if old(world).is_mob(i) || old(world).is_player_ctrl(i) {
                Some(
                    AccelerationComp {
                        acceleration: Vector2D {
                            x: frame_accel_spec(*old(world), pla as int, inp, cfg, i).0 as i64,
                            y: frame_accel_spec(*old(world), pla as int, inp, cfg, i).1 as i64,
                        },
                    },
                )
            } else {
                old(world).accelerations@[i]
            }),
        forall|i: int|
            0 <= i < old(world).num_entities() ==> final(world).sprites@[i] == (
            if old(world).is_kinematic(i) {
                Some(
                    SpriteComp {
                        srs: old(world).sprites@[i]->Some_0.srs,
                        pos: Point2D {
                            x: crate::math::scaled_ratio_spec(
                                final(world).position_of(i).x as int,
                                1,
                                SCALE as int,
                            ) as i32,
                            y: crate::math::scaled_ratio_spec(
                                final(world).position_of(i).y as int,
                                1,
                                SCALE as int,
                            ) as i32,
                        },
                    },
                )
            } else {
                old(world).sprites@[i]
            }),
        sorted_by_key(cmds@),
        cmds@.to_multiset() == draw_cmds_spec(
            *final(world),
            final(world).num_entities() as int,
        ).to_multiset(),
{
    let ghost w0 = *old(world);
    let ghost n = w0.num_entities() as int;

    player_input(world, inp);
    let ghost w1 = *world;
    proof {
        assert forall|i: int|
            0 <= i < n && (#[trigger] w1.movements@[i]) is Some implies -(FRAME_POS_LIMIT as int)
            <= w1.position_of(i).x <= FRAME_POS_LIMIT as int && -(FRAME_POS_LIMIT as int)
            <= w1.position_of(i).y <= FRAME_POS_LIMIT as int by {
            assert(w1.movements@[i] == w0.movements@[i]);
        }
        assert(positions_within(w1, FRAME_POS_LIMIT as int));
        assert(positions_within(w1, POS_LIMIT as int));
        assert(w1.movements@[pla as int] is Some);
        // the pass only rewrites attached accelerations, so attachment is
        // unchanged everywhere
        assert forall|i: int| 0 <= i < n implies (#[trigger] w1.accelerations@[i]) is Some == (
            w0.accelerations@[i] is Some) by {
            assert(w1.accelerations@[i] == (if w0.is_player_ctrl(i) {
                Some(
                    AccelerationComp {
                        acceleration: Vector2D {
                            x: input_accel_spec(inp).0 as i64,
                            y: input_accel_spec(inp).1 as i64,
                        },
                    },
                )
            } else {
                w0.accelerations@[i]
            }));
        }
    }

    mob_pursuit(world, pla, cfg.chase_threshold_sq);
    let ghost w2 = *world;
    proof {
        assert forall|i: int|
            0 <= i < n && (#[trigger] w2.movements@[i]) is Some implies -(FRAME_POS_LIMIT as int)
            <= w2.position_of(i).x <= FRAME_POS_LIMIT as int && -(FRAME_POS_LIMIT as int)
            <= w2.position_of(i).y <= FRAME_POS_LIMIT as int by {
            assert(w2.movements@[i] == w0.movements@[i]);
        }
        assert(positions_within(w2, FRAME_POS_LIMIT as int));
        assert(positions_within(w2, POS_LIMIT as int));
        // after pursuit every mob acceleration is a pursuit value, bounded
        // by SCALE
        assert forall|i: int| 0 <= i < n && #[trigger] w2.is_mob(i) implies -(SCALE as int)
            <= w2.accel_of(i).x <= SCALE as int && -(SCALE as int) <= w2.accel_of(i).y
            <= SCALE as int by {
            assert(w1.is_mob(i));
            assert(mob_wf(w1.mobs@[i]->Some_0));
            lemma_pursuit_accel_bound(
                w1.position_of(pla as int),
                w1.position_of(i),
                w1.rot_of(i),
                cfg.chase_threshold_sq as int,
            );
        }
        assert(mob_accels_within(w2, SCALE as int));
    }

    mob_repulsion(world, cfg.repulsion_radius_sq);
    let ghost w3 = *world;
    proof {
        // attachment is unchanged by all three passes
        assert forall|i: int| 0 <= i < n implies (#[trigger] w3.accelerations@[i]) is Some == (
            w0.accelerations@[i] is Some) by {
            assert(w2.accelerations@[i] is Some == (w1.accelerations@[i] is Some));
            assert(w1.accelerations@[i] is Some == (w0.accelerations@[i] is Some));
        }
        // the mob flags and positions the repulsion pass summed over are
        // those of the pre-frame state
        assert(mob_flags(w2) =~= mob_flags(w0)) by {
            assert forall|i: int| 0 <= i < n implies w2.is_mob(i) == w0.is_mob(i) by {
                assert(w2.accelerations@[i] is Some == (w1.accelerations@[i] is Some));
                assert(w1.accelerations@[i] is Some == (w0.accelerations@[i] is Some));
            }
        }
        assert(positions_seq(w2) =~= positions_seq(w0));
        // accelerations going into integration are bounded
        assert forall|i: int|
            0 <= i < n && (#[trigger] w3.accelerations@[i]) is Some implies -(ACC_LIMIT as int)
            <= w3.accel_of(i).x <= ACC_LIMIT as int && -(ACC_LIMIT as int) <= w3.accel_of(i).y
            <= ACC_LIMIT as int by {
            if w2.is_mob(i) {
                lemma_repulse_sum_bound(
                    mob_flags(w2),
                    positions_seq(w2),
                    i,
                    n,
                    cfg.repulsion_radius_sq as int,
                );
                assert(w2.is_mob(i));
            } else if w0.is_player_ctrl(i) {
                lemma_input_accel_values(inp);
                assert(w3.accelerations@[i] == w2.accelerations@[i]);
                assert(w2.accelerations@[i] == w1.accelerations@[i]);
            } else {
                assert(w3.accelerations@[i] == w2.accelerations@[i]);
                assert(w2.accelerations@[i] == w1.accelerations@[i]);
                assert(w1.accelerations@[i] == w0.accelerations@[i]);
                assert(w0.accelerations@[i] is Some);
            }
        }
        assert(accels_within(w3, ACC_LIMIT as int));
        assert forall|i: int|
            0 <= i < n && (#[trigger] w3.movements@[i]) is Some implies -(FRAME_POS_LIMIT as int)
            <= w3.position_of(i).x <= FRAME_POS_LIMIT as int && -(FRAME_POS_LIMIT as int)
            <= w3.position_of(i).y <= FRAME_POS_LIMIT as int by {
            assert(w3.movements@[i] == w0.movements@[i]);
        }
        assert(positions_within(w3, FRAME_POS_LIMIT as int));
        // the acceleration each entity carries into integration is the
        // frame acceleration of the pre-frame state
        assert forall|i: int| 0 <= i < n && (#[trigger] w3.accelerations@[i]) is Some implies
            w3.accel_of(i).x as int == frame_accel_spec(w0, pla as int, inp, cfg, i).0
                && w3.accel_of(i).y as int == frame_accel_spec(w0, pla as int, inp, cfg, i).1 by {
            lemma_frame_accel(w0, w1, w2, w3, pla as int, inp, cfg, i);
        }
    }

    integrate(world, cfg.vel, dt_us);
    proof {
        let wf_ = *world;
        assert forall|i: int| 0 <= i < n implies #[trigger] wf_.movements@[i] == (
            if w0.is_kinematic(i) {
                Some(
                    MovementComp {
                        position: Vector2D {
                            x: (w0.position_of(i).x + delta_spec(
                                frame_accel_spec(w0, pla as int, inp, cfg, i).0,
                                cfg.vel as int,
                                dt_us as int,
                            )) as i64,
                            y: (w0.position_of(i).y + delta_spec(
                                frame_accel_spec(w0, pla as int, inp, cfg, i).1,
                                cfg.vel as int,
                                dt_us as int,
                            )) as i64,
                        },
                    },
                )
            } else {
                w0.movements@[i]
            }) by {
            assert(w3.is_kinematic(i) == w0.is_kinematic(i)) by {
                assert(w3.accelerations@[i] is Some == (w0.accelerations@[i] is Some));
            }
            if w3.is_kinematic(i) {
                assert(w3.accelerations@[i] is Some);
                assert(w3.position_of(i) == w0.position_of(i));
            } else {
                assert(wf_.movements@[i] == w3.movements@[i]);
                assert(w3.movements@[i] == w0.movements@[i]);
            }
        }
        assert forall|i: int| 0 <= i < n implies #[trigger] wf_.accelerations@[i] == (
            if w0.is_kinematic(i) {
                Some(AccelerationComp { acceleration: Vector2D { x: 0, y: 0 } })
            } else if w0.is_mob(i) || w0.is_player_ctrl(i) {
                Some(
                    AccelerationComp {
                        acceleration: Vector2D {
                            x: frame_accel_spec(w0, pla as int, inp, cfg, i).0 as i64,
                            y: frame_accel_spec(w0, pla as int, inp, cfg, i).1 as i64,
                        },
                    },
                )
            } else {
                w0.accelerations@[i]
            }) by {
            assert(w3.is_kinematic(i) == w0.is_kinematic(i)) by {
                assert(w3.accelerations@[i] is Some == (w0.accelerations@[i] is Some));
            }
            if !w0.is_kinematic(i) {
                assert(wf_.accelerations@[i] == w3.accelerations@[i]);
                if w0.is_mob(i) || w0.is_player_ctrl(i) {
                    assert(w3.accelerations@[i] is Some);
                } else {
                    assert(w3.accelerations@[i] == w2.accelerations@[i]);
                    assert(w2.accelerations@[i] == w1.accelerations@[i]);
                    assert(w1.accelerations@[i] == w0.accelerations@[i]);
                }
            }
        }
        assert forall|i: int| 0 <= i < n implies #[trigger] wf_.sprites@[i] == (
            if w0.is_kinematic(i) {
                Some(
                    SpriteComp {
                        srs: w0.sprites@[i]->Some_0.srs,
                        pos: Point2D {
                            x: crate::math::scaled_ratio_spec(
                                wf_.position_of(i).x as int,
                                1,
                                SCALE as int,
                            ) as i32,
                            y: crate::math::scaled_ratio_spec(
                                wf_.position_of(i).y as int,
                                1,
                                SCALE as int,
                            ) as i32,
                        },
                    },
                )
            } else {
                w0.sprites@[i]
            }) by {
            assert(w3.is_kinematic(i) == w0.is_kinematic(i)) by {
                assert(w3.accelerations@[i] is Some == (w0.accelerations@[i] is Some));
            }
            assert(w3.sprites@[i] == w0.sprites@[i]);
        }
    }
    let cmds = build_draw_list(world);
    cmds
}

/// Relates the acceleration an entity carries after the three steering
/// passes to the frame acceleration of the pre-frame state.
proof fn lemma_frame_accel(
    w0: World,
    w1: World,
    w2: World,
    w3: World,
    pla: int,
    inp: InputState,
    cfg: Config,
    i: int,
)
    requires
        w0.wf(),
        0 <= i < w0.num_entities(),
        0 <= pla < w0.num_entities(),
        w0.num_entities() <= MAX_ENTITIES,
        w0.movements@[pla] is Some,
        w0.accelerations@[i] is Some ==> w3.accelerations@[i] is Some,
        // pass one: input
        w1.movements@ == w0.movements@,
        w1.mobs@ == w0.mobs@,
        w1.players@ == w0.players@,
        w1.num_entities() == w0.num_entities(),
        w1.accelerations@[i] == (if w0.is_player_ctrl(i) {
            Some(
                AccelerationComp {
                    acceleration: Vector2D {
                        x: input_accel_spec(inp).0 as i64,
                        y: input_accel_spec(inp).1 as i64,
                    },
                },
            )
        } else {
            w0.accelerations@[i]
        }),
        w1.accelerations@[i] is Some == (w0.accelerations@[i] is Some),
        // pass two: pursuit
        w2.movements@ == w1.movements@,
        w2.mobs@ == w1.mobs@,
        w2.players@ == w1.players@,
        w2.num_entities() == w1.num_entities(),
        w2.accelerations@[i] == (if w1.is_mob(i) {
            Some(
                AccelerationComp {
                    acceleration: Vector2D {
                        x: pursuit_accel_spec(
                            w1.position_of(pla),
                            w1.position_of(i),
                            w1.rot_of(i),
                            cfg.chase_threshold_sq as int,
                        ).0 as i64,
                        y: pursuit_accel_spec(
                            w1.position_of(pla),
                            w1.position_of(i),
                            w1.rot_of(i),
                            cfg.chase_threshold_sq as int,
                        ).1 as i64,
                    },
                },
            )
        } else {
            w1.accelerations@[i]
        }),
        // pass three: repulsion
        w3.movements@ == w2.movements@,
        w3.mobs@ == w2.mobs@,
        w3.players@ == w2.players@,
        w3.num_entities() == w2.num_entities(),
        w3.accelerations@[i] == (if w2.is_mob(i) {
            Some(
                AccelerationComp {
                    acceleration: Vector2D {
                        x: repulsed_accel_spec(w2, i, cfg.repulsion_radius_sq as int).0 as i64,
                        y: repulsed_accel_spec(w2, i, cfg.repulsion_radius_sq as int).1 as i64,
                    },
                },
            )
        } else {
            w2.accelerations@[i]
        }),
        mob_flags(w2) == mob_flags(w0),
        positions_seq(w2) == positions_seq(w0),
        w3.accelerations@[i] is Some,
    ensures
        w3.accel_of(i).x as int == frame_accel_spec(w0, pla, inp, cfg, i).0,
        w3.accel_of(i).y as int == frame_accel_spec(w0, pla, inp, cfg, i).1,
{
    assert(w1.is_mob(i) == w0.is_mob(i));
    assert(w2.is_mob(i) == w0.is_mob(i)) by {
        assert(w2.accelerations@[i] is Some == (w1.accelerations@[i] is Some));
    }
    if w0.is_mob(i) {
        assert(mob_wf(w0.mobs@[i]->Some_0));
        let p = pursuit_accel_spec(
            w0.position_of(pla),
            w0.position_of(i),
            w0.rot_of(i),
            cfg.chase_threshold_sq as int,
        );
        assert(w1.position_of(pla) == w0.position_of(pla));
        assert(w1.position_of(i) == w0.position_of(i));
        assert(w1.rot_of(i) == w0.rot_of(i));
        lemma_pursuit_accel_bound(
            w0.position_of(pla),
            w0.position_of(i),
            w0.rot_of(i),
            cfg.chase_threshold_sq as int,
        );
        assert(w2.accel_of(i).x as int == p.0);
        assert(w2.accel_of(i).y as int == p.1);
        let s = repulse_sum_spec(
            mob_flags(w0),
            positions_seq(w0),
            i,
            w0.num_entities() as int,
            cfg.repulsion_radius_sq as int,
        );
        lemma_repulse_sum_bound(
            mob_flags(w0),
            positions_seq(w0),
            i,
            w0.num_entities() as int,
            cfg.repulsion_radius_sq as int,
        );
        assert(repulsed_accel_spec(w2, i, cfg.repulsion_radius_sq as int).0 == p.0 + s.0);
        assert(repulsed_accel_spec(w2, i, cfg.repulsion_radius_sq as int).1 == p.1 + s.1);
        assert(-(ACC_LIMIT as int) <= p.0 + s.0 <= ACC_LIMIT as int);
        assert(-(ACC_LIMIT as int) <= p.1 + s.1 <= ACC_LIMIT as int);
    } else if w0.is_player_ctrl(i) {
        lemma_input_accel_values(inp);
        assert(w3.accelerations@[i] == w2.accelerations@[i]);
        assert(w2.accelerations@[i] == w1.accelerations@[i]);
    } else {
        assert(w3.accelerations@[i] == w2.accelerations@[i]);
        assert(w2.accelerations@[i] == w1.accelerations@[i]);
        assert(w1.accelerations@[i] == w0.accelerations@[i]);
    }
}

} // verus!
