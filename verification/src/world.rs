//! The component store: a typed table per component kind, indexed by entity
//! identifier, with structural queries over positive and negative tag
//! filters.
//!
//! Entity identifiers are indices into the tables, handed out in creation
//! order and never reused, so the insertion order of matching entities is the
//! ascending order of their identifiers.

use vstd::prelude::*;
use crate::components::{
    mob_wf, AccelerationComp, MobComp, MovementComp, PlayerComp, SpriteComp,
};
use crate::vec2::Vector2D;

verus! {

/// Every attached position lies within `bound` on both axes.
pub open spec fn positions_within(w: World, bound: int) -> bool {
    forall|i: int|
        0 <= i < w.num_entities() && (#[trigger] w.movements@[i]) is Some ==> -bound
            <= w.position_of(i).x <= bound && -bound <= w.position_of(i).y <= bound
}

/// Every attached acceleration lies within `bound` on both axes.
pub open spec fn accels_within(w: World, bound: int) -> bool {
    forall|i: int|
        0 <= i < w.num_entities() && (#[trigger] w.accelerations@[i]) is Some ==> -bound
            <= w.accel_of(i).x <= bound && -bound <= w.accel_of(i).y <= bound
}

/// Names one component table, for use in query filters.
#[derive(Clone, Copy, Debug, PartialEq, Eq, Structural)]
pub enum CompKind {
    Sprite,
    Player,
    Mob,
    Acceleration,
    Movement,
}

/// The entity-component store. All tables always have the same length: one
/// slot per entity ever created.
pub struct World {
    pub sprites: Vec<Option<SpriteComp>>,
    pub players: Vec<Option<PlayerComp>>,
    pub mobs: Vec<Option<MobComp>>,
    pub accelerations: Vec<Option<AccelerationComp>>,
    pub movements: Vec<Option<MovementComp>>,
}

impl World {
    /// How many entities have been created.
    pub open spec fn num_entities(self) -> nat {
        self.sprites@.len()
    }

    /// Well-formedness: equal table lengths, and every attached mob tag
    /// carries a valid orbit direction.
    pub open spec fn wf(self) -> bool {
        &&& self.players@.len() == self.num_entities()
        &&& self.mobs@.len() == self.num_entities()
        &&& self.accelerations@.len() == self.num_entities()
        &&& self.movements@.len() == self.num_entities()
        &&& forall|i: int|
            0 <= i < self.num_entities() && #[trigger] self.mobs@[i] is Some ==> mob_wf(
                self.mobs@[i]->Some_0,
            )
    }

    /// Whether entity `i` carries the component of kind `k`.
    pub open spec fn has_comp(self, k: CompKind, i: int) -> bool {
        match k {
            CompKind::Sprite => self.sprites@[i] is Some,
            CompKind::Player => self.players@[i] is Some,
            CompKind::Mob => self.mobs@[i] is Some,
            CompKind::Acceleration => self.accelerations@[i] is Some,
            CompKind::Movement => self.movements@[i] is Some,
        }
    }

    /// A mob as the avoidance systems see it: mob tag, acceleration and
    /// movement all present.
    pub open spec fn is_mob(self, i: int) -> bool {
        &&& self.mobs@[i] is Some
        &&& self.accelerations@[i] is Some
        &&& self.movements@[i] is Some
    }

    /// A steerable player entity: player tag and acceleration present.
    pub open spec fn is_player_ctrl(self, i: int) -> bool {
        &&& self.players@[i] is Some
        &&& self.accelerations@[i] is Some
    }

    /// An entity the integrator advances: acceleration, sprite and movement
    /// all present.
    pub open spec fn is_kinematic(self, i: int) -> bool {
        &&& self.accelerations@[i] is Some
        &&& self.sprites@[i] is Some
        &&& self.movements@[i] is Some
    }

    /// The kinematic position of entity `i` (meaningful when a movement
    /// component is attached).
    pub open spec fn position_of(self, i: int) -> Vector2D {
        self.movements@[i]->Some_0.position
    }

    /// The acceleration of entity `i` (meaningful when attached).
    pub open spec fn accel_of(self, i: int) -> Vector2D {
        self.accelerations@[i]->Some_0.acceleration
    }

    /// The orbit direction of mob `i` (meaningful when the mob tag is
    /// attached).
    pub open spec fn rot_of(self, i: int) -> Vector2D {
        self.mobs@[i]->Some_0.rotate_dir
    }

    /// An empty store.
    pub fn new() -> (w: World)
        ensures
            w.wf(),
            w.num_entities() == 0,
    {
        World {
            sprites: Vec::new(),
            players: Vec::new(),
            mobs: Vec::new(),
            accelerations: Vec::new(),
            movements: Vec::new(),
        }
    }

    /// Allocates a fresh entity identifier with no components attached.
    /// Identifiers are never reused while the store is alive.
    pub fn create_entity(&mut self) -> (e: usize)
        requires
            old(self).wf(),
            old(self).num_entities() < usize::MAX,
        ensures
            final(self).wf(),
            e == old(self).num_entities(),
            final(self).num_entities() == old(self).num_entities() + 1,
            final(self).sprites@ == old(self).sprites@.push(None),
            final(self).players@ == old(self).players@.push(None),
            final(self).mobs@ == old(self).mobs@.push(None),
            final(self).accelerations@ == old(self).accelerations@.push(None),
            final(self).movements@ == old(self).movements@.push(None),
    {
        let e: usize = self.sprites.len();
        self.sprites.push(None);
        self.players.push(None);
        self.mobs.push(None);
        self.accelerations.push(None);
        self.movements.push(None);
        e
    }

    /// Attaches (or replaces) the sprite of entity `e`.
    pub fn attach_sprite(&mut self, e: usize, c: SpriteComp)
        requires
            old(self).wf(),
            e < old(self).num_entities(),
        ensures
            final(self).wf(),
            final(self).sprites@ == old(self).sprites@.update(e as int, Some(c)),
            final(self).players@ == old(self).players@,
            final(self).mobs@ == old(self).mobs@,
            final(self).accelerations@ == old(self).accelerations@,
            final(self).movements@ == old(self).movements@,
    {
        self.sprites[e] = Some(c);
    }

    /// Attaches (or replaces) the player tag of entity `e`.
    pub fn attach_player(&mut self, e: usize, c: PlayerComp)
        requires
            old(self).wf(),
            e < old(self).num_entities(),
        ensures
            final(self).wf(),
            final(self).players@ == old(self).players@.update(e as int, Some(c)),
            final(self).sprites@ == old(self).sprites@,
            final(self).mobs@ == old(self).mobs@,
            final(self).accelerations@ == old(self).accelerations@,
            final(self).movements@ == old(self).movements@,
    {
        self.players[e] = Some(c);
    }

    /// Attaches (or replaces) the mob tag of entity `e`. The orbit direction
    /// must be a valid sign pattern.
    pub fn attach_mob(&mut self, e: usize, c: MobComp)
        requires
            old(self).wf(),
            e < old(self).num_entities(),
            mob_wf(c),
        ensures
            final(self).wf(),
            final(self).mobs@ == old(self).mobs@.update(e as int, Some(c)),
            final(self).sprites@ == old(self).sprites@,
            final(self).players@ == old(self).players@,
            final(self).accelerations@ == old(self).accelerations@,
            final(self).movements@ == old(self).movements@,
    {
        self.mobs[e] = Some(c);
    }

    /// Attaches (or replaces) the acceleration of entity `e`.
    pub fn attach_acceleration(&mut self, e: usize, c: AccelerationComp)
        requires
            old(self).wf(),
            e < old(self).num_entities(),
        ensures
            final(self).wf(),
            final(self).accelerations@ == old(self).accelerations@.update(e as int, Some(c)),
            final(self).sprites@ == old(self).sprites@,
            final(self).players@ == old(self).players@,
            final(self).mobs@ == old(self).mobs@,
            final(self).movements@ == old(self).movements@,
    {
        self.accelerations[e] = Some(c);
    }

    /// Attaches (or replaces) the movement record of entity `e`.
    pub fn attach_movement(&mut self, e: usize, c: MovementComp)
        requires
            old(self).wf(),
            e < old(self).num_entities(),
        ensures
            final(self).wf(),
            final(self).movements@ == old(self).movements@.update(e as int, Some(c)),
            final(self).sprites@ == old(self).sprites@,
            final(self).players@ == old(self).players@,
            final(self).mobs@ == old(self).mobs@,
            final(self).accelerations@ == old(self).accelerations@,
    {
        self.movements[e] = Some(c);
    }

    /// Whether entity `e` satisfies all positive filters in `with` and no
    /// negative filter in `without`.
    pub open spec fn matches_filter(self, with: Seq<CompKind>, without: Seq<CompKind>, i: int) -> bool {
        &&& forall|k: int| 0 <= k < with.len() ==> self.has_comp(#[trigger] with[k], i)
        &&& forall|k: int| 0 <= k < without.len() ==> !self.has_comp(#[trigger] without[k], i)
    }

    /// Whether one entity passes a filter list.
    fn entity_matches(&self, with: &Vec<CompKind>, without: &Vec<CompKind>, e: usize) -> (r: bool)
        requires
            self.wf(),
            e < self.num_entities(),
        ensures
            r == self.matches_filter(with@, without@, e as int),
    {
        let mut k: usize = 0;
        while k < with.len()
            invariant
                self.wf(),
                e < self.num_entities(),
                k <= with@.len(),
                forall|j: int| 0 <= j < k ==> self.has_comp(#[trigger] with@[j], e as int),
            decreases with@.len() - k,
        {
            let present: bool = match with[k] {
                CompKind::Sprite => self.sprites[e].is_some(),
                CompKind::Player => self.players[e].is_some(),
                CompKind::Mob => self.mobs[e].is_some(),
                CompKind::Acceleration => self.accelerations[e].is_some(),
                CompKind::Movement => self.movements[e].is_some(),
            };
            if !present {
                return false;
            }
            k = k + 1;
        }
        let mut k2: usize = 0;
        while k2 < without.len()
            invariant
                self.wf(),
                e < self.num_entities(),
                k2 <= without@.len(),
                forall|j: int| 0 <= j < with@.len() ==> self.has_comp(#[trigger] with@[j], e as int),
                forall|j: int| 0 <= j < k2 ==> !self.has_comp(#[trigger] without@[j], e as int),
            decreases without@.len() - k2,
        {
            let present: bool = match without[k2] {
                CompKind::Sprite => self.sprites[e].is_some(),
                CompKind::Player => self.players[e].is_some(),
                CompKind::Mob => self.mobs[e].is_some(),
                CompKind::Acceleration => self.accelerations[e].is_some(),
                CompKind::Movement => self.movements[e].is_some(),
            };
            if present {
                return false;
            }
            k2 = k2 + 1;
        }
        true
    }

    /// Structural query: the identifiers of all entities that carry every
    /// component kind in `with` and none in `without`, in insertion order.
    /// Each call produces a fresh snapshot; no entity appears twice.
    pub fn query(&self, with: &Vec<CompKind>, without: &Vec<CompKind>) -> (r: Vec<usize>)
        requires
            self.wf(),
        ensures
            forall|j: int|
                0 <= j < r@.len() ==> #[trigger] r@[j] < self.num_entities()
                    && self.matches_filter(with@, without@, r@[j] as int),
            forall|j1: int, j2: int| 0 <= j1 < j2 < r@.len() ==> r@[j1] < r@[j2],
            forall|i: int|
                0 <= i < self.num_entities() && #[trigger] self.matches_filter(
                    with@,
                    without@,
                    i,
                ) ==> r@.contains(i as usize),
    {
        let mut r: Vec<usize> = Vec::new();
        let n: usize = self.sprites.len();
        let mut e: usize = 0;
        while e < n
            invariant
                self.wf(),
                n == self.num_entities(),
                e <= n,
                forall|j: int|
                    0 <= j < r@.len() ==> #[trigger] r@[j] < e
                        && self.matches_filter(with@, without@, r@[j] as int),
                forall|j1: int, j2: int| 0 <= j1 < j2 < r@.len() ==> r@[j1] < r@[j2],
                forall|i: int|
                    0 <= i < e && #[trigger] self.matches_filter(with@, without@, i)
                        ==> r@.contains(i as usize),
            decreases n - e,
        {
            let ghost r_before = r@;
            if self.entity_matches(with, without, e) {
                r.push(e);
                proof {
                    assert(r@ == r_before.push(e));
                    assert forall|i: int|
                        0 <= i < e + 1 && #[trigger] self.matches_filter(with@, without@, i)
                            implies r@.contains(i as usize) by {
                        if i < e {
                            let k = choose|k: int|
                                0 <= k < r_before.len() && r_before[k] == i as usize;
                            assert(r@[k] == i as usize);
                        } else {
                            assert(r@[r@.len() - 1] == e);
                        }
                    }
                }
            } else {
                proof {
                    assert forall|i: int|
                        0 <= i < e + 1 && #[trigger] self.matches_filter(with@, without@, i)
                            implies r@.contains(i as usize) by {
                        assert(i < e);
                    }
                }
            }
            e = e + 1;
        }
        r
    }
}

} // verus!
