//! The render order builder: collects every sprite and emits draw commands
//! sorted by a painter's-algorithm depth key, so lower sprites are drawn on
//! top. This pass mutates no simulation state.

use vstd::prelude::*;
use crate::geom::Rect;
use crate::components::SpriteComp;
use crate::math::{lemma_scaled_ratio_mag, scaled_ratio, scaled_ratio_spec};
use crate::world::World;

verus! {

/// One sprite blit: copy the `src` sheet region to the `dst` screen region.
#[derive(Clone, Copy, Debug, PartialEq, Eq, Structural)]
pub struct DrawCmd {
    pub src: Rect,
    pub dst: Rect,
}

/// The draw command of one sprite: its sheet region copied to its screen
/// position with matching width and height.
pub open spec fn sprite_cmd(s: SpriteComp) -> DrawCmd {
    DrawCmd { src: s.srs, dst: Rect { x: s.pos.x, y: s.pos.y, w: s.srs.w, h: s.srs.h } }
}

/// Painter's-algorithm depth key: screen y plus half the sprite width
/// (truncated toward zero). Lower keys are drawn first.
pub open spec fn draw_key(c: DrawCmd) -> int {
    c.dst.y + scaled_ratio_spec(c.src.w as int, 1, 2)
}

/// The executable depth key.
pub fn draw_key_exec(c: &DrawCmd) -> (k: i64)
    ensures
        k as int == draw_key(*c),
{
    proof {
        lemma_scaled_ratio_mag(c.src.w as int, 1, 2);
        let mag = if c.src.w >= 0 { c.src.w as int } else { -(c.src.w as int) };
        assert(mag * 1 == mag);
        vstd::arithmetic::div_mod::lemma_div_nonincreasing(mag, 2);
    }
    c.dst.y as i64 + scaled_ratio(c.src.w as i64, 1, 2)
}

/// Keys are nondecreasing along the sequence.
pub open spec fn sorted_by_key(s: Seq<DrawCmd>) -> bool {
    forall|i: int, j: int| 0 <= i < j < s.len() ==> draw_key(s[i]) <= draw_key(s[j])
}

/// The draw commands of the sprites among the first `k` entities, in
/// insertion order.
pub open spec fn draw_cmds_spec(w: World, k: int) -> Seq<DrawCmd>
    decreases k,
{
    if k <= 0 {
        Seq::empty()
    } else if w.sprites@[k - 1] is Some {
        draw_cmds_spec(w, k - 1).push(sprite_cmd(w.sprites@[k - 1]->Some_0))
    } else {
        draw_cmds_spec(w, k - 1)
    }
}

/// Selection sort on the depth key, extracting the first minimum each round
/// so equal keys keep their input order.
fn sort_draw_cmds(input: Vec<DrawCmd>) -> (r: Vec<DrawCmd>)
    ensures
        sorted_by_key(r@),
        r@.to_multiset() == input@.to_multiset(),
{
    broadcast use vstd::seq_lib::group_to_multiset_ensures;
    broadcast use vstd::multiset::group_multiset_axioms;

    let mut rest = input;
    let mut out: Vec<DrawCmd> = Vec::new();
    proof {
        assert(out@.to_multiset().add(rest@.to_multiset()) =~= input@.to_multiset());
    }
    while rest.len() > 0
        invariant
            out@.to_multiset().add(rest@.to_multiset()) == input@.to_multiset(),
            sorted_by_key(out@),
            forall|a: int, b: int|
                0 <= a < out@.len() && 0 <= b < rest@.len() ==> draw_key(out@[a]) <= draw_key(
                    rest@[b],
                ),
        decreases rest@.len(),
    {
        let mut m: usize = 0;
        let mut mk: i64 = draw_key_exec(&rest[0]);
        let mut t: usize = 1;
        while t < rest.len()
            invariant
                0 < rest@.len(),
                m < t,
                t <= rest@.len(),
                mk as int == draw_key(rest@[m as int]),
                forall|a: int| 0 <= a < t ==> draw_key(rest@[a]) >= mk as int,
            decreases rest@.len() - t,
        {
            let k: i64 = draw_key_exec(&rest[t]);
            if k < mk {
                m = t;
                mk = k;
            }
            t = t + 1;
        }
        let ghost rest_before = rest@;
        let ghost out_before = out@;
        let c = rest.remove(m);
        out.push(c);
        proof {
            broadcast use vstd::seq_lib::group_to_multiset_ensures;
            broadcast use vstd::multiset::group_multiset_axioms;

            assert(rest_before[m as int] == c);
            assert(rest_before.contains(c));
            assert(rest_before.to_multiset().count(c) > 0);
            assert(out@ == out_before.push(c));
            assert(out_before.push(c).to_multiset() =~= out_before.to_multiset().insert(c));
            assert(out@.to_multiset() =~= out_before.to_multiset().insert(c));
            assert(rest@ == rest_before.remove(m as int));
            assert(rest_before.remove(m as int).to_multiset() =~= rest_before.to_multiset().remove(
                rest_before[m as int],
            ));
            assert(rest@.to_multiset() =~= rest_before.to_multiset().remove(c));
            assert(out@.to_multiset().add(rest@.to_multiset()) =~= out_before.to_multiset().add(
                rest_before.to_multiset(),
            ));
            // every element left in `rest` was already in `rest` before the
            // removal, so the minimal key still bounds it
            assert forall|b: int| 0 <= b < rest@.len() implies draw_key(rest@[b]) >= mk as int by {
                if b < m {
                    assert(rest@[b] == rest_before[b]);
                } else {
                    assert(rest@[b] == rest_before[b + 1]);
                }
            }
            assert forall|a: int, b: int|
                0 <= a < out@.len() && 0 <= b < rest@.len() implies draw_key(out@[a]) <= draw_key(
                rest@[b],
            ) by {
                if a < out@.len() - 1 {
                    assert(out@[a] == out_before[a]);
                } else {
                    assert(out@[a] == c);
                }
            }
            assert forall|i: int, j: int|
                0 <= i < j < out@.len() implies draw_key(out@[i]) <= draw_key(out@[j]) by {
                if j < out@.len() - 1 {
                    assert(out@[i] == out_before[i] && out@[j] == out_before[j]);
                } else {
                    assert(out@[j] == c);
                    assert(out@[i] == out_before[i]);
                }
            }
        }
    }
    proof {
        broadcast use vstd::seq_lib::group_to_multiset_ensures;
        broadcast use vstd::multiset::group_multiset_axioms;

        assert(rest@.len() == 0);
        assert forall|x: DrawCmd| true implies rest@.to_multiset().count(x) == 0 by {
            assert(!rest@.contains(x));
        }
        assert(out@.to_multiset() =~= input@.to_multiset());
    }
    out
}

/// Collects every sprite and produces the frame's draw order: a permutation
/// of the sprites' draw commands, sorted ascending by the depth key; ties
/// keep insertion order.
pub fn build_draw_list(world: &World) -> (r: Vec<DrawCmd>)
    requires
        world.wf(),
    ensures
        sorted_by_key(r@),
        r@.to_multiset() == draw_cmds_spec(*world, world.num_entities() as int).to_multiset(),
{
    let n: usize = world.sprites.len();
    let mut cmds: Vec<DrawCmd> = Vec::new();
    let mut e: usize = 0;
    while e < n
        invariant
            world.wf(),
            n == world.num_entities(),
            e <= n,
            cmds@ == draw_cmds_spec(*world, e as int),
        decreases n - e,
    {
        if world.sprites[e].is_some() {
            let s: SpriteComp = world.sprites[e].unwrap();
            cmds.push(
                DrawCmd {
                    src: s.srs,
                    dst: Rect { x: s.pos.x, y: s.pos.y, w: s.srs.w, h: s.srs.h },
                },
            );
        }
        e = e + 1;
    }
    sort_draw_cmds(cmds)
}

} // verus!
