//! The input adapter: reads the four directional key states and turns them
//! into the player's acceleration intent for the current frame.

use vstd::prelude::*;
use crate::components::AccelerationComp;
use crate::math::{scaled_ratio, scaled_ratio_spec, SCALE};
use crate::vec2::Vector2D;
use crate::world::World;

verus! {

/// Keyboard scancode of the key that steers left (the `A` key).
pub const SCANCODE_A: u32 = 4;

/// Keyboard scancode of the key that steers right (the `D` key).
pub const SCANCODE_D: u32 = 7;

/// Keyboard scancode of the key that steers down (the `S` key).
pub const SCANCODE_S: u32 = 22;

/// Keyboard scancode of the key that steers up (the `W` key).
pub const SCANCODE_W: u32 = 26;

/// Numerator of the diagonal factor `1 / sqrt(2)` in `SCALE`-ths.
pub const DIAG_FACTOR: u64 = 707;

/// A snapshot of the keyboard state, one entry per scancode; a non-zero
/// entry means the key is held down.
pub struct KeyboardState {
    keyboard_state: Vec<u8>,
}

impl KeyboardState {
    /// The raw per-scancode state.
    pub closed spec fn state(self) -> Seq<u8> {
        self.keyboard_state@
    }

    /// Wraps a raw keyboard snapshot.
    pub fn new(keyboard_state: Vec<u8>) -> (k: KeyboardState)
        ensures
            k.state() == keyboard_state@,
    {
        KeyboardState { keyboard_state }
    }

    /// How many scancode entries the snapshot holds.
    pub fn len(&self) -> (r: usize)
        ensures
            r == self.state().len(),
    {
        self.keyboard_state.len()
    }

    /// Whether the key with the given scancode is held down.
    pub fn is_scancode_pressed(&self, scancode: u32) -> (r: bool)
        requires
            scancode < self.state().len(),
        ensures
            r == (self.state()[scancode as int] != 0),
    {
        self.keyboard_state[scancode as usize] != 0
    }
}

/// The four directional intents, read once per frame.
#[derive(Clone, Copy, Debug, PartialEq, Eq, Structural)]
pub struct InputState {
    pub left: bool,
    pub right: bool,
    pub up: bool,
    pub down: bool,
}

/// Reads the four directional keys into an input snapshot.
pub fn read_dir_input(keys: &KeyboardState) -> (inp: InputState)
    requires
        keys.state().len() > SCANCODE_W,
    ensures
        inp.left == (keys.state()[SCANCODE_A as int] != 0),
        inp.right == (keys.state()[SCANCODE_D as int] != 0),
        inp.up == (keys.state()[SCANCODE_W as int] != 0),
        inp.down == (keys.state()[SCANCODE_S as int] != 0),
{
    InputState {
        left: keys.is_scancode_pressed(SCANCODE_A),
        right: keys.is_scancode_pressed(SCANCODE_D),
        up: keys.is_scancode_pressed(SCANCODE_W),
        down: keys.is_scancode_pressed(SCANCODE_S),
    }
}

/// One axis of the raw intent: full scale toward the held direction, zero
/// when neither is held. On a simultaneous press the positive direction
/// (right, down) wins: the later-checked direction overrides the earlier.
pub open spec fn axis_intent(neg: bool, pos: bool) -> int {
    if pos {
        SCALE as int
    } else if neg {
        -(SCALE as int)
    } else {
        0
    }
}

/// The player acceleration intent for a frame: a full-scale step per active
/// axis; when both axes are active, both components are scaled by the
/// diagonal factor so diagonal speed does not exceed axis speed.
pub open spec fn input_accel_spec(inp: InputState) -> (int, int) {
    let ax = axis_intent(inp.left, inp.right);
    let ay = axis_intent(inp.up, inp.down);
    if ax != 0 && ay != 0 {
        (
            scaled_ratio_spec(ax, DIAG_FACTOR as int, SCALE as int),
            scaled_ratio_spec(ay, DIAG_FACTOR as int, SCALE as int),
        )
    } else {
        (ax, ay)
    }
}

/// Both components of the intent are bounded by the axis scale, and the
/// diagonal case yields exactly the `DIAG_FACTOR` magnitudes.
pub proof fn lemma_input_accel_values(inp: InputState)
    ensures
        input_accel_spec(inp).0 == axis_sign(inp.left, inp.right) * (
        if axis_intent(inp.up, inp.down) != 0 && axis_intent(inp.left, inp.right) != 0 {
            DIAG_FACTOR as int
        } else {
            SCALE as int
        }),
        input_accel_spec(inp).1 == axis_sign(inp.up, inp.down) * (
        if axis_intent(inp.up, inp.down) != 0 && axis_intent(inp.left, inp.right) != 0 {
            DIAG_FACTOR as int
        } else {
            SCALE as int
        }),
        -(SCALE as int) <= input_accel_spec(inp).0 <= SCALE as int,
        -(SCALE as int) <= input_accel_spec(inp).1 <= SCALE as int,
{
    lemma_axis_diag(inp.left, inp.right);
    lemma_axis_diag(inp.up, inp.down);
}

/// Diagonal movement is normalized: with both axes active, each component
/// of the intent is the diagonal factor, and the squared magnitude lies
/// strictly between `(SCALE - 1)²` and `SCALE²` — the single-axis squared
/// magnitude — never the unnormalized doubled value.
pub proof fn lemma_diagonal_magnitude(inp: InputState)
    requires
        inp.left || inp.right,
        inp.up || inp.down,
    ensures
        ({
            let a = input_accel_spec(inp);
            &&& (a.0 == DIAG_FACTOR as int || a.0 == -(DIAG_FACTOR as int))
            &&& (a.1 == DIAG_FACTOR as int || a.1 == -(DIAG_FACTOR as int))
            &&& ((SCALE as int) - 1) * ((SCALE as int) - 1) < a.0 * a.0 + a.1 * a.1
            &&& a.0 * a.0 + a.1 * a.1 < (SCALE as int) * (SCALE as int)
        }),
{
    lemma_input_accel_values(inp);
    assert((707int) * (707int) == 499849) by (nonlinear_arith);
    assert((-707int) * (-707int) == 499849) by (nonlinear_arith);
    assert((999int) * (999int) == 998001) by (nonlinear_arith);
    assert((1000int) * (1000int) == 1000000) by (nonlinear_arith);
}

/// The sign of one axis intent: `-1`, `1`, or `0`.
pub open spec fn axis_sign(neg: bool, pos: bool) -> int {
    if pos {
        1
    } else if neg {
        -1
    } else {
        0
    }
}

proof fn lemma_axis_diag(neg: bool, pos: bool)
    ensures
        axis_intent(neg, pos) == axis_sign(neg, pos) * (SCALE as int),
        scaled_ratio_spec(axis_intent(neg, pos), DIAG_FACTOR as int, SCALE as int)
            == axis_sign(neg, pos) * (DIAG_FACTOR as int),
{
    vstd::arithmetic::div_mod::lemma_div_multiples_vanish(DIAG_FACTOR as int, SCALE as int);
    vstd::arithmetic::div_mod::lemma_div_of0(SCALE as int);
    assert(0 * (DIAG_FACTOR as int) == 0) by (nonlinear_arith);
}

/// The input adapter pass: overwrites the acceleration of every entity that
/// carries the player tag and an acceleration with this frame's intent.
/// Everything else in the store is left untouched.
pub fn player_input(world: &mut World, inp: InputState)
    requires
        old(world).wf(),
    ensures
        final(world).wf(),
        final(world).num_entities() == old(world).num_entities(),
        final(world).sprites@ == old(world).sprites@,
        final(world).players@ == old(world).players@,
        final(world).mobs@ == old(world).mobs@,
        final(world).movements@ == old(world).movements@,
        forall|i: int|
            0 <= i < old(world).num_entities() ==> final(world).accelerations@[i] == (
            if old(world).is_player_ctrl(i) {
                Some(
                    AccelerationComp {
                        acceleration: Vector2D {
                            x: input_accel_spec(inp).0 as i64,
                            y: input_accel_spec(inp).1 as i64,
                        },
                    },
                )
            } else {
                old(world).accelerations@[i]
            }),
{
    let mut ax: i64 = if inp.right {
        SCALE
    } else if inp.left {
        -SCALE
    } else {
        0
    };
    let mut ay: i64 = if inp.down {
        SCALE
    } else if inp.up {
        -SCALE
    } else {
        0
    };
    if ax != 0 && ay != 0 {
        ax = scaled_ratio(ax, DIAG_FACTOR, SCALE as u64);
        ay = scaled_ratio(ay, DIAG_FACTOR, SCALE as u64);
    }
    proof {
        lemma_input_accel_values(inp);
    }
    assert(ax as int == input_accel_spec(inp).0);
    assert(ay as int == input_accel_spec(inp).1);
    let av = Vector2D { x: ax, y: ay };
    let n: usize = world.sprites.len();
    let mut e: usize = 0;
    while e < n
        invariant
            world.wf(),
            n == world.num_entities(),
            e <= n,
            world.sprites@ == old(world).sprites@,
            world.players@ == old(world).players@,
            world.mobs@ == old(world).mobs@,
            world.movements@ == old(world).movements@,
            av.x as int == input_accel_spec(inp).0,
            av.y as int == input_accel_spec(inp).1,
            forall|i: int|
                0 <= i < e ==> world.accelerations@[i] == (
                if old(world).is_player_ctrl(i) {
                    Some(AccelerationComp { acceleration: av })
                } else {
                    old(world).accelerations@[i]
                }),
            forall|i: int|
                e <= i < n ==> world.accelerations@[i] == old(world).accelerations@[i],
        decreases n - e,
    {
        if world.players[e].is_some() && world.accelerations[e].is_some() {
            world.accelerations[e] = Some(AccelerationComp { acceleration: av });
        }
        e = e + 1;
    }
}

} // verus!
