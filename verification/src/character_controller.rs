//! The character controller: aggregates keyboard and gamepad state
//! into movement intents, and integrates intents into velocity with
//! per-frame acceleration and damping.

use vstd::prelude::*;

use crate::vec2::{
    abs_spec, abs_u64, clamp_length_max, clamp_spec, mag_sq, scale_div, Vec2, SCALE,
};

verus! {

/// Largest acceleration (world units per second squared) accepted by
/// the movement tuning.
pub const ACCEL_LIMIT: i64 = 1_000_000;

/// Largest velocity change one intent can make in one frame, in fixed
/// units per second.
pub const MAX_DELTA: i64 = SCALE * ACCEL_LIMIT;

/// Largest number of movement intents accepted in one frame.
pub const MAX_ACTIONS: usize = 1000;

/// Largest frame-time numerator accepted.
pub const DT_NUM_LIMIT: u64 = 1_000_000;

/// Largest velocity magnitude per component (fixed units per second)
/// accepted at the start of a frame.
pub const VEL_LIMIT: i64 = 1_000_000_000_000_000;

/// Largest velocity magnitude per component the damping pass accepts;
/// leaves room for what one frame of intents can add on top of
/// [`VEL_LIMIT`].
pub const DAMP_INPUT_LIMIT: i64 = 2_000_000_000_000_000;

/// A movement input action, carrying the intended direction with
/// magnitude at most 1.0.
#[derive(Clone, Copy, Debug, PartialEq, Eq, Structural)]
pub enum MovementAction {
    Move(Vec2),
}

/// A marker component indicating that an entity is using a character
/// controller.
#[derive(Clone, Copy, Debug, Default, PartialEq, Eq, Structural)]
pub struct CharacterController;

/// The acceleration used for character movement, in world units per
/// second squared.
#[derive(Clone, Copy, Debug, PartialEq, Eq, Structural)]
pub struct MovementAcceleration(pub i64);

/// The damping factor used for slowing down movement, in thousandths:
/// each frame multiplies the velocity by this value over [`SCALE`].
#[derive(Clone, Copy, Debug, PartialEq, Eq, Structural)]
pub struct MovementDampingFactor(pub i64);

/// One logical direction key, bound to a key in each of the two
/// control schemes.
#[derive(Clone, Copy, Debug, Default, PartialEq, Eq, Structural)]
pub struct KeyPair {
    pub primary: bool,
    pub secondary: bool,
}

/// The keyboard state the input aggregator reads: four logical
/// directions, each pressed when either of its two keys is down.
#[derive(Clone, Copy, Debug, Default, PartialEq, Eq, Structural)]
pub struct KeyboardState {
    pub up: KeyPair,
    pub down: KeyPair,
    pub left: KeyPair,
    pub right: KeyPair,
}

/// The left-stick axes of one connected gamepad, each `None` when the
/// device does not report that axis. Values are in fixed units, so a
/// full deflection is [`SCALE`].
#[derive(Clone, Copy, Debug, PartialEq, Eq, Structural)]
pub struct GamepadAxes {
    pub left_stick_x: Option<i64>,
    pub left_stick_y: Option<i64>,
}

pub open spec fn pair_pressed(k: KeyPair) -> bool {
    k.primary || k.secondary
}

/// Right minus left, each a signed unit contribution.
pub open spec fn keyboard_horizontal(ks: KeyboardState) -> int {
    (if pair_pressed(ks.right) {
        1int
    } else {
        0int
    }) - (if pair_pressed(ks.left) {
        1int
    } else {
        0int
    })
}

/// Up minus down, each a signed unit contribution.
pub open spec fn keyboard_vertical(ks: KeyboardState) -> int {
    (if pair_pressed(ks.up) {
        1int
    } else {
        0int
    }) - (if pair_pressed(ks.down) {
        1int
    } else {
        0int
    })
}

/// The intent the keyboard emits: the direction vector built from the
/// four logical keys, clamped to unit length, or nothing when the
/// vector is zero.
pub open spec fn keyboard_intent_spec(ks: KeyboardState) -> Option<MovementAction> {
    let h = keyboard_horizontal(ks);
    let v = keyboard_vertical(ks);
    if h == 0 && v == 0 {
        Option::None
    } else {
        Option::Some(
            MovementAction::Move(
                clamp_spec(Vec2 { x: (h * SCALE) as i64, y: (v * SCALE) as i64 }),
            ),
        )
    }
}

/// An action is valid when its direction has components of at most
/// unit size.
pub open spec fn action_valid(a: MovementAction) -> bool {
    match a {
        MovementAction::Move(d) => abs_spec(d.x as int) <= SCALE && abs_spec(d.y as int) <= SCALE,
    }
}

/// Both axes of a gamepad, where present, are within full deflection.
pub open spec fn gamepad_axes_valid(g: GamepadAxes) -> bool {
    &&& (g.left_stick_x matches Option::Some(x) ==> -SCALE <= x <= SCALE)
    &&& (g.left_stick_y matches Option::Some(y) ==> -SCALE <= y <= SCALE)
}

/// The intents the connected gamepads emit, in device order: one per
/// gamepad that reports both axes, clamped to unit length and emitted
/// even when zero.
pub open spec fn gamepad_actions_spec(pads: Seq<GamepadAxes>) -> Seq<MovementAction>
    decreases pads.len(),
{
    if pads.len() == 0 {
        Seq::empty()
    } else {
        gamepad_actions_spec(pads.drop_last()) + (match (
            pads.last().left_stick_x,
            pads.last().left_stick_y,
        ) {
            (Option::Some(x), Option::Some(y)) => seq![
                MovementAction::Move(clamp_spec(Vec2 { x, y })),
            ],
            _ => Seq::empty(),
        })
    }
}

/// Reads the four logical directions and emits a movement action iff
/// the combined direction is non-zero; the emitted direction never
/// exceeds unit magnitude.
pub fn keyboard_input(keys: &KeyboardState) -> (r: Option<MovementAction>)
    ensures
        r == keyboard_intent_spec(*keys),
        r is Some <==> !(keyboard_horizontal(*keys) == 0 && keyboard_vertical(*keys) == 0),
        r is Some <==> pair_pressed(keys.left) != pair_pressed(keys.right) || pair_pressed(
            keys.up,
        ) != pair_pressed(keys.down),
        r matches Option::Some(a) ==> action_valid(a) && (a matches MovementAction::Move(d)
            ==> mag_sq(d) <= SCALE * SCALE),
{
    let up = keys.up.primary || keys.up.secondary;
    let down = keys.down.primary || keys.down.secondary;
    let left = keys.left.primary || keys.left.secondary;
    let right = keys.right.primary || keys.right.secondary;

    let horizontal: i64 = (if right {
        1
    } else {
        0
    }) - (if left {
        1
    } else {
        0
    });
    let vertical: i64 = (if up {
        1
    } else {
        0
    }) - (if down {
        1
    } else {
        0
    });

    if horizontal == 0 && vertical == 0 {
        Option::None
    } else {
        let direction = clamp_length_max(Vec2 { x: horizontal * SCALE, y: vertical * SCALE });
        proof {
            crate::vec2::lemma_mag_component_bound(direction);
        }
        Option::Some(MovementAction::Move(direction))
    }
}

/// Reads every connected gamepad and emits one movement action per
/// gamepad that reports both left-stick axes, clamped to unit length
/// and emitted even when the stick is centered.
pub fn gamepad_input(gamepads: &Vec<GamepadAxes>) -> (r: Vec<MovementAction>)
    requires
        forall|k: int| 0 <= k < gamepads@.len() ==> gamepad_axes_valid(#[trigger] gamepads@[k]),
    ensures
        r@ == gamepad_actions_spec(gamepads@),
        r@.len() <= gamepads@.len(),
        forall|k: int| 0 <= k < r@.len() ==> action_valid(#[trigger] r@[k]),
        forall|k: int| 0 <= k < r@.len() ==> (#[trigger] r@[k] matches MovementAction::Move(d)
            ==> mag_sq(d) <= SCALE * SCALE),
{
    let mut r: Vec<MovementAction> = Vec::new();
    let mut i: usize = 0;
    while i < gamepads.len()
        invariant
            i <= gamepads@.len(),
            r@.len() <= i,
            forall|k: int| 0 <= k < gamepads@.len() ==> gamepad_axes_valid(#[trigger] gamepads@[k]),
            r@ == gamepad_actions_spec(gamepads@.take(i as int)),
            forall|k: int| 0 <= k < r@.len() ==> action_valid(#[trigger] r@[k]),
            forall|k: int| 0 <= k < r@.len() ==> (#[trigger] r@[k] matches MovementAction::Move(d)
                ==> mag_sq(d) <= SCALE * SCALE),
        decreases gamepads@.len() - i,
    {
        let pad = gamepads[i];
        match (pad.left_stick_x, pad.left_stick_y) {
            (Option::Some(x), Option::Some(y)) => {
                let direction = clamp_length_max(Vec2 { x, y });
                proof {
                    crate::vec2::lemma_mag_component_bound(direction);
                }
                r.push(MovementAction::Move(direction));
            },
            _ => {},
        }
        proof {
            assert(gamepads@.take(i + 1).drop_last() =~= gamepads@.take(i as int));
            assert(gamepads@.take(i + 1).last() == gamepads@[i as int]);
        }
        i = i + 1;
    }
    proof {
        assert(gamepads@.take(gamepads@.len() as int) =~= gamepads@);
    }
    r
}

/// Frame delta time, as the fraction `num / den` of a second.
#[derive(Clone, Copy, Debug, PartialEq, Eq, Structural)]
pub struct DeltaTime {
    pub num: u64,
    pub den: u64,
}

/// A frame lasts a positive, representable fraction of at most one
/// second.
pub open spec fn dt_valid(dt: DeltaTime) -> bool {
    &&& 1 <= dt.den
    &&& dt.num <= dt.den
    &&& dt.num <= DT_NUM_LIMIT
}

/// The per-entity movement state the integrator reads and writes: the
/// tuning constants and the velocity owned by the physics body, in
/// fixed units per second.
#[derive(Clone, Copy, Debug, PartialEq, Eq, Structural)]
pub struct ControllerState {
    pub acceleration: MovementAcceleration,
    pub damping: MovementDampingFactor,
    pub velocity: Vec2,
}

/// Tuning within limits and velocity small enough that one frame of
/// intents cannot overflow it.
pub open spec fn controller_valid(c: ControllerState) -> bool {
    &&& 0 <= c.acceleration.0 <= ACCEL_LIMIT
    &&& 0 < c.damping.0 <= SCALE
    &&& abs_spec(c.velocity.x as int) <= VEL_LIMIT
    &&& abs_spec(c.velocity.y as int) <= VEL_LIMIT
}

pub open spec fn action_dir(a: MovementAction) -> Vec2 {
    match a {
        MovementAction::Move(d) => d,
    }
}

/// The velocity change (fixed units per second) one intent component
/// contributes: `c * acc * num / den`, rounded toward zero.
pub open spec fn intent_delta_spec(c: int, acc: int, num: int, den: int) -> int {
    scale_div(c, acc * num, den)
}

/// Total x-velocity change of a sequence of intents.
pub open spec fn sum_delta_x(actions: Seq<MovementAction>, acc: int, num: int, den: int) -> int
    decreases actions.len(),
{
    if actions.len() == 0 {
        0
    } else {
        sum_delta_x(actions.drop_last(), acc, num, den) + intent_delta_spec(
            action_dir(actions.last()).x as int,
            acc,
            num,
            den,
        )
    }
}

/// Total y-velocity change of a sequence of intents (before the
/// screen-space sign flip the integrator applies).
pub open spec fn sum_delta_y(actions: Seq<MovementAction>, acc: int, num: int, den: int) -> int
    decreases actions.len(),
{
    if actions.len() == 0 {
        0
    } else {
        sum_delta_y(actions.drop_last(), acc, num, den) + intent_delta_spec(
            action_dir(actions.last()).y as int,
            acc,
            num,
            den,
        )
    }
}

/// One intent component changes the velocity by at most [`MAX_DELTA`].
pub proof fn lemma_intent_delta_bound(c: int, acc: int, num: int, den: int)
    requires
        -SCALE <= c <= SCALE,
        0 <= acc <= ACCEL_LIMIT,
        0 <= num <= den,
        0 < den,
    ensures
        -MAX_DELTA <= intent_delta_spec(c, acc, num, den) <= MAX_DELTA,
        c >= 0 ==> intent_delta_spec(c, acc, num, den) >= 0,
        c < 0 ==> intent_delta_spec(c, acc, num, den) <= 0,
{
    let a = abs_spec(c);
    assert(0 <= a * (acc * num) && a * (acc * num) <= (a * acc) * den) by (nonlinear_arith)
        requires
            0 <= a,
            0 <= acc,
            0 <= num <= den,
    {}
    vstd::arithmetic::div_mod::lemma_div_is_ordered(a * (acc * num), (a * acc) * den, den);
    vstd::arithmetic::div_mod::lemma_div_multiples_vanish(a * acc, den);
    vstd::arithmetic::div_mod::lemma_div_pos_is_pos(a * (acc * num), den);
    assert(a * acc <= SCALE * ACCEL_LIMIT) by (nonlinear_arith)
        requires
            0 <= a <= SCALE,
            0 <= acc <= ACCEL_LIMIT,
    {}
}

/// A sequence of valid intents changes each velocity component by at
/// most [`MAX_DELTA`] per intent.
pub proof fn lemma_sum_delta_bound(actions: Seq<MovementAction>, acc: int, num: int, den: int)
    requires
        forall|k: int| 0 <= k < actions.len() ==> action_valid(#[trigger] actions[k]),
        0 <= acc <= ACCEL_LIMIT,
        0 <= num <= den,
        0 < den,
    ensures
        -(actions.len() * MAX_DELTA) <= sum_delta_x(actions, acc, num, den) <= actions.len()
            * MAX_DELTA,
        -(actions.len() * MAX_DELTA) <= sum_delta_y(actions, acc, num, den) <= actions.len()
            * MAX_DELTA,
    decreases actions.len(),
{
    if actions.len() > 0 {
        lemma_sum_delta_bound(actions.drop_last(), acc, num, den);
        let d = action_dir(actions.last());
        lemma_intent_delta_bound(d.x as int, acc, num, den);
        lemma_intent_delta_bound(d.y as int, acc, num, den);
    }
}

/// The velocity change one intent component makes in this frame.
fn intent_delta(c: i64, acc: i64, dt: &DeltaTime) -> (r: i64)
    requires
        -SCALE <= c <= SCALE,
        0 <= acc <= ACCEL_LIMIT,
        dt_valid(*dt),
    ensures
        r == intent_delta_spec(c as int, acc as int, dt.num as int, dt.den as int),
        -MAX_DELTA <= r <= MAX_DELTA,
{
    proof {
        lemma_intent_delta_bound(c as int, acc as int, dt.num as int, dt.den as int);
    }
    let ac: u64 = abs_u64(c);
    proof {
        assert(acc * dt.num <= 1_000_000_000_000 && ac * (acc * dt.num) <= 1_000_000_000_000_000)
            by (nonlinear_arith)
            requires
                0 <= acc <= 1_000_000,
                0 <= dt.num <= 1_000_000,
                0 <= ac <= 1000,
        {}
    }
    let m: u64 = (acc as u64) * dt.num;
    let q: u64 = (ac * m) / dt.den;
    proof {
        assert(0 <= ac * (acc * dt.num) && ac * (acc * dt.num) <= (ac * acc) * dt.den)
            by (nonlinear_arith)
            requires
                0 <= ac,
                0 <= acc,
                0 <= dt.num <= dt.den,
        {}
        vstd::arithmetic::div_mod::lemma_div_is_ordered(
            ac * (acc * dt.num),
            (ac * acc) * dt.den,
            dt.den as int,
        );
        vstd::arithmetic::div_mod::lemma_div_multiples_vanish(ac * acc, dt.den as int);
        assert(ac * acc <= SCALE * ACCEL_LIMIT) by (nonlinear_arith)
            requires
                0 <= ac <= SCALE,
                0 <= acc <= ACCEL_LIMIT,
        {}
    }
    if c < 0 {
        -(q as i64)
    } else {
        q as i64
    }
}

/// Responds to movement actions and updates every character
/// controller, in event order then entity order. Each intent adds
/// `direction * acceleration * dt` to the velocity, with the vertical
/// axis inverted (screen-space convention).
#[verifier::loop_isolation(false)]
pub fn movement(actions: &Vec<MovementAction>, dt: &DeltaTime, controllers: &mut Vec<ControllerState>)
    requires
        dt_valid(*dt),
        actions@.len() <= MAX_ACTIONS,
        forall|k: int| 0 <= k < actions@.len() ==> action_valid(#[trigger] actions@[k]),
        forall|i: int| 0 <= i < old(controllers)@.len() ==> controller_valid(
            #[trigger] old(controllers)@[i],
        ),
    ensures
        final(controllers)@.len() == old(controllers)@.len(),
        forall|i: int| 0 <= i < old(controllers)@.len() ==> (#[trigger] final(controllers)@[i]).acceleration
            == old(controllers)@[i].acceleration && final(controllers)@[i].damping == old(
            controllers,
        )@[i].damping,
        forall|i: int| 0 <= i < old(controllers)@.len() ==> (#[trigger] final(controllers)@[i]).velocity.x
            == old(controllers)@[i].velocity.x + sum_delta_x(
            actions@,
            old(controllers)@[i].acceleration.0 as int,
            dt.num as int,
            dt.den as int,
        ),
        forall|i: int| 0 <= i < old(controllers)@.len() ==> (#[trigger] final(controllers)@[i]).velocity.y
            == old(controllers)@[i].velocity.y - sum_delta_y(
            actions@,
            old(controllers)@[i].acceleration.0 as int,
            dt.num as int,
            dt.den as int,
        ),
{
    let ghost orig: Seq<ControllerState> = controllers@;
    let ghost numi: int = dt.num as int;
    let ghost deni: int = dt.den as int;
    let mut e: usize = 0;
    while e < actions.len()
        invariant
            e <= actions@.len(),
            controllers@.len() == orig.len(),
            forall|i: int| 0 <= i < orig.len() ==> (#[trigger] controllers@[i]).acceleration
                == orig[i].acceleration && controllers@[i].damping == orig[i].damping,
            forall|i: int| 0 <= i < orig.len() ==> (#[trigger] controllers@[i]).velocity.x
                == orig[i].velocity.x + sum_delta_x(
                actions@.take(e as int),
                orig[i].acceleration.0 as int,
                numi,
                deni,
            ),
            forall|i: int| 0 <= i < orig.len() ==> (#[trigger] controllers@[i]).velocity.y
                == orig[i].velocity.y - sum_delta_y(
                actions@.take(e as int),
                orig[i].acceleration.0 as int,
                numi,
                deni,
            ),
        decreases actions@.len() - e,
    {
        let a = actions[e];
        let dir = match a {
            MovementAction::Move(d) => d,
        };
        let mut j: usize = 0;
        while j < controllers.len()
            invariant
                j <= controllers@.len(),
                e < actions@.len(),
                a == actions@[e as int],
                dir == action_dir(actions@[e as int]),
                controllers@.len() == orig.len(),
                forall|i: int| 0 <= i < orig.len() ==> (#[trigger] controllers@[i]).acceleration
                    == orig[i].acceleration && controllers@[i].damping == orig[i].damping,
                forall|i: int| 0 <= i < j ==> (#[trigger] controllers@[i]).velocity.x
                    == orig[i].velocity.x + sum_delta_x(
                    actions@.take(e + 1),
                    orig[i].acceleration.0 as int,
                    numi,
                    deni,
                ),
                forall|i: int| 0 <= i < j ==> (#[trigger] controllers@[i]).velocity.y
                    == orig[i].velocity.y - sum_delta_y(
                    actions@.take(e + 1),
                    orig[i].acceleration.0 as int,
                    numi,
                    deni,
                ),
                forall|i: int| j <= i < orig.len() ==> (#[trigger] controllers@[i]).velocity.x
                    == orig[i].velocity.x + sum_delta_x(
                    actions@.take(e as int),
                    orig[i].acceleration.0 as int,
                    numi,
                    deni,
                ),
                forall|i: int| j <= i < orig.len() ==> (#[trigger] controllers@[i]).velocity.y
                    == orig[i].velocity.y - sum_delta_y(
                    actions@.take(e as int),
                    orig[i].acceleration.0 as int,
                    numi,
                    deni,
                ),
            decreases controllers@.len() - j,
        {
            let c = controllers[j];
            let dx = intent_delta(dir.x, c.acceleration.0, dt);
            let dy = intent_delta(dir.y, c.acceleration.0, dt);
            proof {
                lemma_sum_delta_bound(actions@.take(e as int), c.acceleration.0 as int, numi, deni);
                lemma_sum_delta_bound(actions@.take(e + 1), c.acceleration.0 as int, numi, deni);
                assert(actions@.take(e + 1).drop_last() =~= actions@.take(e as int));
                assert(actions@.take(e + 1).last() == actions@[e as int]);
            }
            let c2 = ControllerState {
                acceleration: c.acceleration,
                damping: c.damping,
                velocity: Vec2 { x: c.velocity.x + dx, y: c.velocity.y - dy },
            };
            controllers[j] = c2;
            j = j + 1;
        }
        e = e + 1;
    }
    proof {
        assert(actions@.take(actions@.len() as int) =~= actions@);
    }
}

/// The damped value of one velocity component: `v * d / SCALE`,
/// rounded toward zero.
pub open spec fn damped(v: int, d: int) -> int {
    scale_div(v, d, SCALE as int)
}

/// Multiplies one velocity component by the damping factor.
fn damp_component(v: i64, d: i64) -> (r: i64)
    requires
        0 < d <= SCALE,
        -DAMP_INPUT_LIMIT <= v <= DAMP_INPUT_LIMIT,
    ensures
        r == damped(v as int, d as int),
        abs_spec(r as int) <= abs_spec(v as int),
{
    let av: u64 = abs_u64(v);
    proof {
        assert(av * d <= 2_000_000_000_000_000_000) by (nonlinear_arith)
            requires
                0 <= av <= 2_000_000_000_000_000,
                0 <= d <= 1000,
        {}
    }
    let q: u64 = (av * (d as u64)) / (SCALE as u64);
    proof {
        assert(0 <= av * d && av * d <= av * SCALE) by (nonlinear_arith)
            requires
                0 <= av,
                0 < d <= SCALE,
        {}
        vstd::arithmetic::div_mod::lemma_div_is_ordered(av * d, av * SCALE, SCALE as int);
        vstd::arithmetic::div_mod::lemma_div_multiples_vanish(av as int, SCALE as int);
        vstd::arithmetic::div_mod::lemma_div_pos_is_pos(av * d, SCALE as int);
    }
    if v < 0 {
        -(q as i64)
    } else {
        q as i64
    }
}

/// Slows down movement: multiplies every controller's velocity
/// componentwise by its damping factor, once per frame.
#[verifier::loop_isolation(false)]
pub fn apply_movement_damping(controllers: &mut Vec<ControllerState>)
    requires
        forall|i: int| 0 <= i < old(controllers)@.len() ==> {
            let c = #[trigger] old(controllers)@[i];
            0 < c.damping.0 <= SCALE && abs_spec(c.velocity.x as int) <= DAMP_INPUT_LIMIT
                && abs_spec(c.velocity.y as int) <= DAMP_INPUT_LIMIT
        },
    ensures
        final(controllers)@.len() == old(controllers)@.len(),
        forall|i: int| 0 <= i < old(controllers)@.len() ==> (#[trigger] final(controllers)@[i]).acceleration
            == old(controllers)@[i].acceleration && final(controllers)@[i].damping == old(
            controllers,
        )@[i].damping,
        forall|i: int| 0 <= i < old(controllers)@.len() ==> (#[trigger] final(controllers)@[i]).velocity.x
            == damped(old(controllers)@[i].velocity.x as int, old(controllers)@[i].damping.0 as int),
        forall|i: int| 0 <= i < old(controllers)@.len() ==> (#[trigger] final(controllers)@[i]).velocity.y
            == damped(old(controllers)@[i].velocity.y as int, old(controllers)@[i].damping.0 as int),
        forall|i: int| 0 <= i < old(controllers)@.len() ==> abs_spec(
            (#[trigger] final(controllers)@[i]).velocity.x as int,
        ) <= abs_spec(old(controllers)@[i].velocity.x as int) && abs_spec(
            final(controllers)@[i].velocity.y as int,
        ) <= abs_spec(old(controllers)@[i].velocity.y as int),
{
    let ghost orig: Seq<ControllerState> = controllers@;
    let mut j: usize = 0;
    while j < controllers.len()
        invariant
            j <= controllers@.len(),
            controllers@.len() == orig.len(),
            forall|i: int| 0 <= i < orig.len() ==> (#[trigger] controllers@[i]).acceleration
                == orig[i].acceleration && controllers@[i].damping == orig[i].damping,
            forall|i: int| 0 <= i < j ==> (#[trigger] controllers@[i]).velocity.x == damped(
                orig[i].velocity.x as int,
                orig[i].damping.0 as int,
            ) && controllers@[i].velocity.y == damped(
                orig[i].velocity.y as int,
                orig[i].damping.0 as int,
            ),
            forall|i: int| 0 <= i < j ==> abs_spec((#[trigger] controllers@[i]).velocity.x as int)
                <= abs_spec(orig[i].velocity.x as int) && abs_spec(controllers@[i].velocity.y as int)
                <= abs_spec(orig[i].velocity.y as int),
            forall|i: int| j <= i < orig.len() ==> #[trigger] controllers@[i] == orig[i],
        decreases controllers@.len() - j,
    {
        let c = controllers[j];
        let c2 = ControllerState {
            acceleration: c.acceleration,
            damping: c.damping,
            velocity: Vec2 {
                x: damp_component(c.velocity.x, c.damping.0),
                y: damp_component(c.velocity.y, c.damping.0),
            },
        };
        controllers[j] = c2;
        j = j + 1;
    }
}

/// Every intent one frame carries: the keyboard's, if any, then one
/// per gamepad that reports both axes.
pub open spec fn frame_actions_spec(ks: KeyboardState, pads: Seq<GamepadAxes>) -> Seq<
    MovementAction,
> {
    (match keyboard_intent_spec(ks) {
        Option::Some(a) => seq![a],
        Option::None => Seq::empty(),
    }) + gamepad_actions_spec(pads)
}

/// One whole movement frame, in the load-bearing order: aggregate the
/// inputs, integrate every intent into every controller's velocity,
/// then apply damping once. With zero intents this leaves each
/// velocity exactly multiplied by its damping factor.
pub fn movement_frame(
    keyboard: &KeyboardState,
    gamepads: &Vec<GamepadAxes>,
    dt: &DeltaTime,
    controllers: &mut Vec<ControllerState>,
)
    requires
        dt_valid(*dt),
        gamepads@.len() + 1 <= MAX_ACTIONS,
        forall|k: int| 0 <= k < gamepads@.len() ==> gamepad_axes_valid(#[trigger] gamepads@[k]),
        forall|i: int| 0 <= i < old(controllers)@.len() ==> controller_valid(
            #[trigger] old(controllers)@[i],
        ),
    ensures
        final(controllers)@.len() == old(controllers)@.len(),
        forall|i: int| 0 <= i < old(controllers)@.len() ==> (#[trigger] final(controllers)@[i]).acceleration
            == old(controllers)@[i].acceleration && final(controllers)@[i].damping == old(
            controllers,
        )@[i].damping,
        forall|i: int| 0 <= i < old(controllers)@.len() ==> (#[trigger] final(controllers)@[i]).velocity.x
            == damped(
            old(controllers)@[i].velocity.x + sum_delta_x(
                frame_actions_spec(*keyboard, gamepads@),
                old(controllers)@[i].acceleration.0 as int,
                dt.num as int,
                dt.den as int,
            ),
            old(controllers)@[i].damping.0 as int,
        ),
        forall|i: int| 0 <= i < old(controllers)@.len() ==> (#[trigger] final(controllers)@[i]).velocity.y
            == damped(
            old(controllers)@[i].velocity.y - sum_delta_y(
                frame_actions_spec(*keyboard, gamepads@),
                old(controllers)@[i].acceleration.0 as int,
                dt.num as int,
                dt.den as int,
            ),
            old(controllers)@[i].damping.0 as int,
        ),
        frame_actions_spec(*keyboard, gamepads@).len() == 0 ==> forall|i: int|
            0 <= i < old(controllers)@.len() ==> (#[trigger] final(controllers)@[i]).velocity.x
                == damped(old(controllers)@[i].velocity.x as int, old(controllers)@[i].damping.0 as int)
                && final(controllers)@[i].velocity.y == damped(
                old(controllers)@[i].velocity.y as int,
                old(controllers)@[i].damping.0 as int,
            ),
{
    let kb = keyboard_input(keyboard);
    let mut actions: Vec<MovementAction> = Vec::new();
    match kb {
        Option::Some(a) => actions.push(a),
        Option::None => {},
    }
    let mut pad_actions = gamepad_input(gamepads);
    actions.append(&mut pad_actions);
    proof {
        assert(actions@ =~= frame_actions_spec(*keyboard, gamepads@));
    }
    movement(&actions, dt, controllers);
    proof {
        let acts = actions@;
        let numi = dt.num as int;
        let deni = dt.den as int;
        assert forall|i: int| 0 <= i < controllers@.len() implies {
            let c = #[trigger] controllers@[i];
            0 < c.damping.0 <= SCALE && abs_spec(c.velocity.x as int) <= DAMP_INPUT_LIMIT
                && abs_spec(c.velocity.y as int) <= DAMP_INPUT_LIMIT
        } by {
            lemma_sum_delta_bound(acts, old(controllers)@[i].acceleration.0 as int, numi, deni);
        }
    }
    apply_movement_damping(controllers);
}

/// One frame's effect on one nonnegative velocity axis under a
/// constant intent: add the per-frame change `a` (as given by
/// [`intent_delta_spec`]), then damp.
pub open spec fn step_velocity(v: int, a: int, d: int) -> int {
    damped(v + a, d)
}

/// The velocity axis after `n` frames of a constant intent, starting
/// from rest.
pub open spec fn iterate_velocity(n: nat, a: int, d: int) -> int
    decreases n,
{
    if n == 0 {
        0
    } else {
        step_velocity(iterate_velocity((n - 1) as nat, a, d), a, d)
    }
}

/// One frame keeps the velocity axis within any bound `b` that
/// dominates the geometric series: `a * d <= b * (SCALE - d)`.
proof fn lemma_step_bound(v: int, a: int, d: int, b: int)
    requires
        0 <= v <= b,
        0 <= a,
        0 < d < SCALE,
        a * d <= b * (SCALE - d),
    ensures
        0 <= step_velocity(v, a, d) <= b,
{
    assert(0 <= (v + a) * d && (v + a) * d <= b * SCALE) by (nonlinear_arith)
        requires
            0 <= v <= b,
            0 <= a,
            0 < d < SCALE,
            a * d <= b * (SCALE - d),
    {}
    vstd::arithmetic::div_mod::lemma_div_is_ordered((v + a) * d, b * SCALE, SCALE as int);
    vstd::arithmetic::div_mod::lemma_div_multiples_vanish(b, SCALE as int);
    vstd::arithmetic::div_mod::lemma_div_pos_is_pos((v + a) * d, SCALE as int);
}

/// Applying a constant intent over any number of frames, the velocity
/// never exceeds the geometric-series fixed point: any `b >= 0` with
/// `a * d <= b * (SCALE - d)` bounds every iterate. In particular
/// `b = a * SCALE / (SCALE - d)`, the closed form of
/// `intent * acceleration * dt / (1 - damping)`, is such a bound.
pub proof fn lemma_velocity_fixed_point_bound(n: nat, a: int, d: int, b: int)
    requires
        0 <= a,
        0 < d < SCALE,
        0 <= b,
        a * d <= b * (SCALE - d),
    ensures
        0 <= iterate_velocity(n, a, d) <= b,
    decreases n,
{
    if n > 0 {
        lemma_velocity_fixed_point_bound((n - 1) as nat, a, d, b);
        lemma_step_bound(iterate_velocity((n - 1) as nat, a, d), a, d, b);
    }
}

/// Damping a larger nonnegative value gives a larger (or equal)
/// result.
proof fn lemma_damped_monotone(v1: int, v2: int, d: int)
    requires
        0 <= v1 <= v2,
        0 < d,
    ensures
        damped(v1, d) <= damped(v2, d),
{
    assert(v1 * d <= v2 * d) by (nonlinear_arith)
        requires
            0 <= v1 <= v2,
            0 < d,
    {}
    vstd::arithmetic::div_mod::lemma_div_is_ordered(v1 * d, v2 * d, SCALE as int);
}

/// Every iterate is nonnegative.
pub proof fn lemma_velocity_nonneg(n: nat, a: int, d: int)
    requires
        0 <= a,
        0 < d,
    ensures
        0 <= iterate_velocity(n, a, d),
    decreases n,
{
    if n > 0 {
        lemma_velocity_nonneg((n - 1) as nat, a, d);
        let v = iterate_velocity((n - 1) as nat, a, d);
        assert(0 <= (v + a) * d) by (nonlinear_arith)
            requires
                0 <= v,
                0 <= a,
                0 < d,
        {}
        vstd::arithmetic::div_mod::lemma_div_pos_is_pos((v + a) * d, SCALE as int);
    }
}

/// Under a constant intent the velocity axis never decreases: the
/// iterates climb toward the fixed point.
pub proof fn lemma_velocity_monotone(n: nat, a: int, d: int)
    requires
        0 <= a,
        0 < d < SCALE,
    ensures
        iterate_velocity(n, a, d) <= iterate_velocity(n + 1, a, d),
    decreases n,
{
    if n == 0 {
        vstd::arithmetic::div_mod::lemma_div_pos_is_pos(a * d, SCALE as int);
        assert(0 <= a * d) by (nonlinear_arith)
            requires
                0 <= a,
                0 < d,
        {}
    } else {
        lemma_velocity_monotone((n - 1) as nat, a, d);
        lemma_velocity_nonneg((n - 1) as nat, a, d);
        lemma_damped_monotone(
            iterate_velocity((n - 1) as nat, a, d) + a,
            iterate_velocity(n, a, d) + a,
            d,
        );
    }
}

/// Default movement tuning: acceleration in world units per second
/// squared.
pub const DEFAULT_ACCELERATION: i64 = 10_000;

/// Default damping factor, in thousandths.
pub const DEFAULT_DAMPING: i64 = 950;

/// The body kinds the physics collaborator distinguishes.
#[derive(Clone, Copy, Debug, PartialEq, Eq, Structural)]
pub enum RigidBodyKind {
    Dynamic,
    Kinematic,
}

/// A collision shape to attach to a physics body, with sizes in world
/// units.
#[derive(Clone, Copy, Debug, PartialEq, Eq, Structural)]
pub enum ColliderShape {
    Cuboid { width: i64, height: i64 },
    Ball { radius: i64 },
}

/// The declared fields of a placed level entity that sizing reads.
#[derive(Clone, Copy, Debug, Default, PartialEq, Eq, Structural)]
pub struct EntityDescriptor {
    pub width: i64,
    pub height: i64,
}

/// A bundle that contains components for character movement.
#[derive(Clone, Copy, Debug, PartialEq, Eq, Structural)]
pub struct MovementBundle {
    pub acceleration: MovementAcceleration,
    pub damping: MovementDampingFactor,
}

impl MovementBundle {
    pub fn new(acceleration: i64, damping: i64) -> (r: Self)
        requires
            0 <= acceleration <= ACCEL_LIMIT,
            0 < damping <= SCALE,
        ensures
            r == (MovementBundle {
                acceleration: MovementAcceleration(acceleration),
                damping: MovementDampingFactor(damping),
            }),
    {
        Self {
            acceleration: MovementAcceleration(acceleration),
            damping: MovementDampingFactor(damping),
        }
    }
}

impl Default for MovementBundle {
    /// The stock tuning: [`DEFAULT_ACCELERATION`] and
    /// [`DEFAULT_DAMPING`].
    fn default() -> (r: Self)
        ensures
            r == (MovementBundle {
                acceleration: MovementAcceleration(DEFAULT_ACCELERATION),
                damping: MovementDampingFactor(DEFAULT_DAMPING),
            }),
    {
        Self::new(DEFAULT_ACCELERATION, DEFAULT_DAMPING)
    }
}

/// A bundle that contains the components needed for a basic dynamic
/// character controller: a non-rotating dynamic body with no bounce.
#[derive(Clone, Copy, Debug, PartialEq, Eq, Structural)]
pub struct CharacterControllerBundle {
    pub character_controller: CharacterController,
    pub rigid_body: RigidBodyKind,
    pub collider: ColliderShape,
    pub rotation_locked: bool,
    pub movement: MovementBundle,
    pub restitution: i64,
}

impl CharacterControllerBundle {
    pub fn new(collider: ColliderShape) -> (r: Self)
        ensures
            r == (CharacterControllerBundle {
                character_controller: CharacterController,
                rigid_body: RigidBodyKind::Dynamic,
                collider,
                rotation_locked: true,
                movement: MovementBundle {
                    acceleration: MovementAcceleration(DEFAULT_ACCELERATION),
                    damping: MovementDampingFactor(DEFAULT_DAMPING),
                },
                restitution: 0,
            }),
    {
        Self {
            character_controller: CharacterController,
            rigid_body: RigidBodyKind::Dynamic,
            collider,
            rotation_locked: true,
            movement: MovementBundle::default(),
            restitution: 0,
        }
    }

    pub fn with_movement(self, acceleration: i64, damping: i64) -> (r: Self)
        requires
            0 <= acceleration <= ACCEL_LIMIT,
            0 < damping <= SCALE,
        ensures
            r == (CharacterControllerBundle {
                movement: MovementBundle {
                    acceleration: MovementAcceleration(acceleration),
                    damping: MovementDampingFactor(damping),
                },
                ..self
            }),
    {
        let mut r = self;
        r.movement = MovementBundle::new(acceleration, damping);
        r
    }
}

impl From<EntityDescriptor> for CharacterControllerBundle {
    /// Builds the player's controller from a placed entity's declared
    /// size, with the player movement tuning.
    fn from(entity_instance: EntityDescriptor) -> (r: CharacterControllerBundle) {
        let collider = ColliderShape::Cuboid {
            width: entity_instance.width,
            height: entity_instance.height,
        };
        CharacterControllerBundle::new(collider).with_movement(
            crate::player::PLAYER_ACCELERATION,
            crate::player::PLAYER_DAMPING,
        )
    }
}

impl vstd::std_specs::convert::FromSpecImpl<EntityDescriptor> for CharacterControllerBundle {
    open spec fn obeys_from_spec() -> bool {
        true
    }

    open spec fn from_spec(entity_instance: EntityDescriptor) -> Self {
        CharacterControllerBundle {
            character_controller: CharacterController,
            rigid_body: RigidBodyKind::Dynamic,
            collider: ColliderShape::Cuboid {
                width: entity_instance.width,
                height: entity_instance.height,
            },
            rotation_locked: true,
            movement: MovementBundle {
                acceleration: MovementAcceleration(crate::player::PLAYER_ACCELERATION),
                damping: MovementDampingFactor(crate::player::PLAYER_DAMPING),
            },
            restitution: 0,
        }
    }
}

} // verus!
