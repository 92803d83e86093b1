use ralexjin::character_controller::{
    apply_movement_damping, movement, movement_frame, ControllerState, DeltaTime, GamepadAxes,
    KeyPair, KeyboardState, MovementAcceleration, MovementAction, MovementDampingFactor,
};
use ralexjin::vec2::Vec2;

fn controller(acc: i64, damping: i64, vx: i64, vy: i64) -> ControllerState {
    ControllerState {
        acceleration: MovementAcceleration(acc),
        damping: MovementDampingFactor(damping),
        velocity: Vec2 { x: vx, y: vy },
    }
}

fn idle_keyboard() -> KeyboardState {
    KeyboardState {
        up: KeyPair { primary: false, secondary: false },
        down: KeyPair { primary: false, secondary: false },
        left: KeyPair { primary: false, secondary: false },
        right: KeyPair { primary: false, secondary: false },
    }
}

fn right_keyboard() -> KeyboardState {
    KeyboardState {
        up: KeyPair { primary: false, secondary: false },
        down: KeyPair { primary: false, secondary: false },
        left: KeyPair { primary: false, secondary: false },
        right: KeyPair { primary: true, secondary: false },
    }
}

const DT_60: DeltaTime = DeltaTime { num: 1, den: 60 };

#[test]
fn one_intent_accelerates() {
    // 1.0 * 10000 / 60 = 166666 fixed units per second, truncated.
    let actions = vec![MovementAction::Move(Vec2 { x: 1000, y: 0 })];
    let mut cs = vec![controller(10_000, 950, 0, 0)];
    movement(&actions, &DT_60, &mut cs);
    assert_eq!(cs[0].velocity, Vec2 { x: 166_666, y: 0 });
}

#[test]
fn vertical_axis_is_inverted() {
    let actions = vec![MovementAction::Move(Vec2 { x: 0, y: 1000 })];
    let mut cs = vec![controller(10_000, 950, 0, 0)];
    movement(&actions, &DT_60, &mut cs);
    assert_eq!(cs[0].velocity, Vec2 { x: 0, y: -166_666 });
}

#[test]
fn every_intent_hits_every_controller() {
    let actions = vec![
        MovementAction::Move(Vec2 { x: 1000, y: 0 }),
        MovementAction::Move(Vec2 { x: -1000, y: 0 }),
        MovementAction::Move(Vec2 { x: 1000, y: 0 }),
    ];
    let mut cs = vec![controller(6_000, 900, 100, 200), controller(12_000, 950, -50, 0)];
    movement(&actions, &DT_60, &mut cs);
    // Each intent adds +/- acc/60 (in fixed units) to x; the sum is one
    // positive contribution: 6000000/60 = 100000 and 12000000/60 = 200000.
    assert_eq!(cs[0].velocity, Vec2 { x: 100 + 100_000, y: 200 });
    assert_eq!(cs[1].velocity, Vec2 { x: -50 + 200_000, y: 0 });
    // Tuning is untouched.
    assert_eq!(cs[0].acceleration, MovementAcceleration(6_000));
    assert_eq!(cs[1].damping, MovementDampingFactor(950));
}

#[test]
fn damping_scales_each_component_exactly() {
    let mut cs = vec![controller(10_000, 950, 1000, -500)];
    apply_movement_damping(&mut cs);
    assert_eq!(cs[0].velocity, Vec2 { x: 950, y: -475 });
}

#[test]
fn damping_truncates_toward_zero() {
    let mut cs = vec![controller(10_000, 950, 999, -999)];
    apply_movement_damping(&mut cs);
    // 999 * 950 / 1000 = 949.05, truncated toward zero on both signs.
    assert_eq!(cs[0].velocity, Vec2 { x: 949, y: -949 });
}

#[test]
fn damping_of_one_keeps_velocity() {
    let mut cs = vec![controller(10_000, 1000, 12_345, -6_789)];
    apply_movement_damping(&mut cs);
    assert_eq!(cs[0].velocity, Vec2 { x: 12_345, y: -6_789 });
}

#[test]
fn frame_with_zero_intents_is_pure_decay() {
    // No keys, no gamepads: after the frame the velocity is exactly the
    // previous velocity times the damping factor.
    let mut cs = vec![controller(10_000, 900, 2000, -1000)];
    movement_frame(&idle_keyboard(), &vec![], &DT_60, &mut cs);
    assert_eq!(cs[0].velocity, Vec2 { x: 1800, y: -900 });
}

#[test]
fn frame_accelerates_then_damps() {
    // One frame of holding right: v = (0 + 10000000/60) * 950 / 1000.
    let mut cs = vec![controller(10_000, 950, 0, 0)];
    movement_frame(&right_keyboard(), &vec![], &DT_60, &mut cs);
    assert_eq!(cs[0].velocity, Vec2 { x: 158_332, y: 0 });
}

#[test]
fn frame_takes_keyboard_and_gamepads() {
    let pads = vec![GamepadAxes { left_stick_x: Some(1000), left_stick_y: Some(0) }];
    let mut cs = vec![controller(10_000, 1000, 0, 0)];
    movement_frame(&right_keyboard(), &pads, &DT_60, &mut cs);
    // Two full-right intents, no damping loss at factor 1000.
    assert_eq!(cs[0].velocity, Vec2 { x: 333_332, y: 0 });
}

#[test]
fn constant_intent_converges_to_fixed_point() {
    // Boundary numbers: damping 0.95, acceleration 10000, dt 1/60.
    // The per-frame gain is 166666, and the velocity must stay under
    // the geometric-series bound 166666 * 1000 / (1000 - 950).
    let bound: i64 = 166_666 * 1000 / 50;
    let mut cs = vec![controller(10_000, 950, 0, 0)];
    let mut previous: i64 = 0;
    for _ in 0..200 {
        movement_frame(&right_keyboard(), &vec![], &DT_60, &mut cs);
        let vx = cs[0].velocity.x;
        assert!(vx <= bound);
        assert!(vx >= previous);
        previous = vx;
    }
    // After 200 frames the velocity has climbed close to the bound.
    assert!(previous > 3_000_000);
    assert_eq!(cs[0].velocity.y, 0);
}
