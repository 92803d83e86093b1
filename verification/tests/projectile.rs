use ralexjin::attack::{
    aim_direction, fireball_collisions, player_attack, spawn_velocity, Attack, Projectile,
    ProjectileSpawn, ShooterState, ATTACK_DAMAGE, LAUNCH_SPEED, PROJECTILE_RADIUS,
};
use ralexjin::character_controller::{ColliderShape, RigidBodyKind};
use ralexjin::vec2::Vec2;

#[test]
fn aim_at_own_position_falls_back_to_unit_x() {
    let p = Vec2 { x: 4_000, y: -7_000 };
    assert_eq!(aim_direction(p, p), Vec2 { x: 1000, y: 0 });
}

#[test]
fn aim_along_axis_is_exact_unit() {
    let origin = Vec2 { x: 0, y: 0 };
    assert_eq!(aim_direction(origin, Vec2 { x: 5_000, y: 0 }), Vec2 { x: 1000, y: 0 });
    assert_eq!(aim_direction(origin, Vec2 { x: 0, y: -5_000 }), Vec2 { x: 0, y: -1000 });
}

#[test]
fn aim_diagonal_is_normalized() {
    // A 3-4-5 triangle normalizes exactly.
    let origin = Vec2 { x: 0, y: 0 };
    assert_eq!(aim_direction(origin, Vec2 { x: 3_000, y: 4_000 }), Vec2 { x: 600, y: 800 });
    assert_eq!(aim_direction(origin, Vec2 { x: -3_000, y: 4_000 }), Vec2 { x: -600, y: 800 });
}

#[test]
fn aim_magnitude_never_exceeds_unit() {
    let player = Vec2 { x: 100, y: -200 };
    for (x, y) in [(1, 0), (7, 13), (-100_000, 3), (250, 250), (-1, -1)] {
        let d = aim_direction(player, Vec2 { x: player.x + x, y: player.y + y });
        assert!(d.x * d.x + d.y * d.y <= 1000 * 1000);
    }
}

#[test]
fn spawn_velocity_composes_momentum() {
    // Aim along unit +x: projectile velocity is (launch speed, 0) plus
    // the shooter's velocity, exactly.
    let v = spawn_velocity(Vec2 { x: 1000, y: 0 }, Vec2 { x: 123, y: 456 });
    assert_eq!(v, Vec2 { x: LAUNCH_SPEED + 123, y: 456 });
}

#[test]
fn spawn_velocity_scales_direction() {
    let v = spawn_velocity(Vec2 { x: 600, y: -800 }, Vec2 { x: 0, y: 0 });
    assert_eq!(v, Vec2 { x: 60_000, y: -80_000 });
}

#[test]
fn attack_new_keeps_amount() {
    assert_eq!(Attack::new(7).amount, 7);
}

#[test]
fn fire_without_trigger_spawns_nothing() {
    let p = ShooterState { position: Vec2 { x: 0, y: 0 }, velocity: Vec2 { x: 0, y: 0 } };
    assert_eq!(player_attack(false, Some(Vec2 { x: 100, y: 0 }), Some(p)), None);
}

#[test]
fn fire_without_cursor_spawns_nothing() {
    let p = ShooterState { position: Vec2 { x: 0, y: 0 }, velocity: Vec2 { x: 0, y: 0 } };
    assert_eq!(player_attack(true, None, Some(p)), None);
}

#[test]
fn fire_without_player_spawns_nothing() {
    assert_eq!(player_attack(true, Some(Vec2 { x: 100, y: 0 }), None), None);
}

#[test]
fn fire_spawns_the_full_projectile() {
    let p = ShooterState {
        position: Vec2 { x: 10_000, y: 20_000 },
        velocity: Vec2 { x: 300, y: -400 },
    };
    let cursor = Vec2 { x: 15_000, y: 20_000 };
    let spawn = player_attack(true, Some(cursor), Some(p)).expect("a projectile");
    assert_eq!(
        spawn,
        ProjectileSpawn {
            projectile: Projectile,
            attack: Attack { amount: ATTACK_DAMAGE },
            collider: ColliderShape::Ball { radius: PROJECTILE_RADIUS },
            sensor: true,
            rigid_body: RigidBodyKind::Dynamic,
            rotation_locked: true,
            velocity: Vec2 { x: LAUNCH_SPEED + 300, y: -400 },
            position: p.position,
        }
    );
}

#[test]
fn projectile_on_wall_despawns() {
    let events = vec![(1u64, 2u64)];
    let projectiles = vec![1u64];
    let walls = vec![2u64];
    assert_eq!(fireball_collisions(&events, &projectiles, &walls), vec![1u64]);
}

#[test]
fn collision_order_does_not_matter() {
    let projectiles = vec![1u64];
    let walls = vec![2u64];
    let forward = fireball_collisions(&vec![(1u64, 2u64)], &projectiles, &walls);
    let reversed = fireball_collisions(&vec![(2u64, 1u64)], &projectiles, &walls);
    assert_eq!(forward, vec![1u64]);
    assert_eq!(reversed, vec![1u64]);
}

#[test]
fn unrelated_collisions_despawn_nothing() {
    let projectiles = vec![1u64];
    let walls = vec![2u64];
    // Wall-wall, projectile-projectile, and strangers: nothing happens.
    let events = vec![(2u64, 2u64), (1u64, 1u64), (3u64, 4u64), (1u64, 3u64), (3u64, 2u64)];
    assert_eq!(fireball_collisions(&events, &projectiles, &walls), vec![]);
}

#[test]
fn each_event_is_handled_in_order() {
    let projectiles = vec![1u64, 3u64];
    let walls = vec![2u64, 4u64];
    let events = vec![(1u64, 2u64), (4u64, 3u64), (5u64, 2u64)];
    assert_eq!(fireball_collisions(&events, &projectiles, &walls), vec![1u64, 3u64]);
}
