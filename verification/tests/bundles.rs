use ralexjin::character_controller::{
    CharacterController, CharacterControllerBundle, ColliderShape, EntityDescriptor,
    MovementAcceleration, MovementBundle, MovementDampingFactor, RigidBodyKind,
    DEFAULT_ACCELERATION, DEFAULT_DAMPING,
};
use ralexjin::helpers::HelpersPlugin;
use ralexjin::mob::{mob_hitbox, Mob, MobBundle};
use ralexjin::player::{Player, PlayerBundle, PLAYER_ACCELERATION, PLAYER_DAMPING};

#[test]
fn movement_bundle_new_keeps_tuning() {
    let b = MovementBundle::new(6_000, 900);
    assert_eq!(b.acceleration, MovementAcceleration(6_000));
    assert_eq!(b.damping, MovementDampingFactor(900));
}

#[test]
fn movement_bundle_default_tuning() {
    let b = MovementBundle::default();
    assert_eq!(b.acceleration, MovementAcceleration(10_000));
    assert_eq!(b.damping, MovementDampingFactor(950));
    assert_eq!(DEFAULT_ACCELERATION, 10_000);
    assert_eq!(DEFAULT_DAMPING, 950);
}

#[test]
fn controller_bundle_new_is_a_locked_dynamic_body() {
    let collider = ColliderShape::Cuboid { width: 16, height: 24 };
    let b = CharacterControllerBundle::new(collider);
    assert_eq!(b.character_controller, CharacterController);
    assert_eq!(b.rigid_body, RigidBodyKind::Dynamic);
    assert_eq!(b.collider, collider);
    assert!(b.rotation_locked);
    assert_eq!(b.restitution, 0);
    assert_eq!(b.movement, MovementBundle::default());
}

#[test]
fn with_movement_replaces_only_the_tuning() {
    let collider = ColliderShape::Cuboid { width: 16, height: 24 };
    let b = CharacterControllerBundle::new(collider).with_movement(6_000, 900);
    assert_eq!(b.movement, MovementBundle::new(6_000, 900));
    assert_eq!(b.collider, collider);
    assert_eq!(b.rigid_body, RigidBodyKind::Dynamic);
}

#[test]
fn controller_bundle_from_descriptor_uses_player_tuning() {
    let b = CharacterControllerBundle::from(EntityDescriptor { width: 16, height: 24 });
    assert_eq!(b.collider, ColliderShape::Cuboid { width: 16, height: 24 });
    assert_eq!(b.movement, MovementBundle::new(PLAYER_ACCELERATION, PLAYER_DAMPING));
    assert_eq!(PLAYER_ACCELERATION, 6_000);
    assert_eq!(PLAYER_DAMPING, 900);
}

#[test]
fn player_bundle_from_descriptor() {
    let d = EntityDescriptor { width: 16, height: 24 };
    let b = PlayerBundle::from(d);
    assert_eq!(b.player, Player);
    assert_eq!(b.character_controller, CharacterControllerBundle::from(d));
}

#[test]
fn mob_hitbox_matches_declared_size() {
    let d = EntityDescriptor { width: 32, height: 48 };
    assert_eq!(mob_hitbox(&d), ColliderShape::Cuboid { width: 32, height: 48 });
}

#[test]
fn mob_bundle_from_descriptor() {
    let d = EntityDescriptor { width: 32, height: 48 };
    let b = MobBundle::from(d);
    assert_eq!(b.mob, Mob);
    assert_eq!(b.collider, ColliderShape::Cuboid { width: 32, height: 48 });
}

#[test]
fn helpers_default_enables_inspector() {
    assert!(HelpersPlugin::default().inspector);
}
