//! The projectile subsystem: aiming at the cursor, composing the
//! spawn velocity with the shooter's momentum, and despawning
//! projectiles that hit walls.

use vstd::prelude::*;

use crate::character_controller::{ColliderShape, RigidBodyKind, VEL_LIMIT};
use crate::vec2::{
    abs_spec, abs_u64, isqrt, lemma_sqrt_ceil_bounds, mag_sq, scale_div, sqrt_ceil, Vec2,
    COORD_LIMIT, SCALE,
};

verus! {

/// Damage carried by a fired projectile.
pub const ATTACK_DAMAGE: i32 = 10;

/// Radius of a projectile's circular collider, in world units.
pub const PROJECTILE_RADIUS: i64 = 10;

/// Speed added along the aim direction, in fixed units per second.
pub const LAUNCH_SPEED: i64 = 100_000;

/// An attack payload: how much damage a hit deals.
#[derive(Clone, Copy, Debug, PartialEq, Eq, Structural)]
pub struct Attack {
    pub amount: i32,
}

impl Attack {
    pub fn new(amount: i32) -> (r: Self)
        ensures
            r.amount == amount,
    {
        Attack { amount }
    }
}

/// Marker for projectile entities.
#[derive(Clone, Copy, Debug, Default, PartialEq, Eq, Structural)]
pub struct Projectile;

/// The player state the fire trigger reads: world position and
/// current linear velocity, in fixed units.
#[derive(Clone, Copy, Debug, PartialEq, Eq, Structural)]
pub struct ShooterState {
    pub position: Vec2,
    pub velocity: Vec2,
}

/// Everything a freshly fired projectile carries: a sensor on a
/// non-rotating dynamic body, with a fixed attack payload, spawned at
/// the shooter's position.
#[derive(Clone, Copy, Debug, PartialEq, Eq, Structural)]
pub struct ProjectileSpawn {
    pub projectile: Projectile,
    pub attack: Attack,
    pub collider: ColliderShape,
    pub sensor: bool,
    pub rigid_body: RigidBodyKind,
    pub rotation_locked: bool,
    pub velocity: Vec2,
    pub position: Vec2,
}

/// The aim direction: the unit vector from the player toward the
/// cursor, or unit +x when the cursor sits exactly on the player.
pub open spec fn aim_direction_spec(player: Vec2, cursor: Vec2) -> Vec2 {
    let dx = cursor.x - player.x;
    let dy = cursor.y - player.y;
    if dx == 0 && dy == 0 {
        Vec2 { x: SCALE, y: 0 }
    } else {
        let l = sqrt_ceil(dx * dx + dy * dy);
        Vec2 {
            x: scale_div(dx, SCALE as int, l) as i64,
            y: scale_div(dy, SCALE as int, l) as i64,
        }
    }
}

/// Computes the aim direction from the player toward the cursor,
/// normalized to at most unit length; a cursor exactly on the player
/// falls back to unit +x rather than a degenerate vector.
pub fn aim_direction(player: Vec2, cursor: Vec2) -> (dir: Vec2)
    requires
        abs_spec(player.x as int) <= COORD_LIMIT,
        abs_spec(player.y as int) <= COORD_LIMIT,
        abs_spec(cursor.x as int) <= COORD_LIMIT,
        abs_spec(cursor.y as int) <= COORD_LIMIT,
    ensures
        dir == aim_direction_spec(player, cursor),
        mag_sq(dir) <= SCALE * SCALE,
        cursor == player ==> dir == (Vec2 { x: SCALE, y: 0 }),
{
    let dx: i64 = cursor.x - player.x;
    let dy: i64 = cursor.y - player.y;
    if dx == 0 && dy == 0 {
        Vec2 { x: SCALE, y: 0 }
    } else {
        let ax = abs_u64(dx);
        let ay = abs_u64(dy);
        proof {
            assert(ax * ax == dx * dx && ay * ay == dy * dy) by (nonlinear_arith)
                requires
                    ax == abs_spec(dx as int),
                    ay == abs_spec(dy as int),
            {}
            assert(ax * ax <= 4_000_000_000_000_000_000 && ay * ay <= 4_000_000_000_000_000_000)
                by (nonlinear_arith)
                requires
                    0 <= ax <= 2_000_000_000,
                    0 <= ay <= 2_000_000_000,
            {}
        }
        let n: u64 = ax * ax + ay * ay;
        proof {
            assert(n >= 1) by (nonlinear_arith)
                requires
                    ax >= 1 || ay >= 1,
                    ax >= 0,
                    ay >= 0,
                    n == ax * ax + ay * ay,
            {}
        }
        let s = isqrt(n);
        let l: u64 = if s * s < n {
            s + 1
        } else {
            s
        };
        proof {
            assert(l == sqrt_ceil(n as int));
            lemma_sqrt_ceil_bounds(n as int);
        }
        let qx: u64 = ax * (SCALE as u64) / l;
        let qy: u64 = ay * (SCALE as u64) / l;
        proof {
            crate::vec2::lemma_scaled_mag(ax as int, ay as int, l as int, qx as int, qy as int);
            assert(qx <= ax * SCALE && qy <= ay * SCALE) by {
                crate::vec2::lemma_div_bounds(ax * SCALE, l as int);
                crate::vec2::lemma_div_bounds(ay * SCALE, l as int);
                assert(qx * 1 <= qx * (l as int) && qy * 1 <= qy * (l as int)) by (nonlinear_arith)
                    requires
                        0 <= qx,
                        0 <= qy,
                        1 <= l,
                {}
            }
        }
        let rx: i64 = if dx < 0 {
            -(qx as i64)
        } else {
            qx as i64
        };
        let ry: i64 = if dy < 0 {
            -(qy as i64)
        } else {
            qy as i64
        };
        let dir = Vec2 { x: rx, y: ry };
        proof {
            assert(mag_sq(dir) == qx * qx + qy * qy) by (nonlinear_arith)
                requires
                    rx == qx || rx == -(qx as int),
                    ry == qy || ry == -(qy as int),
                    mag_sq(dir) == rx * rx + ry * ry,
            {}
        }
        dir
    }
}

/// The contribution of the launch speed along one component of the
/// aim direction.
pub open spec fn launch_component(c: int) -> int {
    scale_div(c, LAUNCH_SPEED as int, SCALE as int)
}

/// The velocity a projectile spawns with: the launch speed along the
/// aim direction plus the shooter's own velocity, so the projectile
/// inherits the shooter's momentum.
pub fn spawn_velocity(dir: Vec2, player_velocity: Vec2) -> (v: Vec2)
    requires
        abs_spec(dir.x as int) <= SCALE,
        abs_spec(dir.y as int) <= SCALE,
        abs_spec(player_velocity.x as int) <= VEL_LIMIT,
        abs_spec(player_velocity.y as int) <= VEL_LIMIT,
    ensures
        v.x == player_velocity.x + launch_component(dir.x as int),
        v.y == player_velocity.y + launch_component(dir.y as int),
{
    let lx = launch_part(dir.x);
    let ly = launch_part(dir.y);
    Vec2 { x: player_velocity.x + lx, y: player_velocity.y + ly }
}

/// One component of the launch velocity.
fn launch_part(c: i64) -> (r: i64)
    requires
        abs_spec(c as int) <= SCALE,
    ensures
        r == launch_component(c as int),
        abs_spec(r as int) <= LAUNCH_SPEED,
{
    let ac: u64 = abs_u64(c);
    proof {
        assert(0 <= ac * LAUNCH_SPEED && ac * LAUNCH_SPEED <= 100_000_000_000) by (nonlinear_arith)
            requires
                0 <= ac <= 1000,
                LAUNCH_SPEED == 100_000,
        {}
    }
    let q: u64 = (ac * (LAUNCH_SPEED as u64)) / (SCALE as u64);
    proof {
        vstd::arithmetic::div_mod::lemma_div_pos_is_pos(ac * LAUNCH_SPEED, SCALE as int);
        assert(ac * LAUNCH_SPEED <= SCALE * LAUNCH_SPEED) by (nonlinear_arith)
            requires
                0 <= ac <= SCALE,
                0 <= LAUNCH_SPEED,
        {}
        vstd::arithmetic::div_mod::lemma_div_is_ordered(
            ac * LAUNCH_SPEED,
            SCALE * LAUNCH_SPEED,
            SCALE as int,
        );
        vstd::arithmetic::div_mod::lemma_div_multiples_vanish(LAUNCH_SPEED as int, SCALE as int);
    }
    if c < 0 {
        -(q as i64)
    } else {
        q as i64
    }
}

/// Momentum round trip: with the aim along unit +x, the launch
/// contribution is exactly `(LAUNCH_SPEED, 0)`, so by the contract of
/// [`spawn_velocity`] the projectile spawns with exactly
/// `(LAUNCH_SPEED, 0)` plus the shooter's velocity.
pub proof fn lemma_spawn_velocity_unit_x()
    ensures
        launch_component(SCALE as int) == LAUNCH_SPEED,
        launch_component(0) == 0,
{
    vstd::arithmetic::div_mod::lemma_div_multiples_vanish(LAUNCH_SPEED as int, SCALE as int);
    vstd::arithmetic::div_mod::lemma_div_of0(SCALE as int);
}

/// The full projectile a fire trigger spawns for a given shooter and
/// cursor position.
pub open spec fn fire_spawn_spec(p: ShooterState, cursor_world: Vec2) -> ProjectileSpawn {
    let dir = aim_direction_spec(p.position, cursor_world);
    ProjectileSpawn {
        projectile: Projectile,
        attack: Attack { amount: ATTACK_DAMAGE },
        collider: ColliderShape::Ball { radius: PROJECTILE_RADIUS },
        sensor: true,
        rigid_body: RigidBodyKind::Dynamic,
        rotation_locked: true,
        velocity: Vec2 {
            x: (p.velocity.x + launch_component(dir.x as int)) as i64,
            y: (p.velocity.y + launch_component(dir.y as int)) as i64,
        },
        position: p.position,
    }
}

/// On a fire trigger (the press edge, not a held button), spawns a
/// projectile aimed from the player toward the cursor. Nothing spawns
/// when the trigger is absent, the cursor is outside the window, or
/// no player is present (each lookup is optional, and this frame then
/// no-ops).
pub fn player_attack(
    fire_just_pressed: bool,
    cursor_world: Option<Vec2>,
    player: Option<ShooterState>,
) -> (r: Option<ProjectileSpawn>)
    requires
        player matches Option::Some(p) ==> abs_spec(p.position.x as int) <= COORD_LIMIT && abs_spec(
            p.position.y as int,
        ) <= COORD_LIMIT && abs_spec(p.velocity.x as int) <= VEL_LIMIT && abs_spec(
            p.velocity.y as int,
        ) <= VEL_LIMIT,
        cursor_world matches Option::Some(c) ==> abs_spec(c.x as int) <= COORD_LIMIT && abs_spec(
            c.y as int,
        ) <= COORD_LIMIT,
    ensures
        r is Some <==> fire_just_pressed && cursor_world is Some && player is Some,
        cursor_world matches Option::Some(c) ==> (player matches Option::Some(p) ==> (
        fire_just_pressed ==> r == Option::Some(fire_spawn_spec(p, c)))),
{
    if !fire_just_pressed {
        return Option::None;
    }
    match (cursor_world, player) {
        (Option::Some(c), Option::Some(p)) => {
            let dir = aim_direction(p.position, c);
            proof {
                crate::vec2::lemma_mag_component_bound(dir);
            }
            let velocity = spawn_velocity(dir, p.velocity);
            Option::Some(
                ProjectileSpawn {
                    projectile: Projectile,
                    attack: Attack::new(ATTACK_DAMAGE),
                    collider: ColliderShape::Ball { radius: PROJECTILE_RADIUS },
                    sensor: true,
                    rigid_body: RigidBodyKind::Dynamic,
                    rotation_locked: true,
                    velocity,
                    position: p.position,
                },
            )
        },
        _ => Option::None,
    }
}

/// The projectiles one collision pair despawns: each side that is a
/// projectile and whose partner is a wall, both orderings checked.
pub open spec fn despawns_for(ev: (u64, u64), projectiles: Seq<u64>, walls: Seq<u64>) -> Seq<u64> {
    (if projectiles.contains(ev.0) && walls.contains(ev.1) {
        seq![ev.0]
    } else {
        Seq::empty()
    }) + (if projectiles.contains(ev.1) && walls.contains(ev.0) {
        seq![ev.1]
    } else {
        Seq::empty()
    })
}

/// The projectiles a frame's collision events despawn, in event
/// order.
pub open spec fn despawn_list(
    events: Seq<(u64, u64)>,
    projectiles: Seq<u64>,
    walls: Seq<u64>,
) -> Seq<u64>
    decreases events.len(),
{
    if events.len() == 0 {
        Seq::empty()
    } else {
        despawn_list(events.drop_last(), projectiles, walls) + despawns_for(
            events.last(),
            projectiles,
            walls,
        )
    }
}

/// Whether an id occurs in a list of entity ids.
fn contains_id(ids: &Vec<u64>, id: u64) -> (r: bool)
    ensures
        r == ids@.contains(id),
{
    let mut i: usize = 0;
    while i < ids.len()
        invariant
            i <= ids@.len(),
            forall|k: int| 0 <= k < i ==> ids@[k] != id,
        decreases ids@.len() - i,
    {
        if ids[i] == id {
            proof {
                assert(ids@[i as int] == id);
            }
            return true;
        }
        i = i + 1;
    }
    false
}

/// Walks the frame's collision-start events and despawns, for each
/// pair in either ordering, the side that is a projectile touching a
/// wall. Only projectiles are ever despawned.
#[verifier::loop_isolation(false)]
pub fn fireball_collisions(
    collision_events: &Vec<(u64, u64)>,
    projectiles: &Vec<u64>,
    walls: &Vec<u64>,
) -> (despawned: Vec<u64>)
    ensures
        despawned@ == despawn_list(collision_events@, projectiles@, walls@),
        forall|k: int| 0 <= k < despawned@.len() ==> projectiles@.contains(#[trigger] despawned@[k]),
{
    let mut despawned: Vec<u64> = Vec::new();
    let mut i: usize = 0;
    while i < collision_events.len()
        invariant
            i <= collision_events@.len(),
            despawned@ == despawn_list(collision_events@.take(i as int), projectiles@, walls@),
            forall|k: int| 0 <= k < despawned@.len() ==> projectiles@.contains(
                #[trigger] despawned@[k],
            ),
        decreases collision_events@.len() - i,
    {
        let (entity1, entity2) = collision_events[i];
        if contains_id(projectiles, entity1) && contains_id(walls, entity2) {
            despawned.push(entity1);
        }
        if contains_id(projectiles, entity2) && contains_id(walls, entity1) {
            despawned.push(entity2);
        }
        proof {
            assert(collision_events@.take(i + 1).drop_last() =~= collision_events@.take(i as int));
            assert(collision_events@.take(i + 1).last() == collision_events@[i as int]);
        }
        i = i + 1;
    }
    proof {
        assert(collision_events@.take(collision_events@.len() as int) =~= collision_events@);
    }
    despawned
}

/// Which projectile a wall collision removes does not depend on the
/// order in which the physics collaborator reports the pair: the same
/// entities are despawned for `(a, b)` as for `(b, a)`.
pub proof fn lemma_collision_order_symmetric(a: u64, b: u64, projectiles: Seq<u64>, walls: Seq<u64>)
    ensures
        forall|e: u64|
            despawn_list(seq![(a, b)], projectiles, walls).contains(e) <==> despawn_list(
                seq![(b, a)],
                projectiles,
                walls,
            ).contains(e),
{
    let ab = seq![(a, b)];
    let ba = seq![(b, a)];
    assert(ab.len() == 1 && ab.last() == (a, b));
    assert(ba.len() == 1 && ba.last() == (b, a));
    assert(ab.drop_last() =~= Seq::<(u64, u64)>::empty());
    assert(ba.drop_last() =~= Seq::<(u64, u64)>::empty());
    assert(despawn_list(Seq::<(u64, u64)>::empty(), projectiles, walls) =~= Seq::<u64>::empty());
    assert(despawn_list(ab, projectiles, walls) =~= despawns_for((a, b), projectiles, walls));
    assert(despawn_list(ba, projectiles, walls) =~= despawns_for((b, a), projectiles, walls));
    let da = despawns_for((a, b), projectiles, walls);
    let db = despawns_for((b, a), projectiles, walls);
    assert forall|e: u64| da.contains(e) implies db.contains(e) by {
        assert(e == a || e == b);
        assert(db.contains(e)) by {
            if e == a && projectiles.contains(a) && walls.contains(b) {
                assert(db[db.len() - 1] == a);
            } else {
                assert(db[0] == b);
            }
        }
    }
    assert forall|e: u64| db.contains(e) implies da.contains(e) by {
        assert(e == a || e == b);
        assert(da.contains(e)) by {
            if e == b && projectiles.contains(b) && walls.contains(a) {
                assert(da[da.len() - 1] == b);
            } else {
                assert(da[0] == a);
            }
        }
    }
}

} // verus!
