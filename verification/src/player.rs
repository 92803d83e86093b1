//! The player: tuning constants, the spawn bundle, the one-time
//! camera attachment, and the per-frame level selection that follows
//! the player's position.

use vstd::prelude::*;

use crate::character_controller::{CharacterControllerBundle, EntityDescriptor};
use crate::vec2::{abs_spec, Vec2, COORD_LIMIT};

verus! {

/// Acceleration applied to the player controller, in world units per
/// second squared.
pub const PLAYER_ACCELERATION: i64 = 6_000;

/// Damping factor applied to the player controller, in thousandths.
pub const PLAYER_DAMPING: i64 = 900;

/// Orthographic projection scale of the camera attached to the
/// player, in thousandths.
pub const CAMERA_PROJECTION_SCALE: i64 = 350;

/// Marker for the (at most one) player entity.
#[derive(Clone, Copy, Debug, Default, PartialEq, Eq, Structural)]
pub struct Player;

/// What spawns a player entity from level data: the marker and a
/// character controller built from the entity's declared size.
#[derive(Clone, Copy, Debug, PartialEq, Eq, Structural)]
pub struct PlayerBundle {
    pub player: Player,
    pub character_controller: CharacterControllerBundle,
}

impl From<EntityDescriptor> for PlayerBundle {
    /// Builds the player bundle from a placed entity's declared size.
    fn from(entity_instance: EntityDescriptor) -> (r: PlayerBundle) {
        PlayerBundle {
            player: Player,
            character_controller: CharacterControllerBundle::from(entity_instance),
        }
    }
}

impl vstd::std_specs::convert::FromSpecImpl<EntityDescriptor> for PlayerBundle {
    open spec fn obeys_from_spec() -> bool {
        true
    }

    open spec fn from_spec(entity_instance: EntityDescriptor) -> Self {
        PlayerBundle {
            player: Player,
            character_controller: <CharacterControllerBundle as vstd::std_specs::convert::FromSpec<
                EntityDescriptor,
            >>::from_spec(entity_instance),
        }
    }
}

/// A camera to attach as a child of a newly present player, with a
/// fixed orthographic zoom.
#[derive(Clone, Copy, Debug, PartialEq, Eq, Structural)]
pub struct CameraAttachment {
    pub parent: u64,
    pub projection_scale: i64,
}

/// One-time camera attachment: yields a camera exactly when exactly
/// one newly tagged player entity is present ("get single"
/// semantics); zero or several newly tagged players attach nothing
/// this frame.
pub fn add_player_camera(new_players: &Vec<u64>) -> (r: Option<CameraAttachment>)
    ensures
        r is Some <==> new_players@.len() == 1,
        r matches Option::Some(c) ==> c.parent == new_players@[0] && c.projection_scale
            == CAMERA_PROJECTION_SCALE,
{
    if new_players.len() == 1 {
        Option::Some(
            CameraAttachment { parent: new_players[0], projection_scale: CAMERA_PROJECTION_SCALE },
        )
    } else {
        Option::None
    }
}

/// One loaded room: its stable identifier and its axis-aligned world
/// rectangle, given as the translation of its corner plus its size,
/// all in fixed units.
#[derive(Clone, Copy, Debug, PartialEq, Eq, Structural)]
pub struct Room {
    pub iid: u64,
    pub x: i64,
    pub y: i64,
    pub width: i64,
    pub height: i64,
}

/// The process-wide current-room state: the initial index until a
/// room has been selected by identifier.
#[derive(Clone, Copy, Debug, PartialEq, Eq, Structural)]
pub enum LevelSelection {
    Index(usize),
    Iid(u64),
}

/// A room's rectangle lies within the coordinate limits, so its far
/// corner can be computed without overflow.
pub open spec fn room_bounded(r: Room) -> bool {
    &&& abs_spec(r.x as int) <= COORD_LIMIT
    &&& abs_spec(r.y as int) <= COORD_LIMIT
    &&& 0 <= r.width <= COORD_LIMIT
    &&& 0 <= r.height <= COORD_LIMIT
}

/// A room's rectangle contains a point, bounds inclusive.
pub open spec fn room_contains(r: Room, p: Vec2) -> bool {
    &&& r.x <= p.x <= r.x + r.width
    &&& r.y <= p.y <= r.y + r.height
}

/// The selection after walking the rooms in order: the last room
/// whose rectangle contains the player wins; when no rectangle does,
/// the previous selection stands.
pub open spec fn selected_level(rooms: Seq<Room>, p: Vec2, prev: LevelSelection) -> LevelSelection
    decreases rooms.len(),
{
    if rooms.len() == 0 {
        prev
    } else if room_contains(rooms.last(), p) {
        LevelSelection::Iid(rooms.last().iid)
    } else {
        selected_level(rooms.drop_last(), p, prev)
    }
}

/// A player inside no room leaves the selection unchanged.
pub proof fn lemma_selection_retained(rooms: Seq<Room>, p: Vec2, prev: LevelSelection)
    requires
        forall|k: int| 0 <= k < rooms.len() ==> !room_contains(#[trigger] rooms[k], p),
    ensures
        selected_level(rooms, p, prev) == prev,
    decreases rooms.len(),
{
    if rooms.len() > 0 {
        lemma_selection_retained(rooms.drop_last(), p, prev);
    }
}

/// Every frame, points the active level selection at the room whose
/// rectangle contains the player. Overlapping rooms resolve to the
/// last one in iteration order; a player inside no room leaves the
/// selection unchanged.
#[verifier::loop_isolation(false)]
pub fn level_selection_follow_player(
    player_position: Vec2,
    levels: &Vec<Room>,
    level_selection: &mut LevelSelection,
)
    requires
        forall|k: int| 0 <= k < levels@.len() ==> room_bounded(#[trigger] levels@[k]),
    ensures
        *final(level_selection) == selected_level(
            levels@,
            player_position,
            *old(level_selection),
        ),
        (forall|k: int| 0 <= k < levels@.len() ==> !room_contains(
            #[trigger] levels@[k],
            player_position,
        )) ==> *final(level_selection) == *old(level_selection),
{
    let mut i: usize = 0;
    while i < levels.len()
        invariant
            i <= levels@.len(),
            *level_selection == selected_level(
                levels@.take(i as int),
                player_position,
                *old(level_selection),
            ),
        decreases levels@.len() - i,
    {
        let room = levels[i];
        if room.x <= player_position.x && player_position.x <= room.x + room.width && room.y
            <= player_position.y && player_position.y <= room.y + room.height {
            *level_selection = LevelSelection::Iid(room.iid);
        }
        proof {
            assert(levels@.take(i + 1).drop_last() =~= levels@.take(i as int));
            assert(levels@.take(i + 1).last() == levels@[i as int]);
        }
        i = i + 1;
    }
    proof {
        assert(levels@.take(levels@.len() as int) =~= levels@);
        if forall|k: int| 0 <= k < levels@.len() ==> !room_contains(
            #[trigger] levels@[k],
            player_position,
        ) {
            lemma_selection_retained(levels@, player_position, *old(level_selection));
        }
    }
}

} // verus!
