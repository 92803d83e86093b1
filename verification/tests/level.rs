use ralexjin::player::{
    add_player_camera, level_selection_follow_player, CameraAttachment, LevelSelection, Room,
    CAMERA_PROJECTION_SCALE,
};
use ralexjin::vec2::Vec2;

fn room(iid: u64, x: i64, y: i64, width: i64, height: i64) -> Room {
    Room { iid, x, y, width, height }
}

// Two non-overlapping rooms: [(0,0),(100,100)] and [(200,0),(300,100)]
// in world units, in fixed units here.
fn two_rooms() -> Vec<Room> {
    vec![room(11, 0, 0, 100_000, 100_000), room(22, 200_000, 0, 100_000, 100_000)]
}

#[test]
fn player_in_first_room_selects_it() {
    let mut selection = LevelSelection::Index(0);
    level_selection_follow_player(Vec2 { x: 50_000, y: 50_000 }, &two_rooms(), &mut selection);
    assert_eq!(selection, LevelSelection::Iid(11));
}

#[test]
fn player_in_second_room_selects_it() {
    let mut selection = LevelSelection::Index(0);
    level_selection_follow_player(Vec2 { x: 250_000, y: 50_000 }, &two_rooms(), &mut selection);
    assert_eq!(selection, LevelSelection::Iid(22));
}

#[test]
fn player_in_the_gap_retains_selection() {
    let mut selection = LevelSelection::Index(0);
    level_selection_follow_player(Vec2 { x: 150_000, y: 50_000 }, &two_rooms(), &mut selection);
    assert_eq!(selection, LevelSelection::Index(0));

    let mut selection = LevelSelection::Iid(11);
    level_selection_follow_player(Vec2 { x: 150_000, y: 50_000 }, &two_rooms(), &mut selection);
    assert_eq!(selection, LevelSelection::Iid(11));
}

#[test]
fn room_bounds_are_inclusive() {
    let rooms = vec![room(11, 0, 0, 100_000, 100_000)];
    let mut selection = LevelSelection::Index(0);
    level_selection_follow_player(Vec2 { x: 100_000, y: 0 }, &rooms, &mut selection);
    assert_eq!(selection, LevelSelection::Iid(11));

    let mut selection = LevelSelection::Index(0);
    level_selection_follow_player(Vec2 { x: 100_001, y: 0 }, &rooms, &mut selection);
    assert_eq!(selection, LevelSelection::Index(0));
}

#[test]
fn overlapping_rooms_resolve_to_the_last() {
    let rooms = vec![room(11, 0, 0, 100_000, 100_000), room(22, 50_000, 0, 100_000, 100_000)];
    let mut selection = LevelSelection::Index(0);
    level_selection_follow_player(Vec2 { x: 75_000, y: 50_000 }, &rooms, &mut selection);
    assert_eq!(selection, LevelSelection::Iid(22));
}

#[test]
fn no_rooms_retains_selection() {
    let mut selection = LevelSelection::Iid(7);
    level_selection_follow_player(Vec2 { x: 0, y: 0 }, &vec![], &mut selection);
    assert_eq!(selection, LevelSelection::Iid(7));
}

#[test]
fn camera_attaches_to_a_single_new_player() {
    let r = add_player_camera(&vec![42u64]);
    assert_eq!(r, Some(CameraAttachment { parent: 42, projection_scale: CAMERA_PROJECTION_SCALE }));
    assert_eq!(CAMERA_PROJECTION_SCALE, 350);
}

#[test]
fn camera_skips_zero_or_many_new_players() {
    assert_eq!(add_player_camera(&vec![]), None);
    assert_eq!(add_player_camera(&vec![1u64, 2u64]), None);
}
