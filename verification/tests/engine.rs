//! Ordering and rotation engine behaviour on concrete tile sets.

use cavegen::model::{CaveUnit, DoorUnit, RoomType};
use cavegen::order::sort_cave_units;
use cavegen::rotation::expand_rotations;

fn door(direction: u16, offset: u16) -> DoorUnit {
    DoorUnit {
        direction,
        side_lateral_offset: offset,
        waypoint_index: 0,
        num_links: 0,
        door_links: Vec::new(),
    }
}

fn unit(name: &str, width: u16, height: u16, doors: Vec<DoorUnit>) -> CaveUnit {
    CaveUnit {
        unit_folder_name: name.to_string(),
        width,
        height,
        room_type: RoomType::Room,
        num_doors: doors.len(),
        doors,
        rotation: 0,
        spawn_points: Vec::new(),
    }
}

fn names(units: &[CaveUnit]) -> Vec<String> {
    units.iter().map(|u| u.unit_folder_name.clone()).collect()
}

/// Reference fixture: areas [4, 4, 2, 4] with door counts [1, 2, 1, 3]
/// reorder, under the relocation procedure, to [t2, t0, t1, t3] — not the
/// order a stable sort would give for the relocated elements.
#[test]
fn test_sort_fixture() {
    let input = vec![
        unit("t0", 2, 2, vec![door(0, 0)]),
        unit("t1", 2, 2, vec![door(0, 0), door(0, 1)]),
        unit("t2", 2, 1, vec![door(0, 0)]),
        unit("t3", 2, 2, vec![door(0, 0), door(1, 0), door(2, 0)]),
    ];
    let sorted = sort_cave_units(input);
    assert_eq!(names(&sorted), vec!["t2", "t0", "t1", "t3"]);
}

/// Determinism: running the procedure twice over the same input gives
/// identical sequences.
#[test]
fn test_sort_deterministic() {
    let build = || {
        vec![
            unit("a", 3, 1, vec![door(0, 0), door(0, 2)]),
            unit("b", 1, 3, vec![door(1, 0)]),
            unit("c", 3, 1, vec![door(0, 1)]),
            unit("d", 2, 2, vec![door(2, 1)]),
        ]
    };
    let first = sort_cave_units(build());
    let second = sort_cave_units(build());
    assert_eq!(names(&first), names(&second));
}

/// The result is non-decreasing under (area, door count).
#[test]
fn test_sort_non_decreasing() {
    let input = vec![
        unit("a", 4, 2, vec![door(0, 0)]),
        unit("b", 1, 1, vec![door(0, 0), door(2, 0)]),
        unit("c", 2, 2, vec![door(0, 1)]),
        unit("d", 1, 1, vec![door(0, 0)]),
        unit("e", 2, 4, vec![door(3, 0)]),
    ];
    let sorted = sort_cave_units(input);
    for w in sorted.windows(2) {
        let key = |u: &CaveUnit| (u.width as u32 * u.height as u32, u.num_doors);
        assert!(key(&w[0]) <= key(&w[1]));
    }
}

/// Four single quarter turns return rotation state and dimensions to the
/// original values.
#[test]
fn test_rotation_round_trip() {
    let u = unit("room", 3, 2, vec![door(0, 1), door(1, 0)]);
    let rotated = u
        .copy_and_rotate_to(1)
        .copy_and_rotate_to(1)
        .copy_and_rotate_to(1)
        .copy_and_rotate_to(1);
    assert_eq!(rotated.rotation, u.rotation);
    assert_eq!(rotated.width, u.width);
    assert_eq!(rotated.height, u.height);
}

/// The door transformation rule table, one delta at a time, on a 4 by 3
/// tile with a door at offset 0 on each direction in turn.
#[test]
fn test_rotation_door_rule_table() {
    // (direction, delta, expected offset, expected direction), W = 4, H = 3.
    let cases: [(u16, u16, u16, u16); 16] = [
        (0, 0, 0, 0),
        (0, 1, 0, 1),
        (0, 2, 3, 2),
        (0, 3, 3, 3),
        (1, 0, 0, 1),
        (1, 1, 2, 2),
        (1, 2, 2, 3),
        (1, 3, 0, 0),
        (2, 0, 0, 2),
        (2, 1, 0, 3),
        (2, 2, 3, 0),
        (2, 3, 3, 1),
        (3, 0, 0, 3),
        (3, 1, 2, 0),
        (3, 2, 2, 1),
        (3, 3, 0, 2),
    ];
    for (direction, delta, expected_offset, expected_direction) in cases {
        let u = unit("room", 4, 3, vec![door(direction, 0)]);
        let rotated = u.copy_and_rotate_to(delta);
        assert_eq!(rotated.doors[0].side_lateral_offset, expected_offset);
        assert_eq!(rotated.doors[0].direction, expected_direction);
    }
}

/// An odd delta swaps the footprint; rotation state composes modulo four.
#[test]
fn test_rotation_dimension_swap() {
    let u = unit("room", 4, 3, vec![]);
    let r1 = u.copy_and_rotate_to(1);
    assert_eq!((r1.width, r1.height, r1.rotation), (3, 4, 1));
    let r2 = u.copy_and_rotate_to(2);
    assert_eq!((r2.width, r2.height, r2.rotation), (4, 3, 2));
    let r3 = r1.copy_and_rotate_to(3);
    assert_eq!((r3.width, r3.height, r3.rotation), (4, 3, 0));
}

/// Expansion emits, for each tile in order, its four rotations
/// consecutively.
#[test]
fn test_expand_rotations_order() {
    let input = vec![
        unit("a", 2, 2, vec![door(0, 0)]),
        unit("b", 2, 1, vec![door(2, 0)]),
    ];
    let expanded = expand_rotations(input);
    assert_eq!(expanded.len(), 8);
    let tags: Vec<(String, u16)> = expanded
        .iter()
        .map(|u| (u.unit_folder_name.clone(), u.rotation))
        .collect();
    let expected: Vec<(String, u16)> = vec![
        ("a".to_string(), 0),
        ("a".to_string(), 1),
        ("a".to_string(), 2),
        ("a".to_string(), 3),
        ("b".to_string(), 0),
        ("b".to_string(), 1),
        ("b".to_string(), 2),
        ("b".to_string(), 3),
    ];
    assert_eq!(tags, expected);
}

/// End-to-end scenario: two tiles of identical 2 by 2 footprint with door
/// counts 1 and 3; after expansion and ordering, every rotation of the
/// 1-door tile precedes every rotation of the 3-door tile, and the
/// recorded order within each group is the input rotation order.
#[test]
fn test_two_tile_scenario() {
    let input = vec![
        unit("one_door", 2, 2, vec![door(0, 0)]),
        unit(
            "three_doors",
            2,
            2,
            vec![door(0, 0), door(1, 1), door(2, 1)],
        ),
    ];
    let expanded = expand_rotations(input);
    assert_eq!(expanded.len(), 8);
    let sorted = sort_cave_units(expanded);
    let tags: Vec<(String, u16)> = sorted
        .iter()
        .map(|u| (u.unit_folder_name.clone(), u.rotation))
        .collect();
    let expected: Vec<(String, u16)> = vec![
        ("one_door".to_string(), 0),
        ("one_door".to_string(), 1),
        ("one_door".to_string(), 2),
        ("one_door".to_string(), 3),
        ("three_doors".to_string(), 0),
        ("three_doors".to_string(), 1),
        ("three_doors".to_string(), 2),
        ("three_doors".to_string(), 3),
    ];
    assert_eq!(tags, expected);
}

/// Comparator equality is coarse: equal area and door count compare equal
/// even for structurally different tiles, and ordering is area first,
/// door count second.
#[test]
fn test_comparator() {
    let a = unit("a", 2, 2, vec![door(0, 0)]);
    let b = unit("b", 4, 1, vec![door(0, 3)]);
    let c = unit("c", 2, 1, vec![door(0, 0)]);
    let d = unit("d", 2, 2, vec![door(0, 0), door(2, 1)]);
    assert!(a == b);
    assert!(a != c);
    assert!(c < a);
    assert!(a < d);
    assert!(d > b);
}
