//! Parameter model accessors, door geometry and floor queries.

use cavegen::model::{
    CapInfo, CaveInfoError, CaveUnit, DoorUnit, FloorInfo, RoomType, SpawnPoint, TekiInfo,
};

fn door(direction: u16, offset: u16) -> DoorUnit {
    DoorUnit {
        direction,
        side_lateral_offset: offset,
        waypoint_index: 0,
        num_links: 0,
        door_links: Vec::new(),
    }
}

fn unit(name: &str, width: u16, height: u16, doors: Vec<DoorUnit>) -> CaveUnit {
    CaveUnit {
        unit_folder_name: name.to_string(),
        width,
        height,
        room_type: RoomType::Room,
        num_doors: doors.len(),
        doors,
        rotation: 0,
        spawn_points: Vec::new(),
    }
}

fn teki(name: &str, group: u32) -> TekiInfo {
    TekiInfo {
        internal_name: name.to_string(),
        carrying: None,
        minimum_amount: 1,
        filler_distribution_weight: 0,
        group,
        spawn_method: None,
    }
}

fn floor(cave_name: Option<&str>, sublevel: u32, units: Vec<CaveUnit>, tekis: Vec<TekiInfo>) -> FloorInfo {
    FloorInfo {
        cave_name: cave_name.map(|s| s.to_string()),
        sublevel,
        max_main_objects: 10,
        max_treasures: 5,
        max_gates: 3,
        num_rooms: 4,
        corridor_probability: 0,
        cap_probability: 0,
        has_geyser: false,
        exit_plugged: false,
        cave_units: units,
        teki_info: tekis,
        item_info: Vec::new(),
        gate_info: Vec::new(),
        cap_info: Vec::new(),
        is_final_floor: false,
    }
}

fn cap(name: &str, spawn_method: Option<&str>) -> CapInfo {
    CapInfo {
        internal_name: name.to_string(),
        carrying: None,
        minimum_amount: 1,
        filler_distribution_weight: 0,
        group: 0,
        spawn_method: spawn_method.map(|s| s.to_string()),
    }
}

#[test]
fn test_room_type_from_raw() {
    assert_eq!(RoomType::from_raw(0), Ok(RoomType::DeadEnd));
    assert_eq!(RoomType::from_raw(1), Ok(RoomType::Room));
    assert_eq!(RoomType::from_raw(2), Ok(RoomType::Hallway));
    assert_eq!(RoomType::from_raw(3), Err(CaveInfoError::InvalidRoomType));
    assert_eq!(RoomType::from_raw(usize::MAX), Err(CaveInfoError::InvalidRoomType));
}

#[test]
fn test_is_candypop() {
    assert!(cap("BigPom", None).is_candypop());
    assert!(cap("POM_red", None).is_candypop());
    assert!(!cap("Bulborb", None).is_candypop());
    assert!(!cap("", None).is_candypop());
}

#[test]
fn test_is_falling() {
    assert!(cap("egg", Some("falling")).is_falling());
    assert!(!cap("egg", None).is_falling());
}

#[test]
fn test_facing() {
    let north = door(0, 0);
    let east = door(1, 0);
    let south = door(2, 0);
    let west = door(3, 0);
    assert!(north.facing(&south));
    assert!(south.facing(&north));
    assert!(east.facing(&west));
    assert!(west.facing(&east));
    assert!(!north.facing(&east));
    assert!(!north.facing(&north));
    assert_eq!(north.facing(&east), east.facing(&north));
}

#[test]
fn test_has_start_spawnpoint() {
    let sp = |group: u16| SpawnPoint {
        group,
        pos_x: 0,
        pos_y: 0,
        pos_z: 0,
        angle_degrees: 0,
        radius: 0,
        min_num: 1,
        max_num: 1,
    };
    let mut u = unit("room", 2, 2, vec![]);
    assert!(!u.has_start_spawnpoint());
    u.spawn_points = vec![sp(2), sp(9)];
    assert!(!u.has_start_spawnpoint());
    u.spawn_points = vec![sp(2), sp(7)];
    assert!(u.has_start_spawnpoint());
}

#[test]
fn test_teki_group() {
    let f = floor(
        None,
        0,
        vec![],
        vec![teki("bulborb", 1), teki("egg", 7), teki("sheargrub", 1)],
    );
    let group1 = f.teki_group(1);
    assert_eq!(group1.len(), 2);
    assert_eq!(group1[0].internal_name, "bulborb");
    assert_eq!(group1[1].internal_name, "sheargrub");
    let group7 = f.teki_group(7);
    assert_eq!(group7.len(), 1);
    assert_eq!(group7[0].internal_name, "egg");
    assert_eq!(f.teki_group(2).len(), 0);
}

#[test]
fn test_max_num_doors_single_unit() {
    let empty = floor(None, 0, vec![], vec![]);
    assert_eq!(empty.max_num_doors_single_unit(), 0);
    let f = floor(
        None,
        0,
        vec![
            unit("a", 2, 2, vec![door(0, 0)]),
            unit("b", 2, 2, vec![door(0, 0), door(1, 0), door(2, 0)]),
            unit("c", 2, 1, vec![door(0, 0), door(2, 0)]),
        ],
        vec![],
    );
    assert_eq!(f.max_num_doors_single_unit(), 3);
}

#[test]
fn test_floor_name() {
    let f = floor(Some("SCx"), 6, vec![], vec![]);
    assert_eq!(f.name(), "SCx7");
    let g = floor(Some("GK"), 0, vec![], vec![]);
    assert_eq!(g.name(), "GK1");
    let deep = floor(Some("SH"), 99, vec![], vec![]);
    assert_eq!(deep.name(), "SH100");
}

#[test]
fn test_contains_str() {
    let contains_str = cavegen::text::contains_str;
    assert!(contains_str("candypop", "pop"));
    assert!(contains_str("candypop", ""));
    assert!(contains_str("pom", "pom"));
    assert!(!contains_str("po", "pom"));
    assert!(!contains_str("Pom", "pom"));
    assert!(!contains_str("", "pom"));
    assert!(contains_str("", ""));
}

#[test]
fn test_attach_door_links_symmetry() {
    // A 2 by 2 tile: door 0 on the top edge at offset 0, door 1 on the
    // bottom edge at offset 1.  Positions in half-cell units are (1, 0)
    // and (3, 4); the squared distance is 4 + 16 = 20.
    let mut u = unit("room", 2, 2, vec![door(0, 0), door(2, 1)]);
    u.attach_door_links();
    assert_eq!(u.doors.len(), 2);
    assert_eq!(u.doors[0].num_links, 1);
    assert_eq!(u.doors[1].num_links, 1);
    let ab = &u.doors[0].door_links[0];
    let ba = &u.doors[1].door_links[0];
    assert_eq!(ab.door_id, 1);
    assert_eq!(ba.door_id, 0);
    assert_eq!(ab.distance_sq, 20);
    assert_eq!(ab.distance_sq, ba.distance_sq);
    assert!(!ab.tekiflag);
    assert!(!ba.tekiflag);
}

#[test]
fn test_attach_door_links_all_pairs() {
    let mut u = unit("room", 3, 2, vec![door(0, 0), door(1, 1), door(2, 2)]);
    u.attach_door_links();
    for (a, d) in u.doors.iter().enumerate() {
        assert_eq!(d.num_links, 2);
        assert_eq!(d.door_links.len(), 2);
        let partners: Vec<usize> = d.door_links.iter().map(|l| l.door_id).collect();
        let expected: Vec<usize> = (0..3).filter(|b| *b != a).collect();
        assert_eq!(partners, expected);
    }
}

#[test]
fn test_set_seam_flag() {
    let mut u = unit("room", 2, 2, vec![door(0, 0), door(2, 1)]);
    u.attach_door_links();
    u.set_seam_flag(0, 0);
    assert!(u.doors[0].door_links[0].tekiflag);
    assert!(!u.doors[1].door_links[0].tekiflag);
    assert_eq!(u.doors[0].door_links[0].distance_sq, 20);
}
