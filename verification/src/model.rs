//! The generation parameter data model: one `FloorInfo` per sublevel, owning
//! its map tiles (`CaveUnit`), doors, door links, spawn points and the
//! enemy/treasure/gate/cap definitions.
//!
//! Each executable struct has a ghost model (`...Model`) holding the same
//! data over mathematical integers and sequences; all contracts in this
//! crate are stated over those models.
//!
//! Quantities the reference data keeps as floating-point numbers are held
//! here as plain integers: probabilities as per-mille values, gate health as
//! a whole number, spawn point coordinates as fixed-point game units, and
//! door link distances as exact squared Euclidean distances (see
//! `crate::links` for the coordinate convention).

use vstd::prelude::*;

verus! {

/// Construction and lookup failures of the parameter model.
#[derive(Clone, Copy, Debug, PartialEq, Eq, Structural)]
pub enum CaveInfoError {
    /// A room classification value outside the known set was encountered.
    InvalidRoomType,
    /// A sublevel identifier was not present in the registry.
    NotFound,
}

/// Classification of a map tile.
#[derive(Clone, Copy, Debug, PartialEq, Eq, Structural, Hash)]
pub enum RoomType {
    Room,
    Hallway,
    DeadEnd,
}

impl RoomType {
    /// The room classification denoted by a raw parameter-file value.
    /// Values outside {0, 1, 2} are malformed data and are rejected.
    pub open spec fn spec_from_raw(raw: usize) -> Result<RoomType, CaveInfoError> {
        if raw == 0 {
            Ok(RoomType::DeadEnd)
        } else if raw == 1 {
            Ok(RoomType::Room)
        } else if raw == 2 {
            Ok(RoomType::Hallway)
        } else {
            Err(CaveInfoError::InvalidRoomType)
        }
    }

    /// Parses a raw room classification value.
    pub fn from_raw(raw: usize) -> (res: Result<RoomType, CaveInfoError>)
        ensures
            res == RoomType::spec_from_raw(raw),
    {
        match raw {
            0 => Ok(RoomType::DeadEnd),
            1 => Ok(RoomType::Room),
            2 => Ok(RoomType::Hallway),
            _ => Err(CaveInfoError::InvalidRoomType),
        }
    }
}

/// A straight-line relationship between two doors of the same tile.
/// The line may cross untraversable space; links are not paths.
#[derive(Clone, Copy, Debug, PartialEq)]
pub struct DoorLink {
    /// Squared Euclidean distance between the two doors' effective
    /// positions, in half-grid-cell units (see `crate::links`).
    pub distance_sq: u64,
    /// Index of the partner door within the owning tile's door list.
    pub door_id: usize,
    /// Whether an enemy should spawn in the seam of the origin door.
    /// Initialized false; the placement algorithm may set it later.
    pub tekiflag: bool,
}

/// Ghost model of `DoorLink`.
pub ghost struct DoorLinkModel {
    pub distance_sq: int,
    pub door_id: int,
    pub tekiflag: bool,
}

impl View for DoorLink {
    type V = DoorLinkModel;

    open spec fn view(&self) -> DoorLinkModel {
        DoorLinkModel {
            distance_sq: self.distance_sq as int,
            door_id: self.door_id as int,
            tekiflag: self.tekiflag,
        }
    }
}

impl DeepView for DoorLink {
    type V = DoorLinkModel;

    open spec fn deep_view(&self) -> DoorLinkModel {
        self.view()
    }
}

/// A door: an open spot on a tile's boundary where another tile can attach.
#[derive(Clone, Debug)]
pub struct DoorUnit {
    /// Facing, 0 through 3 (quarter turns).
    pub direction: u16,
    /// Lateral offset along the facing side, in grid cells.
    pub side_lateral_offset: u16,
    /// Index of the navigation waypoint connected to this door.
    pub waypoint_index: usize,
    /// Number of door links recorded for this door.
    pub num_links: usize,
    /// Links to the other doors of the same tile.
    pub door_links: Vec<DoorLink>,
}

/// Ghost model of `DoorUnit`.
pub ghost struct DoorUnitModel {
    pub direction: int,
    pub side_lateral_offset: int,
    pub waypoint_index: int,
    pub num_links: int,
    pub door_links: Seq<DoorLinkModel>,
}

impl View for DoorUnit {
    type V = DoorUnitModel;

    open spec fn view(&self) -> DoorUnitModel {
        DoorUnitModel {
            direction: self.direction as int,
            side_lateral_offset: self.side_lateral_offset as int,
            waypoint_index: self.waypoint_index as int,
            num_links: self.num_links as int,
            door_links: self.door_links.deep_view(),
        }
    }
}

impl DeepView for DoorUnit {
    type V = DoorUnitModel;

    open spec fn deep_view(&self) -> DoorUnitModel {
        self.view()
    }
}

/// A spawn point of a tile.  Positions are relative to the owning tile's
/// local origin, in fixed-point game units.
#[derive(Clone, Copy, Debug)]
pub struct SpawnPoint {
    /// Spawn group; group 7 is the start/ship point by convention.
    pub group: u16,
    pub pos_x: i32,
    pub pos_y: i32,
    pub pos_z: i32,
    pub angle_degrees: i32,
    pub radius: u32,
    pub min_num: u16,
    pub max_num: u16,
}

/// Ghost model of `SpawnPoint`.
pub ghost struct SpawnPointModel {
    pub group: int,
    pub pos_x: int,
    pub pos_y: int,
    pub pos_z: int,
    pub angle_degrees: int,
    pub radius: int,
    pub min_num: int,
    pub max_num: int,
}

impl View for SpawnPoint {
    type V = SpawnPointModel;

    open spec fn view(&self) -> SpawnPointModel {
        SpawnPointModel {
            group: self.group as int,
            pos_x: self.pos_x as int,
            pos_y: self.pos_y as int,
            pos_z: self.pos_z as int,
            angle_degrees: self.angle_degrees as int,
            radius: self.radius as int,
            min_num: self.min_num as int,
            max_num: self.max_num as int,
        }
    }
}

impl DeepView for SpawnPoint {
    type V = SpawnPointModel;

    open spec fn deep_view(&self) -> SpawnPointModel {
        self.view()
    }
}

/// One possible map tile of a sublevel.
#[derive(Clone, Debug)]
pub struct CaveUnit {
    pub unit_folder_name: String,
    /// Width in cave grid cells, not in-game coordinates.
    pub width: u16,
    /// Height in cave grid cells, not in-game coordinates.
    pub height: u16,
    pub room_type: RoomType,
    pub num_doors: usize,
    pub doors: Vec<DoorUnit>,
    /// Rotation state, 0 through 3 quarter turns.
    pub rotation: u16,
    pub spawn_points: Vec<SpawnPoint>,
}

/// Ghost model of `CaveUnit`.
pub ghost struct CaveUnitModel {
    pub unit_folder_name: Seq<char>,
    pub width: int,
    pub height: int,
    pub room_type: RoomType,
    pub num_doors: int,
    pub doors: Seq<DoorUnitModel>,
    pub rotation: int,
    pub spawn_points: Seq<SpawnPointModel>,
}

impl View for CaveUnit {
    type V = CaveUnitModel;

    open spec fn view(&self) -> CaveUnitModel {
        CaveUnitModel {
            unit_folder_name: self.unit_folder_name@,
            width: self.width as int,
            height: self.height as int,
            room_type: self.room_type,
            num_doors: self.num_doors as int,
            doors: self.doors.deep_view(),
            rotation: self.rotation as int,
            spawn_points: self.spawn_points.deep_view(),
        }
    }
}

impl DeepView for CaveUnit {
    type V = CaveUnitModel;

    open spec fn deep_view(&self) -> CaveUnitModel {
        self.view()
    }
}

/// Well-formedness of a door with respect to its tile's dimensions: a known
/// direction, and a lateral offset within the facing side.
pub open spec fn door_wf(d: DoorUnitModel, width: int, height: int) -> bool {
    &&& 0 <= d.direction < 4
    &&& (d.direction == 0 || d.direction == 2 ==> 0 <= d.side_lateral_offset < width)
    &&& (d.direction == 1 || d.direction == 3 ==> 0 <= d.side_lateral_offset < height)
}

/// Well-formedness of a map tile, assumed established by the parsing
/// collaborator: positive dimensions, a door count consistent with the door
/// list, a rotation state below four, and well-formed doors.
pub open spec fn unit_wf(u: CaveUnitModel) -> bool {
    &&& 1 <= u.width
    &&& 1 <= u.height
    &&& u.num_doors == u.doors.len()
    &&& 0 <= u.rotation < 4
    &&& forall|i: int| 0 <= i < u.doors.len() ==> door_wf(#[trigger] u.doors[i], u.width, u.height)
}

/// An enemy/hazard definition ("teki"): anything spawned in a sublevel that
/// is neither a loose treasure nor a gate.
#[derive(Clone, Debug)]
pub struct TekiInfo {
    pub internal_name: String,
    /// The treasure carried by this teki, if any.
    pub carrying: Option<String>,
    pub minimum_amount: u32,
    pub filler_distribution_weight: u32,
    /// Spawn group; controls which category of spawn point is used.
    pub group: u32,
    /// Present exactly when the spawn behaviour is a falling/special one.
    pub spawn_method: Option<String>,
}

/// Ghost model of `TekiInfo`.
pub ghost struct TekiInfoModel {
    pub internal_name: Seq<char>,
    pub carrying: Option<Seq<char>>,
    pub minimum_amount: int,
    pub filler_distribution_weight: int,
    pub group: int,
    pub spawn_method: Option<Seq<char>>,
}

impl View for TekiInfo {
    type V = TekiInfoModel;

    open spec fn view(&self) -> TekiInfoModel {
        TekiInfoModel {
            internal_name: self.internal_name@,
            carrying: self.carrying.deep_view(),
            minimum_amount: self.minimum_amount as int,
            filler_distribution_weight: self.filler_distribution_weight as int,
            group: self.group as int,
            spawn_method: self.spawn_method.deep_view(),
        }
    }
}

impl DeepView for TekiInfo {
    type V = TekiInfoModel;

    open spec fn deep_view(&self) -> TekiInfoModel {
        self.view()
    }
}

/// A loose treasure definition: treasures sitting in the open or buried,
/// not carried by an enemy.
#[derive(Clone, Debug)]
pub struct ItemInfo {
    pub internal_name: String,
    pub min_amount: u8,
    pub filler_distribution_weight: u32,
}

/// Ghost model of `ItemInfo`.
pub ghost struct ItemInfoModel {
    pub internal_name: Seq<char>,
    pub min_amount: int,
    pub filler_distribution_weight: int,
}

impl View for ItemInfo {
    type V = ItemInfoModel;

    open spec fn view(&self) -> ItemInfoModel {
        ItemInfoModel {
            internal_name: self.internal_name@,
            min_amount: self.min_amount as int,
            filler_distribution_weight: self.filler_distribution_weight as int,
        }
    }
}

impl DeepView for ItemInfo {
    type V = ItemInfoModel;

    open spec fn deep_view(&self) -> ItemInfoModel {
        self.view()
    }
}

/// A gate definition.  Health is held as a whole number of hit points.
#[derive(Clone, Copy, Debug)]
pub struct GateInfo {
    pub health: u32,
    pub spawn_distribution_weight: u32,
}

/// Ghost model of `GateInfo`.
pub ghost struct GateInfoModel {
    pub health: int,
    pub spawn_distribution_weight: int,
}

impl View for GateInfo {
    type V = GateInfoModel;

    open spec fn view(&self) -> GateInfoModel {
        GateInfoModel {
            health: self.health as int,
            spawn_distribution_weight: self.spawn_distribution_weight as int,
        }
    }
}

impl DeepView for GateInfo {
    type V = GateInfoModel;

    open spec fn deep_view(&self) -> GateInfoModel {
        self.view()
    }
}

/// What spawns in dedicated alcove (dead end) spawn points.  Shaped like
/// `TekiInfo`, but `group` controls quantity, not location.
#[derive(Clone, Debug)]
pub struct CapInfo {
    pub internal_name: String,
    /// The treasure carried by this cap teki, if any.
    pub carrying: Option<String>,
    pub minimum_amount: u32,
    pub filler_distribution_weight: u32,
    /// Controls the amount of objects allowed to spawn, not the location.
    pub group: u8,
    /// Present exactly when the spawn behaviour is a falling/special one.
    pub spawn_method: Option<String>,
}

/// Ghost model of `CapInfo`.
pub ghost struct CapInfoModel {
    pub internal_name: Seq<char>,
    pub carrying: Option<Seq<char>>,
    pub minimum_amount: int,
    pub filler_distribution_weight: int,
    pub group: int,
    pub spawn_method: Option<Seq<char>>,
}

impl View for CapInfo {
    type V = CapInfoModel;

    open spec fn view(&self) -> CapInfoModel {
        CapInfoModel {
            internal_name: self.internal_name@,
            carrying: self.carrying.deep_view(),
            minimum_amount: self.minimum_amount as int,
            filler_distribution_weight: self.filler_distribution_weight as int,
            group: self.group as int,
            spawn_method: self.spawn_method.deep_view(),
        }
    }
}

impl DeepView for CapInfo {
    type V = CapInfoModel;

    open spec fn deep_view(&self) -> CapInfoModel {
        self.view()
    }
}

/// The entire collection of information required to generate one sublevel.
/// Probabilities are held as per-mille values in `[0, 1000]`.
#[derive(Clone, Debug)]
pub struct FloorInfo {
    /// Not part of the parameter data itself; used only for naming floors.
    pub cave_name: Option<String>,
    /// Zero-indexed sublevel number.
    pub sublevel: u32,
    pub max_main_objects: u32,
    pub max_treasures: u32,
    pub max_gates: u32,
    /// Room count, excluding corridors and caps/alcoves.
    pub num_rooms: u32,
    /// Relative floor:room ratio scale, per-mille in `[0, 1000]`.
    pub corridor_probability: u32,
    /// Probability of a cap rather than an alcove, per-mille in `[0, 1000]`.
    pub cap_probability: u32,
    pub has_geyser: bool,
    pub exit_plugged: bool,
    pub cave_units: Vec<CaveUnit>,
    pub teki_info: Vec<TekiInfo>,
    pub item_info: Vec<ItemInfo>,
    pub gate_info: Vec<GateInfo>,
    pub cap_info: Vec<CapInfo>,
    pub is_final_floor: bool,
}

/// Ghost model of `FloorInfo`.
pub ghost struct FloorInfoModel {
    pub cave_name: Option<Seq<char>>,
    pub sublevel: int,
    pub max_main_objects: int,
    pub max_treasures: int,
    pub max_gates: int,
    pub num_rooms: int,
    pub corridor_probability: int,
    pub cap_probability: int,
    pub has_geyser: bool,
    pub exit_plugged: bool,
    pub cave_units: Seq<CaveUnitModel>,
    pub teki_info: Seq<TekiInfoModel>,
    pub item_info: Seq<ItemInfoModel>,
    pub gate_info: Seq<GateInfoModel>,
    pub cap_info: Seq<CapInfoModel>,
    pub is_final_floor: bool,
}

impl View for FloorInfo {
    type V = FloorInfoModel;

    open spec fn view(&self) -> FloorInfoModel {
        FloorInfoModel {
            cave_name: self.cave_name.deep_view(),
            sublevel: self.sublevel as int,
            max_main_objects: self.max_main_objects as int,
            max_treasures: self.max_treasures as int,
            max_gates: self.max_gates as int,
            num_rooms: self.num_rooms as int,
            corridor_probability: self.corridor_probability as int,
            cap_probability: self.cap_probability as int,
            has_geyser: self.has_geyser,
            exit_plugged: self.exit_plugged,
            cave_units: self.cave_units.deep_view(),
            teki_info: self.teki_info.deep_view(),
            item_info: self.item_info.deep_view(),
            gate_info: self.gate_info.deep_view(),
            cap_info: self.cap_info.deep_view(),
            is_final_floor: self.is_final_floor,
        }
    }
}

impl DeepView for FloorInfo {
    type V = FloorInfoModel;

    open spec fn deep_view(&self) -> FloorInfoModel {
        self.view()
    }
}

/// The parameter data of an entire cave: one `FloorInfo` per sublevel.
#[derive(Clone, Debug)]
pub struct CaveInfo {
    pub num_floors: u32,
    pub floors: Vec<FloorInfo>,
}

} // verus!
