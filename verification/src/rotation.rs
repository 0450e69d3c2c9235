//! The rotation expansion engine: every tile of a floor is duplicated into
//! its four quarter-turn variants before the ordering engine runs.
//!
//! Rotation composes as `(rotation + delta) % 4`; an odd delta swaps width
//! and height; a door's direction advances by the delta, and its lateral
//! offset flips across the facing side for the specific delta values the
//! reference generator uses (the flip rule is intentionally not symmetric
//! across the four rotations).  `rotate_door_model` and `rotate_unit_model`
//! state that rule table; the executable functions are proved to match it.

use vstd::prelude::*;

use crate::model::CaveUnit;
use crate::model::CaveUnitModel;
use crate::model::DoorLink;
use crate::model::DoorUnit;
use crate::model::DoorUnitModel;
use crate::model::SpawnPoint;
use crate::model::door_wf;
use crate::model::unit_wf;

verus! {

/// The door transformation rule table, given the tile's original
/// (pre-rotation) width and height.
pub open spec fn rotate_door_model(d: DoorUnitModel, delta: int, width: int, height: int) -> DoorUnitModel {
    DoorUnitModel {
        direction: (d.direction + delta) % 4,
        side_lateral_offset: if (d.direction == 0 || d.direction == 2) && (delta == 2 || delta == 3) {
            width - 1 - d.side_lateral_offset
        } else if (d.direction == 1 || d.direction == 3) && (delta == 1 || delta == 2) {
            height - 1 - d.side_lateral_offset
        } else {
            d.side_lateral_offset
        },
        waypoint_index: d.waypoint_index,
        num_links: d.num_links,
        door_links: d.door_links,
    }
}

/// A tile rotated by `delta` quarter turns: composed rotation state, swapped
/// dimensions on odd deltas, and every door transformed by the rule table.
pub open spec fn rotate_unit_model(u: CaveUnitModel, delta: int) -> CaveUnitModel {
    CaveUnitModel {
        unit_folder_name: u.unit_folder_name,
        width: if delta % 2 == 1 { u.height } else { u.width },
        height: if delta % 2 == 1 { u.width } else { u.height },
        room_type: u.room_type,
        num_doors: u.num_doors,
        doors: u.doors.map_values(|d: DoorUnitModel| rotate_door_model(d, delta, u.width, u.height)),
        rotation: (u.rotation + delta) % 4,
        spawn_points: u.spawn_points,
    }
}

/// The rule table preserves door well-formedness with respect to the
/// rotated tile's dimensions.
pub proof fn lemma_rotate_door_wf(d: DoorUnitModel, delta: int, width: int, height: int)
    requires
        0 <= delta < 4,
        door_wf(d, width, height),
    ensures
        door_wf(
            rotate_door_model(d, delta, width, height),
            if delta % 2 == 1 { height } else { width },
            if delta % 2 == 1 { width } else { height },
        ),
{
}

/// Rotation preserves tile well-formedness.
pub proof fn lemma_rotate_unit_wf(u: CaveUnitModel, delta: int)
    requires
        0 <= delta < 4,
        unit_wf(u),
    ensures
        unit_wf(rotate_unit_model(u, delta)),
{
    let r = rotate_unit_model(u, delta);
    assert forall|i: int| 0 <= i < r.doors.len() implies door_wf(#[trigger] r.doors[i], r.width, r.height) by {
        lemma_rotate_door_wf(u.doors[i], delta, u.width, u.height);
    }
}

/// Rotation round-trip: four successive single-quarter-turn rotations
/// return a tile to its original rotation state and original dimensions.
pub proof fn lemma_rotation_round_trip(u: CaveUnitModel)
    requires
        0 <= u.rotation < 4,
    ensures
        ({
            let v = rotate_unit_model(
                rotate_unit_model(rotate_unit_model(rotate_unit_model(u, 1), 1), 1),
                1,
            );
            v.rotation == u.rotation && v.width == u.width && v.height == u.height
        }),
{
}

/// Rotation door-offset law: a door with direction 0 and offset `K` on a
/// tile of width `W`, rotated by a delta of 2, ends with offset `W - 1 - K`
/// and direction 2.
pub proof fn lemma_rotation_door_offset(d: DoorUnitModel, width: int, height: int)
    requires
        d.direction == 0,
    ensures
        rotate_door_model(d, 2, width, height).side_lateral_offset == width - 1
            - d.side_lateral_offset,
        rotate_door_model(d, 2, width, height).direction == 2,
{
}

/// Element-for-element copy of a door link list.
fn copy_links(links: &Vec<DoorLink>) -> (r: Vec<DoorLink>)
    ensures
        r.deep_view() == links.deep_view(),
{
    let mut r: Vec<DoorLink> = Vec::new();
    let mut k: usize = 0;
    while k < links.len()
        invariant
            k <= links@.len(),
            r.deep_view() =~= links.deep_view().take(k as int),
        decreases links@.len() - k,
    {
        let ghost r0 = r.deep_view();
        r.push(links[k]);
        proof {
            assert(r.deep_view() =~= r0.push(links.deep_view()[k as int]));
            assert(r.deep_view() =~= links.deep_view().take(k as int + 1));
        }
        k += 1;
    }
    proof {
        assert(links.deep_view().take(links@.len() as int) =~= links.deep_view());
    }
    r
}

/// Element-for-element copy of a spawn point list.
fn copy_spawn_points(points: &Vec<SpawnPoint>) -> (r: Vec<SpawnPoint>)
    ensures
        r.deep_view() == points.deep_view(),
{
    let mut r: Vec<SpawnPoint> = Vec::new();
    let mut k: usize = 0;
    while k < points.len()
        invariant
            k <= points@.len(),
            r.deep_view() =~= points.deep_view().take(k as int),
        decreases points@.len() - k,
    {
        let ghost r0 = r.deep_view();
        r.push(points[k]);
        proof {
            assert(r.deep_view() =~= r0.push(points.deep_view()[k as int]));
            assert(r.deep_view() =~= points.deep_view().take(k as int + 1));
        }
        k += 1;
    }
    proof {
        assert(points.deep_view().take(points@.len() as int) =~= points.deep_view());
    }
    r
}

impl CaveUnit {
    /// A structurally independent copy of this tile, rotated by the given
    /// number of quarter turns.
    pub fn copy_and_rotate_to(&self, rotation: u16) -> (res: CaveUnit)
        requires
            unit_wf(self@),
            rotation < 4,
        ensures
            res@ == rotate_unit_model(self@, rotation as int),
            unit_wf(res@),
    {
        let ghost u = self@;
        let mut new_doors: Vec<DoorUnit> = Vec::new();
        let mut k: usize = 0;
        while k < self.doors.len()
            invariant
                unit_wf(u),
                u == self@,
                rotation < 4,
                k <= self.doors@.len(),
                new_doors.deep_view() =~= u.doors.map_values(
                    |d: DoorUnitModel| rotate_door_model(d, rotation as int, u.width, u.height),
                ).take(k as int),
            decreases self.doors@.len() - k,
        {
            let ghost m = u.doors.map_values(
                |dm: DoorUnitModel| rotate_door_model(dm, rotation as int, u.width, u.height),
            );
            let ghost nd0 = new_doors.deep_view();
            let d = &self.doors[k];
            proof {
                assert(d@ == u.doors[k as int]);
                assert(door_wf(u.doors[k as int], u.width, u.height));
            }
            let new_direction = (d.direction + rotation) % 4;
            let new_offset = if (d.direction == 0 || d.direction == 2) && (rotation == 2
                || rotation == 3) {
                self.width - 1 - d.side_lateral_offset
            } else if (d.direction == 1 || d.direction == 3) && (rotation == 1 || rotation == 2) {
                self.height - 1 - d.side_lateral_offset
            } else {
                d.side_lateral_offset
            };
            let nd = DoorUnit {
                direction: new_direction,
                side_lateral_offset: new_offset,
                waypoint_index: d.waypoint_index,
                num_links: d.num_links,
                door_links: copy_links(&d.door_links),
            };
            proof {
                assert(nd@ == rotate_door_model(u.doors[k as int], rotation as int, u.width, u.height));
            }
            new_doors.push(nd);
            proof {
                assert(new_doors.deep_view() =~= nd0.push(
                    rotate_door_model(u.doors[k as int], rotation as int, u.width, u.height),
                ));
                assert(new_doors.deep_view() =~= m.take(k as int + 1));
            }
            k += 1;
        }
        let res = CaveUnit {
            unit_folder_name: self.unit_folder_name.clone(),
            width: if rotation % 2 == 1 {
                self.height
            } else {
                self.width
            },
            height: if rotation % 2 == 1 {
                self.width
            } else {
                self.height
            },
            room_type: self.room_type,
            num_doors: self.num_doors,
            doors: new_doors,
            rotation: (self.rotation + rotation) % 4,
            spawn_points: copy_spawn_points(&self.spawn_points),
        };
        proof {
            let m = u.doors.map_values(
                |d: DoorUnitModel| rotate_door_model(d, rotation as int, u.width, u.height),
            );
            assert(res.doors.deep_view() =~= m.take(u.doors.len() as int));
            assert(m.take(u.doors.len() as int) =~= m);
            assert(res@ == rotate_unit_model(u, rotation as int));
            lemma_rotate_unit_wf(u, rotation as int);
        }
        res
    }
}

/// The four-fold expansion of a tile list: for each tile in its existing
/// order, its rotation 0, 1, 2 and 3 variants consecutively.
pub open spec fn expand_model(s: Seq<CaveUnitModel>) -> Seq<CaveUnitModel> {
    Seq::new(4 * s.len(), |i: int| rotate_unit_model(s[i / 4], i % 4))
}

/// Replaces a floor's tile list with its four-fold rotation expansion,
/// ready for the ordering engine.
pub fn expand_rotations(input: Vec<CaveUnit>) -> (res: Vec<CaveUnit>)
    requires
        forall|k: int| 0 <= k < input.deep_view().len() ==> unit_wf(#[trigger] input.deep_view()[k]),
    ensures
        res.deep_view() == expand_model(input.deep_view()),
        forall|k: int| 0 <= k < res.deep_view().len() ==> unit_wf(#[trigger] res.deep_view()[k]),
{
    let ghost s = input.deep_view();
    let mut res: Vec<CaveUnit> = Vec::new();
    let mut k: usize = 0;
    while k < input.len()
        invariant
            forall|m: int| 0 <= m < s.len() ==> unit_wf(#[trigger] s[m]),
            s == input.deep_view(),
            k <= s.len(),
            res.deep_view() =~= expand_model(s).take(4 * k as int),
        decreases input@.len() - k,
    {
        let ghost q0 = res@;
        let ghost dv0 = res.deep_view();
        let unit = &input[k];
        proof {
            assert(unit@ == s[k as int]);
        }
        let v0 = unit.copy_and_rotate_to(0);
        let v1 = unit.copy_and_rotate_to(1);
        let v2 = unit.copy_and_rotate_to(2);
        let v3 = unit.copy_and_rotate_to(3);
        res.push(v0);
        res.push(v1);
        res.push(v2);
        res.push(v3);
        proof {
            assert(res@ == q0.push(v0).push(v1).push(v2).push(v3));
            assert(q0.len() == dv0.len());
            assert(dv0.len() == 4 * (k as int));
            assert forall|i: int| 0 <= i < 4 * (k as int) + 4 implies res.deep_view()[i]
                == expand_model(s)[i] by {
                if i < 4 * (k as int) {
                    assert(res@[i] == q0[i]);
                    assert(res.deep_view()[i] == dv0[i]);
                    assert(dv0[i] == expand_model(s).take(4 * k as int)[i]);
                } else {
                    let d = i - 4 * (k as int);
                    vstd::arithmetic::div_mod::lemma_fundamental_div_mod_converse(i, 4, k as int, d);
                    assert(res.deep_view()[i] == rotate_unit_model(s[k as int], d));
                }
            }
            assert(res.deep_view() =~= expand_model(s).take(4 * (k as int) + 4));
        }
        k += 1;
    }
    proof {
        assert(expand_model(s).take(4 * s.len() as int) =~= expand_model(s));
        assert forall|m: int| 0 <= m < expand_model(s).len() implies unit_wf(
            #[trigger] expand_model(s)[m],
        ) by {
            vstd::arithmetic::div_mod::lemma_fundamental_div_mod(m, 4);
            lemma_rotate_unit_wf(s[m / 4], m % 4);
        }
    }
    res
}

} // verus!
