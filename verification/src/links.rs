//! Door geometry and linking: for every unordered pair of doors of a tile,
//! a precomputed straight-line relationship (`DoorLink`).
//!
//! A door's effective position is derived from the tile's dimensions, the
//! door's direction and its lateral offset.  The convention, in half-cell
//! units so that every position is integral: a door sits at the midpoint of
//! its occupied boundary cell, so its along-side coordinate is
//! `2 * offset + 1`, and its cross-side coordinate is `0` on the top/left
//! edges (directions 0 and 3) and `2 * width` or `2 * height` on the
//! right/bottom edges (directions 1 and 2).  A link records the squared
//! Euclidean distance between the two positions, which is exact in
//! integers; it is symmetric, and monotone in the true distance.
//!
//! Links may cross untraversable space: they are straight lines, not paths.

use vstd::prelude::*;

use crate::model::CaveUnit;
use crate::model::CaveUnitModel;
use crate::model::DoorLink;
use crate::model::DoorLinkModel;
use crate::model::DoorUnit;
use crate::model::DoorUnitModel;
use crate::model::door_wf;
use crate::model::unit_wf;

verus! {

/// Along/cross coordinates of a door's effective position, in half-cell
/// units, on a tile of the given dimensions.
pub open spec fn door_pos_x(d: DoorUnitModel, width: int, height: int) -> int {
    if d.direction == 0 || d.direction == 2 {
        2 * d.side_lateral_offset + 1
    } else if d.direction == 1 {
        2 * width
    } else {
        0
    }
}

/// See `door_pos_x`.
pub open spec fn door_pos_y(d: DoorUnitModel, width: int, height: int) -> int {
    if d.direction == 1 || d.direction == 3 {
        2 * d.side_lateral_offset + 1
    } else if d.direction == 2 {
        2 * height
    } else {
        0
    }
}

/// Squared Euclidean distance between two doors' effective positions.
pub open spec fn link_dist_sq(a: DoorUnitModel, b: DoorUnitModel, width: int, height: int) -> int {
    let dx = door_pos_x(a, width, height) - door_pos_x(b, width, height);
    let dy = door_pos_y(a, width, height) - door_pos_y(b, width, height);
    dx * dx + dy * dy
}

/// The squared distance is symmetric in the two doors.
pub proof fn lemma_dist_sq_symmetric(a: DoorUnitModel, b: DoorUnitModel, width: int, height: int)
    ensures
        link_dist_sq(a, b, width, height) == link_dist_sq(b, a, width, height),
{
    let dx = door_pos_x(a, width, height) - door_pos_x(b, width, height);
    let dy = door_pos_y(a, width, height) - door_pos_y(b, width, height);
    assert(dx * dx == (-dx) * (-dx) && dy * dy == (-dy) * (-dy)) by (nonlinear_arith);
}

/// The link list of the door at position `a`: one link to every other door
/// of the tile, in index order, each with the seam flag clear.
pub open spec fn links_for(doors: Seq<DoorUnitModel>, a: int, width: int, height: int) -> Seq<
    DoorLinkModel,
> {
    Seq::new(
        if doors.len() > 0 {
            (doors.len() - 1) as nat
        } else {
            0
        },
        |j: int|
            {
                let b = if j < a {
                    j
                } else {
                    j + 1
                };
                DoorLinkModel {
                    distance_sq: link_dist_sq(doors[a], doors[b], width, height),
                    door_id: b,
                    tekiflag: false,
                }
            },
    )
}

/// A tile with its door links computed: every door carries a link to every
/// other door, and its link count; everything else is unchanged.
pub open spec fn with_links(u: CaveUnitModel) -> CaveUnitModel {
    CaveUnitModel {
        unit_folder_name: u.unit_folder_name,
        width: u.width,
        height: u.height,
        room_type: u.room_type,
        num_doors: u.num_doors,
        doors: Seq::new(
            u.doors.len(),
            |a: int|
                DoorUnitModel {
                    direction: u.doors[a].direction,
                    side_lateral_offset: u.doors[a].side_lateral_offset,
                    waypoint_index: u.doors[a].waypoint_index,
                    num_links: u.doors.len() - 1,
                    door_links: links_for(u.doors, a, u.width, u.height),
                },
        ),
        rotation: u.rotation,
        spawn_points: u.spawn_points,
    }
}

/// Door-link symmetry: for the link from door `a` to door `b`, the
/// corresponding link from `b` back to `a` exists and records the same
/// distance.
pub proof fn lemma_door_link_symmetry(u: CaveUnitModel, a: int, b: int)
    requires
        0 <= a < u.doors.len(),
        0 <= b < u.doors.len(),
        a != b,
    ensures
        ({
            let v = with_links(u);
            let ja = if b < a {
                b
            } else {
                b - 1
            };
            let jb = if a < b {
                a
            } else {
                a - 1
            };
            &&& v.doors[a].door_links[ja].door_id == b
            &&& v.doors[b].door_links[jb].door_id == a
            &&& v.doors[a].door_links[ja].distance_sq == v.doors[b].door_links[jb].distance_sq
        }),
{
    lemma_dist_sq_symmetric(u.doors[a], u.doors[b], u.width, u.height);
}

/// A square of a number bounded by `b` is bounded by `b * b`.
proof fn lemma_square_bound(x: int, b: int)
    requires
        -b <= x <= b,
        0 <= b,
    ensures
        0 <= x * x <= b * b,
{
    assert(0 <= x * x <= b * b) by (nonlinear_arith)
        requires
            -b <= x <= b,
            0 <= b,
    ;
}

/// The effective position of a door, in half-cell units.
fn door_pos(d: &DoorUnit, width: u16, height: u16) -> (r: (i64, i64))
    requires
        door_wf(d@, width as int, height as int),
    ensures
        r.0 == door_pos_x(d@, width as int, height as int),
        r.1 == door_pos_y(d@, width as int, height as int),
        0 <= r.0 <= 0x2_0000,
        0 <= r.1 <= 0x2_0000,
{
    let along: i64 = 2 * (d.side_lateral_offset as i64) + 1;
    if d.direction == 0 {
        (along, 0)
    } else if d.direction == 1 {
        (2 * (width as i64), along)
    } else if d.direction == 2 {
        (along, 2 * (height as i64))
    } else {
        (0, along)
    }
}

/// The squared straight-line distance between two doors of one tile.
fn dist_sq(a: &DoorUnit, b: &DoorUnit, width: u16, height: u16) -> (r: u64)
    requires
        door_wf(a@, width as int, height as int),
        door_wf(b@, width as int, height as int),
    ensures
        r == link_dist_sq(a@, b@, width as int, height as int),
{
    let (ax, ay) = door_pos(a, width, height);
    let (bx, by) = door_pos(b, width, height);
    proof {
        lemma_square_bound(ax - bx, 0x2_0000);
        lemma_square_bound(ay - by, 0x2_0000);
    }
    let dx = ax - bx;
    let dy = ay - by;
    (dx * dx + dy * dy) as u64
}

impl CaveUnit {
    /// Precomputes this tile's door links: for every unordered pair of
    /// doors, a link in each direction, with the seam flags clear.  Done
    /// once at construction; links are immutable afterwards except for the
    /// seam flag, set through `set_seam_flag`.
    pub fn attach_door_links(&mut self)
        requires
            unit_wf(old(self)@),
        ensures
            final(self)@ == with_links(old(self)@),
            unit_wf(final(self)@),
    {
        let ghost u = old(self)@;
        let n = self.doors.len();
        let mut new_doors: Vec<DoorUnit> = Vec::new();
        let mut a: usize = 0;
        while a < n
            invariant
                unit_wf(u),
                u == self@,
                n == u.doors.len(),
                a <= n,
                new_doors.deep_view() =~= with_links(u).doors.take(a as int),
            decreases n - a,
        {
            proof {
                assert(self.doors@[a as int]@ == u.doors[a as int]);
            }
            let mut link_vec: Vec<DoorLink> = Vec::new();
            let mut j: usize = 0;
            while j < n - 1
                invariant
                    unit_wf(u),
                    u == self@,
                    n == u.doors.len(),
                    a < n,
                    j <= n - 1,
                    link_vec.deep_view() =~= links_for(u.doors, a as int, u.width, u.height).take(
                        j as int,
                    ),
                decreases n - 1 - j,
            {
                let b = if j < a {
                    j
                } else {
                    j + 1
                };
                proof {
                    assert(self.doors@[a as int]@ == u.doors[a as int]);
                    assert(self.doors@[b as int]@ == u.doors[b as int]);
                }
                let d = dist_sq(&self.doors[a], &self.doors[b], self.width, self.height);
                let ghost lv0 = link_vec.deep_view();
                link_vec.push(DoorLink { distance_sq: d, door_id: b, tekiflag: false });
                proof {
                    assert(link_vec.deep_view() =~= lv0.push(
                        links_for(u.doors, a as int, u.width, u.height)[j as int],
                    ));
                    assert(link_vec.deep_view() =~= links_for(
                        u.doors,
                        a as int,
                        u.width,
                        u.height,
                    ).take(j as int + 1));
                }
                j += 1;
            }
            let src = &self.doors[a];
            let nd = DoorUnit {
                direction: src.direction,
                side_lateral_offset: src.side_lateral_offset,
                waypoint_index: src.waypoint_index,
                num_links: n - 1,
                door_links: link_vec,
            };
            proof {
                assert(links_for(u.doors, a as int, u.width, u.height).take(n - 1) =~= links_for(
                    u.doors,
                    a as int,
                    u.width,
                    u.height,
                ));
                assert(nd@ == with_links(u).doors[a as int]);
            }
            let ghost nd0 = new_doors.deep_view();
            new_doors.push(nd);
            proof {
                assert(new_doors.deep_view() =~= nd0.push(with_links(u).doors[a as int]));
                assert(new_doors.deep_view() =~= with_links(u).doors.take(a as int + 1));
            }
            a += 1;
        }
        self.doors = new_doors;
        proof {
            assert(with_links(u).doors.take(n as int) =~= with_links(u).doors);
            assert(self@ == with_links(u));
            assert forall|i: int| 0 <= i < with_links(u).doors.len() implies door_wf(
                #[trigger] with_links(u).doors[i],
                with_links(u).width,
                with_links(u).height,
            ) by {
                assert(door_wf(u.doors[i], u.width, u.height));
            }
        }
    }

    /// Sets the enemy-seam flag of one link of one door.  This is the only
    /// mutation the placement algorithm performs on a constructed tile.
    pub fn set_seam_flag(&mut self, door: usize, link: usize)
        requires
            door < old(self)@.doors.len(),
            link < old(self)@.doors[door as int].door_links.len(),
        ensures
            final(self)@ == seam_set(old(self)@, door as int, link as int),
    {
        let ghost u = old(self)@;
        let mut door_unit = self.doors.remove(door);
        let ghost dm = door_unit@;
        let mut l = door_unit.door_links.remove(link);
        l.tekiflag = true;
        door_unit.door_links.insert(link, l);
        proof {
            assert(door_unit.door_links.deep_view() =~= dm.door_links.update(
                link as int,
                DoorLinkModel {
                    distance_sq: dm.door_links[link as int].distance_sq,
                    door_id: dm.door_links[link as int].door_id,
                    tekiflag: true,
                },
            ));
        }
        self.doors.insert(door, door_unit);
        proof {
            assert(self.doors.deep_view() =~= seam_set(u, door as int, link as int).doors);
            assert(self@ == seam_set(u, door as int, link as int));
        }
    }
}

/// A tile with the seam flag of one link of one door set; everything else
/// unchanged.
pub open spec fn seam_set(u: CaveUnitModel, door: int, link: int) -> CaveUnitModel {
    let d = u.doors[door];
    let l = d.door_links[link];
    CaveUnitModel {
        unit_folder_name: u.unit_folder_name,
        width: u.width,
        height: u.height,
        room_type: u.room_type,
        num_doors: u.num_doors,
        doors: u.doors.update(
            door,
            DoorUnitModel {
                direction: d.direction,
                side_lateral_offset: d.side_lateral_offset,
                waypoint_index: d.waypoint_index,
                num_links: d.num_links,
                door_links: d.door_links.update(
                    link,
                    DoorLinkModel {
                        distance_sq: l.distance_sq,
                        door_id: l.door_id,
                        tekiflag: true,
                    },
                ),
            },
        ),
        rotation: u.rotation,
        spawn_points: u.spawn_points,
    }
}

} // verus!
