//! Accessors and aggregation helpers over the parameter model: pure
//! queries consumed by the downstream placement algorithm.

use vstd::prelude::*;

use crate::model::CapInfo;
use crate::model::CaveUnit;
use crate::model::DoorUnit;
use crate::model::FloorInfo;
use crate::model::TekiInfo;
use crate::model::TekiInfoModel;
use crate::text::contains_str;
use crate::text::dec_str;
use crate::text::lower_of;
use crate::text::lowercase;
use crate::text::seq_contains_str;
use crate::text::u32_to_dec;

verus! {

/// Two door directions face each other exactly when they differ by two
/// quarter turns.
pub open spec fn facing_spec(a: int, b: int) -> bool {
    a - b == 2 || b - a == 2
}

/// The facing relation is symmetric, and never holds between equal
/// directions.
pub proof fn lemma_facing_symmetric(a: int, b: int)
    ensures
        facing_spec(a, b) == facing_spec(b, a),
        a == b ==> !facing_spec(a, b),
{
}

impl DoorUnit {
    /// Whether this door and `other` face each other: their directions
    /// differ by exactly two quarter turns.
    pub fn facing(&self, other: &DoorUnit) -> (r: bool)
        ensures
            r == facing_spec(self@.direction, other@.direction),
    {
        if self.direction >= other.direction {
            self.direction - other.direction == 2
        } else {
            other.direction - self.direction == 2
        }
    }
}

impl CapInfo {
    /// Whether this cap teki is a special bud: its internal name contains
    /// the marker `"pom"` after case folding.
    pub fn is_candypop(&self) -> (r: bool)
        ensures
            r == seq_contains_str(lower_of(self.internal_name@), "pom"@),
    {
        let low = lowercase(self.internal_name.as_str());
        contains_str(low.as_str(), "pom")
    }

    /// Whether this cap teki falls when spawned: every spawn method other
    /// than the absent one is a falling one.
    pub fn is_falling(&self) -> (r: bool)
        ensures
            r == (self.spawn_method is Some),
    {
        self.spawn_method.is_some()
    }
}

impl CaveUnit {
    /// Whether any of this tile's spawn points is the start point
    /// (spawn group 7).
    pub fn has_start_spawnpoint(&self) -> (r: bool)
        ensures
            r == exists|i: int|
                0 <= i < self@.spawn_points.len() && #[trigger] self@.spawn_points[i].group == 7,
    {
        let mut i: usize = 0;
        while i < self.spawn_points.len()
            invariant
                i <= self@.spawn_points.len(),
                forall|k: int| 0 <= k < i ==> #[trigger] self@.spawn_points[k].group != 7,
            decreases self@.spawn_points.len() - i,
        {
            if self.spawn_points[i].group == 7 {
                proof {
                    assert(self@.spawn_points[i as int].group == 7);
                }
                return true;
            }
            i += 1;
        }
        false
    }
}

/// Copy of an optional identifier string.
fn clone_opt_string(s: &Option<String>) -> (r: Option<String>)
    ensures
        r.deep_view() == s.deep_view(),
{
    match s {
        Some(x) => Some(x.clone()),
        None => None,
    }
}

/// Structural copy of a teki definition.
fn clone_teki(t: &TekiInfo) -> (r: TekiInfo)
    ensures
        r@ == t@,
{
    TekiInfo {
        internal_name: t.internal_name.clone(),
        carrying: clone_opt_string(&t.carrying),
        minimum_amount: t.minimum_amount,
        filler_distribution_weight: t.filler_distribution_weight,
        group: t.group,
        spawn_method: clone_opt_string(&t.spawn_method),
    }
}

impl FloorInfo {
    /// All teki of one spawn group, in definition order.
    pub fn teki_group(&self, group: u32) -> (r: Vec<TekiInfo>)
        ensures
            r.deep_view() == self@.teki_info.filter(
                |t: TekiInfoModel| t.group == group as int,
            ),
    {
        let ghost pred = |t: TekiInfoModel| t.group == group as int;
        let mut r: Vec<TekiInfo> = Vec::new();
        let mut i: usize = 0;
        while i < self.teki_info.len()
            invariant
                i <= self@.teki_info.len(),
                self@.teki_info.len() == self.teki_info@.len(),
                pred == (|t: TekiInfoModel| t.group == group as int),
                r.deep_view() == self@.teki_info.take(i as int).filter(pred),
            decreases self@.teki_info.len() - i,
        {
            let ghost prefix = self@.teki_info.take(i as int);
            proof {
                assert(self@.teki_info.take(i as int + 1) =~= prefix.push(
                    self@.teki_info[i as int],
                ));
                prefix.lemma_filter_push(self@.teki_info[i as int], pred);
                assert(self.teki_info@[i as int]@ == self@.teki_info[i as int]);
            }
            let ghost r0 = r.deep_view();
            let ghost elem = self@.teki_info[i as int];
            proof {
                assert(self@.teki_info.take(i as int + 1).filter(pred) == if pred(elem) {
                    prefix.filter(pred).push(elem)
                } else {
                    prefix.filter(pred)
                });
            }
            if self.teki_info[i].group == group {
                let copied = clone_teki(&self.teki_info[i]);
                r.push(copied);
                proof {
                    assert(pred(elem));
                    assert(r.deep_view() =~= r0.push(elem));
                    assert(r.deep_view() == self@.teki_info.take(i as int + 1).filter(pred));
                }
            } else {
                proof {
                    assert(!pred(elem));
                    assert(r.deep_view() == self@.teki_info.take(i as int + 1).filter(pred));
                }
            }
            i += 1;
        }
        proof {
            assert(self@.teki_info.take(self@.teki_info.len() as int) =~= self@.teki_info);
        }
        r
    }

    /// The human-readable sublevel name: the cave's display name followed
    /// by the one-indexed sublevel number.  Not part of the generation
    /// algorithm; available only when a display name was recorded.
    pub fn name(&self) -> (r: String)
        requires
            self@.cave_name is Some,
            self@.sublevel < 0xffff_ffff,
        ensures
            r@ == self@.cave_name.unwrap() + dec_str((self@.sublevel + 1) as nat),
    {
        match &self.cave_name {
            Some(base) => {
                let mut r = base.clone();
                let num = u32_to_dec(self.sublevel + 1);
                r.append(num.as_str());
                proof {
                    assert(base@ == self@.cave_name.unwrap());
                }
                r
            },
            None => vstd::pervasive::unreached(),
        }
    }

    /// The highest door count of any tile on this floor; zero when the
    /// floor has no tiles.
    pub fn max_num_doors_single_unit(&self) -> (r: usize)
        ensures
            self@.cave_units.len() == 0 ==> r == 0,
            forall|i: int|
                0 <= i < self@.cave_units.len() ==> #[trigger] self@.cave_units[i].num_doors <= r,
            self@.cave_units.len() > 0 ==> exists|i: int|
                0 <= i < self@.cave_units.len() && #[trigger] self@.cave_units[i].num_doors == r,
    {
        let mut r: usize = 0;
        let mut i: usize = 0;
        while i < self.cave_units.len()
            invariant
                i <= self@.cave_units.len(),
                self@.cave_units.len() == self.cave_units@.len(),
                i == 0 ==> r == 0,
                forall|k: int| 0 <= k < i ==> #[trigger] self@.cave_units[k].num_doors <= r,
                i > 0 ==> exists|k: int|
                    0 <= k < i && #[trigger] self@.cave_units[k].num_doors == r,
            decreases self@.cave_units.len() - i,
        {
            proof {
                assert(self.cave_units@[i as int]@ == self@.cave_units[i as int]);
            }
            if self.cave_units[i].num_doors > r || i == 0 {
                r = self.cave_units[i].num_doors;
                proof {
                    assert(self@.cave_units[i as int].num_doors == r);
                }
            }
            i += 1;
        }
        r
    }
}

} // verus!
