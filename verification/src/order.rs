//! The map tile comparator and ordering engine.
//!
//! Tiles are ordered by footprint area (width times height), with door count
//! as the tie-break.  The generation algorithm orders a floor's tile list
//! with a specific unstable procedure whose exact relocation pattern is
//! load-bearing: for each anchor position, the whole remaining suffix is
//! scanned, and on the first strictly smaller element found the anchor is
//! removed and re-inserted at the end of the sequence, the scan staying at
//! the same position.  `spec_sort` is the mathematical model of exactly that
//! procedure; `sort_cave_units` is proved to return `spec_sort` of its
//! input, which pins the relative order of tiles that compare equal.

use vstd::prelude::*;

use crate::model::CaveUnit;
use crate::model::CaveUnitModel;

verus! {

/// Footprint area of a tile, in grid cells.
pub open spec fn unit_area(u: CaveUnitModel) -> int {
    u.width * u.height
}

/// The strict comparator: smaller footprint area first, door count as the
/// tie-break.
pub open spec fn unit_lt(a: CaveUnitModel, b: CaveUnitModel) -> bool {
    ||| unit_area(a) < unit_area(b)
    ||| (unit_area(a) == unit_area(b) && a.num_doors < b.num_doors)
}

/// The non-strict comparator.  `unit_le(a, b)` holds exactly when `b` is
/// not strictly smaller than `a`, so the order is total.
pub open spec fn unit_le(a: CaveUnitModel, b: CaveUnitModel) -> bool {
    !unit_lt(b, a)
}

/// Equality under the comparator: equal footprint area and equal door
/// count.  Intentionally coarser than structural equality.
pub open spec fn unit_eq(a: CaveUnitModel, b: CaveUnitModel) -> bool {
    unit_area(a) == unit_area(b) && a.num_doors == b.num_doors
}

/// The first position `k` at or after `j` where `s[k]` is strictly smaller
/// than the anchor `s[i]`, or `s.len()` when the suffix holds none.
pub open spec fn find_gt(s: Seq<CaveUnitModel>, i: int, j: int) -> int
    decreases s.len() - j,
{
    if j < 0 || j >= s.len() {
        s.len() as int
    } else if unit_lt(s[j], s[i]) {
        j
    } else {
        find_gt(s, i, j + 1)
    }
}

/// What `find_gt` returns: the first inversion partner of the anchor in the
/// suffix starting at `j`, if any.
pub proof fn lemma_find_gt(s: Seq<CaveUnitModel>, i: int, j: int)
    requires
        0 <= j <= s.len(),
    ensures
        j <= find_gt(s, i, j) <= s.len(),
        find_gt(s, i, j) < s.len() ==> unit_lt(s[find_gt(s, i, j)], s[i]),
        forall|k: int| j <= k < find_gt(s, i, j) ==> !unit_lt(#[trigger] s[k], s[i]),
    decreases s.len() - j,
{
    if j < s.len() && !unit_lt(s[j], s[i]) {
        lemma_find_gt(s, i, j + 1);
    }
}

/// The position of the first minimum of the suffix `s[i..]` under the
/// comparator.  This is the termination measure of the ordering procedure:
/// relocating an anchor to the tail moves the suffix's first minimum one
/// position closer to the anchor position.
pub open spec fn first_min_pos(s: Seq<CaveUnitModel>, i: int) -> int
    decreases s.len() - i,
    when 0 <= i < s.len()
{
    if i >= s.len() - 1 {
        i
    } else {
        let m = first_min_pos(s, i + 1);
        if unit_le(s[i], s[m]) {
            i
        } else {
            m
        }
    }
}

/// `first_min_pos` names a position of the suffix that holds a minimal
/// element, and every position before it holds a strictly greater one.
pub proof fn lemma_first_min_pos(s: Seq<CaveUnitModel>, i: int)
    requires
        0 <= i < s.len(),
    ensures
        i <= first_min_pos(s, i) < s.len(),
        forall|l: int| i <= l < s.len() ==> unit_le(s[first_min_pos(s, i)], #[trigger] s[l]),
        forall|k: int| i <= k < first_min_pos(s, i) ==> unit_lt(s[first_min_pos(s, i)], #[trigger] s[k]),
    decreases s.len() - i,
{
    if i < s.len() - 1 {
        lemma_first_min_pos(s, i + 1);
    }
}

/// The three properties of `lemma_first_min_pos` determine the position:
/// no other position satisfies them.
pub proof fn lemma_first_min_pos_unique(s: Seq<CaveUnitModel>, i: int, q: int)
    requires
        0 <= i <= q < s.len(),
        forall|l: int| i <= l < s.len() ==> unit_le(s[q], #[trigger] s[l]),
        forall|k: int| i <= k < q ==> unit_lt(s[q], #[trigger] s[k]),
    ensures
        first_min_pos(s, i) == q,
{
    let p = first_min_pos(s, i);
    lemma_first_min_pos(s, i);
    if p < q {
        assert(unit_lt(s[q], s[p]));
        assert(unit_le(s[p], s[q]));
    }
    if q < p {
        assert(unit_lt(s[p], s[q]));
        assert(unit_le(s[q], s[p]));
    }
}

/// One relocation step of the ordering procedure: the anchor at position
/// `i` is removed and re-inserted at the end of the sequence.
pub open spec fn relocate(s: Seq<CaveUnitModel>, i: int) -> Seq<CaveUnitModel> {
    s.remove(i).push(s[i])
}

/// Relocating a non-minimal anchor moves the suffix's first minimum one
/// position forward.
pub proof fn lemma_first_min_pos_relocate(s: Seq<CaveUnitModel>, i: int)
    requires
        0 <= i < s.len(),
        first_min_pos(s, i) > i,
    ensures
        first_min_pos(relocate(s, i), i) == first_min_pos(s, i) - 1,
{
    let p = first_min_pos(s, i);
    let s2 = relocate(s, i);
    lemma_first_min_pos(s, i);
    assert(s2.len() == s.len());
    assert forall|l: int| i <= l < s2.len() implies unit_le(s2[p - 1], #[trigger] s2[l]) by {
        assert(s2[p - 1] == s[p]);
        if l < s2.len() - 1 {
            assert(s2[l] == s[l + 1]);
        } else {
            assert(s2[l] == s[i]);
        }
    }
    assert forall|k: int| i <= k < p - 1 implies unit_lt(s2[p - 1], #[trigger] s2[k]) by {
        assert(s2[p - 1] == s[p]);
        assert(s2[k] == s[k + 1]);
    }
    lemma_first_min_pos_unique(s2, i, p - 1);
}

/// The distance from the anchor position to the suffix's first minimum;
/// zero outside the suffix.  Second component of the ordering procedure's
/// termination measure.
pub open spec fn sort_measure(s: Seq<CaveUnitModel>, i: int) -> int {
    if 0 <= i < s.len() {
        first_min_pos(s, i) - i
    } else {
        0
    }
}

/// The state of the ordering procedure after it has finished working on all
/// positions before `i`: scan the suffix for the anchor's first inversion
/// partner; relocate the anchor and stay, or advance.
pub open spec fn spec_sort_from(s: Seq<CaveUnitModel>, i: int) -> Seq<CaveUnitModel>
    decreases s.len() - i, sort_measure(s, i),
    when 0 <= i
    via spec_sort_from_decreases
{
    if i >= s.len() {
        s
    } else if find_gt(s, i, i + 1) >= s.len() {
        spec_sort_from(s, i + 1)
    } else {
        spec_sort_from(relocate(s, i), i)
    }
}

#[via_fn]
proof fn spec_sort_from_decreases(s: Seq<CaveUnitModel>, i: int) {
    if 0 <= i < s.len() {
        let j = find_gt(s, i, i + 1);
        if j < s.len() {
            lemma_find_gt(s, i, i + 1);
            lemma_first_min_pos(s, i);
            let p = first_min_pos(s, i);
            assert(p > i) by {
                if p == i {
                    assert(unit_le(s[p], s[j]));
                }
            }
            lemma_first_min_pos_relocate(s, i);
            assert(relocate(s, i).len() == s.len());
        }
    }
}

/// The ordering procedure applied to a whole sequence.
pub open spec fn spec_sort(s: Seq<CaveUnitModel>) -> Seq<CaveUnitModel> {
    spec_sort_from(s, 0)
}

/// Ordering engine determinism: the procedure is a function of the input
/// sequence alone, so equal inputs give equal outputs.  Together with the
/// postcondition of `sort_cave_units`, repeated runs over the same tiles
/// return identical sequences.
pub proof fn lemma_sort_deterministic(a: Seq<CaveUnitModel>, b: Seq<CaveUnitModel>)
    requires
        a == b,
    ensures
        spec_sort(a) == spec_sort(b),
{
}

/// Tile equality is equality under the comparator: same footprint area and
/// same door count, regardless of structure.
impl PartialEq for CaveUnit {
    fn eq(&self, other: &Self) -> (r: bool) {
        proof {
            lemma_area_fits_u32(self.width, self.height);
            lemma_area_fits_u32(other.width, other.height);
        }
        let area_self = (self.width as u32) * (self.height as u32);
        let area_other = (other.width as u32) * (other.height as u32);
        area_self == area_other && self.num_doors == other.num_doors
    }
}

impl vstd::std_specs::cmp::PartialEqSpecImpl for CaveUnit {
    open spec fn obeys_eq_spec() -> bool {
        true
    }

    open spec fn eq_spec(&self, other: &Self) -> bool {
        unit_eq(self@, other@)
    }
}

/// Tiles order by footprint area, door count as the tie-break.
impl PartialOrd for CaveUnit {
    fn partial_cmp(&self, other: &Self) -> (r: Option<core::cmp::Ordering>) {
        proof {
            lemma_area_fits_u32(self.width, self.height);
            lemma_area_fits_u32(other.width, other.height);
        }
        let area_self = (self.width as u32) * (self.height as u32);
        let area_other = (other.width as u32) * (other.height as u32);
        if area_self == area_other {
            if self.num_doors < other.num_doors {
                Some(core::cmp::Ordering::Less)
            } else if self.num_doors == other.num_doors {
                Some(core::cmp::Ordering::Equal)
            } else {
                Some(core::cmp::Ordering::Greater)
            }
        } else if area_self < area_other {
            Some(core::cmp::Ordering::Less)
        } else {
            Some(core::cmp::Ordering::Greater)
        }
    }
}

impl vstd::std_specs::cmp::PartialOrdSpecImpl for CaveUnit {
    open spec fn obeys_partial_cmp_spec() -> bool {
        true
    }

    open spec fn partial_cmp_spec(&self, other: &Self) -> Option<core::cmp::Ordering> {
        if unit_lt(self@, other@) {
            Some(core::cmp::Ordering::Less)
        } else if unit_lt(other@, self@) {
            Some(core::cmp::Ordering::Greater)
        } else {
            Some(core::cmp::Ordering::Equal)
        }
    }
}

/// A tile's footprint area fits a machine word: both dimensions are held
/// in sixteen bits.
proof fn lemma_area_fits_u32(w: u16, h: u16)
    ensures
        0 <= w as int * h as int <= 0xffff_ffff,
{
    assert(w as int * h as int <= 65535 * 65535) by (nonlinear_arith)
        requires
            0 <= w <= 65535,
            0 <= h <= 65535,
    ;
}

/// The comparator, executable: does `a` order strictly after `b`?
pub fn unit_gt(a: &CaveUnit, b: &CaveUnit) -> (r: bool)
    ensures
        r == unit_lt(b@, a@),
{
    proof {
        lemma_area_fits_u32(a.width, a.height);
        lemma_area_fits_u32(b.width, b.height);
    }
    let area_a = (a.width as u32) * (a.height as u32);
    let area_b = (b.width as u32) * (b.height as u32);
    area_a > area_b || (area_a == area_b && a.num_doors > b.num_doors)
}

/// The suffix scan of the ordering procedure: the first position after `i`
/// holding a tile strictly smaller than the anchor at `i`, or the length
/// when there is none.
fn scan_gt(units: &Vec<CaveUnit>, i: usize) -> (r: usize)
    requires
        i < units@.len(),
    ensures
        r == find_gt(units.deep_view(), i as int, i + 1),
{
    let ghost s = units.deep_view();
    let n = units.len();
    let mut j: usize = i + 1;
    while j < n
        invariant
            n == units@.len(),
            i < units@.len(),
            i + 1 <= j <= units@.len(),
            s == units.deep_view(),
            forall|k: int| i + 1 <= k < j ==> !unit_lt(#[trigger] s[k], s[i as int]),
        decreases units@.len() - j,
    {
        if unit_gt(&units[i], &units[j]) {
            proof {
                lemma_find_gt_hits(s, i as int, i + 1, j as int);
            }
            return j;
        }
        j += 1;
    }
    proof {
        lemma_find_gt_misses(s, i as int, i + 1);
    }
    units.len()
}

/// The ordering procedure over a floor's tile list, exactly as the
/// reference generator runs it.  The relocation pattern among tiles that
/// compare equal is part of the contract: the result is `spec_sort` of the
/// input, not merely some sorted permutation.
pub fn sort_cave_units(unsorted: Vec<CaveUnit>) -> (sorted: Vec<CaveUnit>)
    ensures
        sorted.deep_view() == spec_sort(unsorted.deep_view()),
{
    let ghost orig: Seq<CaveUnitModel> = unsorted.deep_view();
    let mut units = unsorted;
    let mut i: usize = 0;
    while i < units.len()
        invariant
            i <= units@.len(),
            spec_sort_from(units.deep_view(), i as int) == spec_sort(orig),
        decreases units@.len() - i, sort_measure(units.deep_view(), i as int),
    {
        let ghost s = units.deep_view();
        let j = scan_gt(&units, i);
        if j < units.len() {
            proof {
                lemma_find_gt(s, i as int, i + 1);
                lemma_first_min_pos(s, i as int);
                let p = first_min_pos(s, i as int);
                assert(p > i) by {
                    if p == i as int {
                        assert(unit_le(s[p], s[j as int]));
                    }
                }
                lemma_first_min_pos_relocate(s, i as int);
            }
            let current = units.remove(i);
            units.push(current);
            proof {
                assert(units.deep_view() =~= relocate(s, i as int));
            }
        } else {
            i += 1;
        }
    }
    units
}

/// Ordering engine correctness with respect to the comparator: the result
/// of the procedure is non-decreasing under `unit_le`, and it is a
/// permutation of the input.
pub proof fn lemma_sort_sorted(s: Seq<CaveUnitModel>)
    ensures
        spec_sort(s).len() == s.len(),
        spec_sort(s).to_multiset() == s.to_multiset(),
        forall|k: int, l: int|
            0 <= k <= l < s.len() ==> unit_le(#[trigger] spec_sort(s)[k], #[trigger] spec_sort(s)[l]),
{
    lemma_sort_from_sorted(s, 0);
}

/// Induction step behind `lemma_sort_sorted`: when the prefix before `i` is
/// already non-decreasing and bounded above by the whole suffix, finishing
/// the procedure from `i` yields a non-decreasing permutation.
proof fn lemma_sort_from_sorted(s: Seq<CaveUnitModel>, i: int)
    requires
        0 <= i <= s.len(),
        forall|k: int, l: int| 0 <= k <= l < i ==> unit_le(#[trigger] s[k], #[trigger] s[l]),
        forall|k: int, l: int| 0 <= k < i <= l < s.len() ==> unit_le(#[trigger] s[k], #[trigger] s[l]),
    ensures
        spec_sort_from(s, i).len() == s.len(),
        spec_sort_from(s, i).to_multiset() == s.to_multiset(),
        forall|k: int, l: int|
            0 <= k <= l < s.len() ==> unit_le(
                #[trigger] spec_sort_from(s, i)[k],
                #[trigger] spec_sort_from(s, i)[l],
            ),
    decreases s.len() - i, sort_measure(s, i),
{
    if i >= s.len() {
    } else {
        let j = find_gt(s, i, i + 1);
        lemma_find_gt(s, i, i + 1);
        if j >= s.len() {
            assert forall|k: int, l: int| 0 <= k < i + 1 <= l < s.len() implies unit_le(
                #[trigger] s[k],
                #[trigger] s[l],
            ) by {
                if k == i {
                    assert(!unit_lt(s[l], s[i]));
                }
            }
            lemma_sort_from_sorted(s, i + 1);
        } else {
            lemma_first_min_pos(s, i);
            let p = first_min_pos(s, i);
            assert(p > i) by {
                if p == i {
                    assert(unit_le(s[p], s[j]));
                }
            }
            lemma_first_min_pos_relocate(s, i);
            let s2 = relocate(s, i);
            assert(s2.len() == s.len());
            assert forall|k: int, l: int| 0 <= k < i <= l < s2.len() implies unit_le(
                #[trigger] s2[k],
                #[trigger] s2[l],
            ) by {
                assert(s2[k] == s[k]);
                if l < s2.len() - 1 {
                    assert(s2[l] == s[l + 1]);
                } else {
                    assert(s2[l] == s[i]);
                }
            }
            assert(s2.to_multiset() == s.to_multiset()) by {
                broadcast use vstd::seq_lib::group_to_multiset_ensures;
                broadcast use vstd::multiset::group_multiset_axioms;

                assert(s.remove(i).to_multiset() =~= s.to_multiset().remove(s[i]));
                assert(s.contains(s[i]));
                assert(s.to_multiset().count(s[i]) > 0);
                assert(s2.to_multiset() =~= s.to_multiset().remove(s[i]).insert(s[i]));
                assert(s.to_multiset().remove(s[i]).insert(s[i]) =~= s.to_multiset());
            }
            lemma_sort_from_sorted(s2, i);
        }
    }
}

/// When the first inversion partner is known by scan, `find_gt` returns it.
proof fn lemma_find_gt_hits(s: Seq<CaveUnitModel>, i: int, j0: int, j: int)
    requires
        0 <= j0 <= j < s.len(),
        unit_lt(s[j], s[i]),
        forall|k: int| j0 <= k < j ==> !unit_lt(#[trigger] s[k], s[i]),
    ensures
        find_gt(s, i, j0) == j,
    decreases j - j0,
{
    if j0 < j {
        lemma_find_gt_hits(s, i, j0 + 1, j);
    }
}

/// When the scan found no inversion partner, `find_gt` reports none.
proof fn lemma_find_gt_misses(s: Seq<CaveUnitModel>, i: int, j0: int)
    requires
        0 <= j0,
        forall|k: int| j0 <= k < s.len() ==> !unit_lt(#[trigger] s[k], s[i]),
    ensures
        find_gt(s, i, j0) == s.len(),
    decreases s.len() - j0,
{
    if j0 < s.len() {
        lemma_find_gt_misses(s, i, j0 + 1);
    }
}

} // verus!
