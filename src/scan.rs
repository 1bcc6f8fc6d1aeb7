//! The two section-scanning disciplines over a window of rows.
//!
//! Numbered scanning keeps the rows whose record number carries a fixed
//! prefix. Region scanning keeps the rows between a section's ordinal marker
//! and the marker of any later section.

use vstd::prelude::*;

use crate::grid::{cell, get_cell_value, window_hi, window_limit, Grid, RowWindow};
use crate::text::{
    all_numeric, ascii_digit, all_numeric_text, digits_from, has_prefix, same_text,
    starts_with_text,
};

verus! {

/// The indices `i` in `lo..hi` for which `p(i)` holds, in increasing order.
pub open spec fn indices_where(lo: int, hi: int, p: spec_fn(int) -> bool) -> Seq<int>
    decreases hi - lo,
{
    if hi <= lo {
        Seq::empty()
    } else {
        let before = indices_where(lo, hi - 1, p);
        if p(hi - 1) {
            before.push(hi - 1)
        } else {
            before
        }
    }
}

/// Every index that `indices_where` yields lies in the range and satisfies
/// the predicate, and the indices increase strictly.
pub proof fn lemma_indices_where_members(lo: int, hi: int, p: spec_fn(int) -> bool)
    ensures
        forall|k: int|
            0 <= k < indices_where(lo, hi, p).len() ==> {
                let i = #[trigger] indices_where(lo, hi, p)[k];
                lo <= i < hi && p(i)
            },
        forall|k: int, l: int|
            0 <= k < l < indices_where(lo, hi, p).len() ==> indices_where(lo, hi, p)[k]
                < indices_where(lo, hi, p)[l],
    decreases hi - lo,
{
    if hi > lo {
        lemma_indices_where_members(lo, hi - 1, p);
        let before = indices_where(lo, hi - 1, p);
        let all = indices_where(lo, hi, p);
        assert forall|k: int| 0 <= k < before.len() implies all[k] == before[k] by {
            if p(hi - 1) {
                assert(all == before.push(hi - 1));
            }
        }
    }
}

/// Extending the range by indices where the predicate fails adds nothing.
pub proof fn lemma_indices_where_stable(lo: int, mid: int, hi: int, p: spec_fn(int) -> bool)
    requires
        mid <= hi,
        forall|i: int| mid <= i < hi ==> !#[trigger] p(i),
    ensures
        indices_where(lo, hi, p) == indices_where(lo, mid, p),
    decreases hi - mid,
{
    if hi > mid {
        lemma_indices_where_stable(lo, mid, hi - 1, p);
        if hi - 1 < lo {
            assert(indices_where(lo, hi, p) == Seq::<int>::empty());
            assert(indices_where(lo, mid, p) == Seq::<int>::empty());
        }
    }
}

// ---------------------------------------------------------------------------
// Numbered scanning

/// Whether row `i` is a record whose number begins with `prefix`: its name
/// (column 1) is non-empty and its number (column 0) carries the prefix.
pub open spec fn numbered_row(g: Grid, i: int, prefix: Seq<char>) -> bool {
    cell(g, i, 1).len() > 0 && has_prefix(cell(g, i, 0), prefix)
}

/// The rows of the window `start..=end` that numbered scanning keeps.
pub open spec fn numbered_rows(g: Grid, start: int, end: int, prefix: Seq<char>) -> Seq<int> {
    indices_where(start, window_hi(g.len() as int, end), |i: int| numbered_row(g, i, prefix))
}

/// The rows of `window` whose name is non-empty and whose record number
/// begins with `prefix`, in row order.
pub fn scan_numbered(rows: &Vec<Vec<String>>, window: RowWindow, prefix: &str) -> (r: Vec<usize>)
    ensures
        r@.map_values(|i: usize| i as int) == numbered_rows(
            rows.deep_view(),
            window.start as int,
            window.end as int,
            prefix@,
        ),
        forall|k: int| 0 <= k < r@.len() ==> #[trigger] r@[k] < rows@.len(),
{
    let ghost g = rows.deep_view();
    let ghost p = |i: int| numbered_row(g, i, prefix@);
    let hi = window_limit(rows, window);
    let mut out: Vec<usize> = Vec::new();
    let mut i: usize = window.start;
    if i > hi {
        assert(indices_where(window.start as int, hi as int, p) == Seq::<int>::empty());
        assert(out@.map_values(|i: usize| i as int) =~= Seq::<int>::empty());
        return out;
    }
    while i < hi
        invariant
            g == rows.deep_view(),
            p == (|i: int| numbered_row(g, i, prefix@)),
            hi <= rows@.len(),
            window.start <= i <= hi,
            out@.map_values(|i: usize| i as int) == indices_where(window.start as int, i as int, p),
            forall|k: int| 0 <= k < out@.len() ==> #[trigger] out@[k] < i,
        decreases hi - i,
    {
        let row = &rows[i];
        let number = get_cell_value(row, 0);
        let name = get_cell_value(row, 1);
        assert(g[i as int] == row.deep_view());
        if name.unicode_len() > 0 && starts_with_text(number.as_str(), prefix) {
            out.push(i);
        }
        assert(out@.map_values(|i: usize| i as int) =~= indices_where(
            window.start as int,
            i + 1,
            p,
        ));
        i = i + 1;
    }
    out
}

// ---------------------------------------------------------------------------
// Region scanning

/// The rank of a section marker in the sequence 一 二 三 四 五 六, or 0 for
/// any other text.
pub open spec fn ordinal_rank(s: Seq<char>) -> int {
    if s == "一"@ {
        1
    } else if s == "二"@ {
        2
    } else if s == "三"@ {
        3
    } else if s == "四"@ {
        4
    } else if s == "五"@ {
        5
    } else if s == "六"@ {
        6
    } else {
        0
    }
}

/// The rank of `s` as a section marker, 0 when it is none.
pub fn ordinal_rank_of(s: &str) -> (r: u8)
    ensures
        r as int == ordinal_rank(s@),
{
    if same_text(s, "一") {
        1
    } else if same_text(s, "二") {
        2
    } else if same_text(s, "三") {
        3
    } else if same_text(s, "四") {
        4
    } else if same_text(s, "五") {
        5
    } else if same_text(s, "六") {
        6
    } else {
        0
    }
}

/// The regions of a sheet that region scanning extracts.
#[derive(Clone, Copy, Debug, PartialEq, Eq, Structural)]
pub enum Region {
    /// Region 二: the work report of each trade.
    Workers,
    /// Region 三: machinery rentals.
    Machinery,
    /// Region 四, before its requirement sub-header: problem feedback.
    Problems,
    /// Region 四, after its requirement sub-header: requirements.
    Requirements,
}

/// The rank of the marker that opens a region.
pub open spec fn entry_rank(region: Region) -> int {
    match region {
        Region::Workers => 2,
        Region::Machinery => 3,
        Region::Problems => 4,
        Region::Requirements => 4,
    }
}

/// Whether a row before `i` (from `lo` on) opened the region of rank `m`.
pub open spec fn entered(g: Grid, lo: int, i: int, m: int) -> bool {
    exists|e: int| lo <= e < i && ordinal_rank(#[trigger] cell(g, e, 0)) == m
}

/// Whether a row at or before `i`, after the region of rank `m` was opened,
/// carries the marker of a later section and so ends the scan.
pub open spec fn closed(g: Grid, lo: int, i: int, m: int) -> bool {
    exists|j: int|
        lo <= j <= i && ordinal_rank(#[trigger] cell(g, j, 0)) > m && entered(g, lo, j, m)
}

/// Whether row `i` lies inside the region of rank `m`: after an opening
/// marker, before the end of the scan, and not itself an opening marker.
pub open spec fn in_region(g: Grid, lo: int, i: int, m: int) -> bool {
    lo <= i && entered(g, lo, i, m) && !closed(g, lo, i, m) && ordinal_rank(cell(g, i, 0)) != m
}

/// Whether the texts of a row's first two columns form the requirement
/// sub-header of region 四.
pub open spec fn demand_header(number: Seq<char>, name: Seq<char>) -> bool {
    number == "2"@ && (name == "需求描述"@ || name == "需求"@)
}

/// Whether the region of rank `m` holds a requirement sub-header before row `i`.
pub open spec fn demand_seen(g: Grid, lo: int, i: int, m: int) -> bool {
    exists|j: int|
        lo <= j < i && in_region(g, lo, j, m) && demand_header(
            #[trigger] cell(g, j, 0),
            cell(g, j, 1),
        )
}

/// The column captions that mark a region's header rows.
pub open spec fn caption(region: Region, name: Seq<char>) -> bool {
    match region {
        Region::Workers => name == "姓名"@ || name == "序号"@,
        Region::Machinery => name == "机械名称"@ || name == "序号"@,
        Region::Problems => name == "问题描述"@ || name == "问题反馈"@ || name == "序号"@ || name
            == "需求描述"@,
        Region::Requirements => name == "需求描述"@ || name == "问题反馈"@ || name == "序号"@,
    }
}

/// Whether a row is a header row of the region: its number column reads
/// 序号, or its name column is one of the region's captions.
pub open spec fn header_row(region: Region, number: Seq<char>, name: Seq<char>) -> bool {
    number == "序号"@ || caption(region, name)
}

/// Whether a problem number is accepted: purely numeric but not `1`, or
/// `1.` followed by one or more digits.
pub open spec fn problem_number(number: Seq<char>) -> bool {
    (all_numeric(number) && number != "1"@) || (has_prefix(number, "1."@) && number.len() > 2
        && forall|j: int| 2 <= j < number.len() ==> ascii_digit(#[trigger] number[j]))
}

/// Whether a row inside the region is kept, given the texts of its first
/// two columns and whether the requirement sub-header came before it.
pub open spec fn kept_inside(region: Region, number: Seq<char>, name: Seq<char>, demand: bool) -> bool {
    &&& !header_row(region, number, name)
    &&& name.len() > 0
    &&& match region {
        Region::Problems => !demand && !demand_header(number, name) && number != "1"@
            && problem_number(number),
        Region::Requirements => demand && !demand_header(number, name),
        _ => true,
    }
}

/// Whether region scanning of `region` from row `lo` keeps row `i`.
pub open spec fn region_row(region: Region, g: Grid, lo: int, i: int) -> bool {
    let m = entry_rank(region);
    in_region(g, lo, i, m) && kept_inside(
        region,
        cell(g, i, 0),
        cell(g, i, 1),
        demand_seen(g, lo, i, m),
    )
}

/// The rows of the window `start..=end` that region scanning keeps.
pub open spec fn region_rows(region: Region, g: Grid, start: int, end: int) -> Seq<int> {
    indices_where(start, window_hi(g.len() as int, end), |i: int| region_row(region, g, start, i))
}

fn is_demand_header(number: &str, name: &str) -> (r: bool)
    ensures
        r == demand_header(number@, name@),
{
    same_text(number, "2") && (same_text(name, "需求描述") || same_text(name, "需求"))
}

fn is_header_row(region: Region, number: &str, name: &str) -> (r: bool)
    ensures
        r == header_row(region, number@, name@),
{
    if same_text(number, "序号") {
        return true;
    }
    match region {
        Region::Workers => same_text(name, "姓名") || same_text(name, "序号"),
        Region::Machinery => same_text(name, "机械名称") || same_text(name, "序号"),
        Region::Problems => same_text(name, "问题描述") || same_text(name, "问题反馈")
            || same_text(name, "序号") || same_text(name, "需求描述"),
        Region::Requirements => same_text(name, "需求描述") || same_text(name, "问题反馈")
            || same_text(name, "序号"),
    }
}

/// Whether `number` is an accepted problem number: purely numeric but not
/// `1`, or `1.` followed by one or more digits.
pub fn is_problem_number(number: &str) -> (r: bool)
    ensures
        r == problem_number(number@),
{
    let numeric = all_numeric_text(number) && !same_text(number, "1");
    let sub = starts_with_text(number, "1.") && number.unicode_len() > 2 && digits_from(number, 2);
    numeric || sub
}

fn keeps_inside(region: Region, number: &str, name: &str, demand: bool) -> (r: bool)
    ensures
        r == kept_inside(region, number@, name@, demand),
{
    if is_header_row(region, number, name) || name.unicode_len() == 0 {
        return false;
    }
    match region {
        Region::Problems => !demand && !is_demand_header(number, name) && !same_text(number, "1")
            && is_problem_number(number),
        Region::Requirements => demand && !is_demand_header(number, name),
        _ => true,
    }
}

/// The rank of the marker that opens `region`.
pub fn region_entry(region: Region) -> (r: u8)
    ensures
        r as int == entry_rank(region),
{
    match region {
        Region::Workers => 2,
        Region::Machinery => 3,
        Region::Problems => 4,
        Region::Requirements => 4,
    }
}

/// How `entered` grows by one row.
pub proof fn lemma_entered_step(g: Grid, lo: int, i: int, m: int)
    requires
        lo <= i,
    ensures
        entered(g, lo, i + 1, m) == (entered(g, lo, i, m) || ordinal_rank(cell(g, i, 0)) == m),
{
    if entered(g, lo, i + 1, m) {
        let e = choose|e: int| lo <= e < i + 1 && ordinal_rank(#[trigger] cell(g, e, 0)) == m;
        if e < i {
            assert(entered(g, lo, i, m));
        }
    }
    if entered(g, lo, i, m) {
        let e = choose|e: int| lo <= e < i && ordinal_rank(#[trigger] cell(g, e, 0)) == m;
        assert(entered(g, lo, i + 1, m));
    }
    if ordinal_rank(cell(g, i, 0)) == m {
        assert(entered(g, lo, i + 1, m));
    }
}

/// How `closed` grows by one row.
pub proof fn lemma_closed_step(g: Grid, lo: int, i: int, m: int)
    requires
        lo <= i,
    ensures
        closed(g, lo, i, m) == (closed(g, lo, i - 1, m) || (ordinal_rank(cell(g, i, 0)) > m
            && entered(g, lo, i, m))),
{
    if closed(g, lo, i, m) {
        let j = choose|j: int|
            lo <= j <= i && ordinal_rank(#[trigger] cell(g, j, 0)) > m && entered(g, lo, j, m);
        if j < i {
            assert(closed(g, lo, i - 1, m));
        }
    }
    if closed(g, lo, i - 1, m) {
        let j = choose|j: int|
            lo <= j <= i - 1 && ordinal_rank(#[trigger] cell(g, j, 0)) > m && entered(g, lo, j, m);
        assert(closed(g, lo, i, m));
    }
    if ordinal_rank(cell(g, i, 0)) > m && entered(g, lo, i, m) {
        assert(closed(g, lo, i, m));
    }
}

/// Once the scan has ended it stays ended.
pub proof fn lemma_closed_persists(g: Grid, lo: int, j: int, k: int, m: int)
    requires
        closed(g, lo, j, m),
        j <= k,
    ensures
        closed(g, lo, k, m),
{
    let w = choose|w: int|
        lo <= w <= j && ordinal_rank(#[trigger] cell(g, w, 0)) > m && entered(g, lo, w, m);
    assert(lo <= w <= k && ordinal_rank(cell(g, w, 0)) > m && entered(g, lo, w, m));
}

/// How `demand_seen` grows by one row.
pub proof fn lemma_demand_step(g: Grid, lo: int, i: int, m: int)
    requires
        lo <= i,
    ensures
        demand_seen(g, lo, i + 1, m) == (demand_seen(g, lo, i, m) || (in_region(g, lo, i, m)
            && demand_header(cell(g, i, 0), cell(g, i, 1)))),
{
    if demand_seen(g, lo, i + 1, m) {
        let j = choose|j: int|
            lo <= j < i + 1 && in_region(g, lo, j, m) && demand_header(
                #[trigger] cell(g, j, 0),
                cell(g, j, 1),
            );
        if j < i {
            assert(demand_seen(g, lo, i, m));
        }
    }
    if demand_seen(g, lo, i, m) {
        let j = choose|j: int|
            lo <= j < i && in_region(g, lo, j, m) && demand_header(
                #[trigger] cell(g, j, 0),
                cell(g, j, 1),
            );
        assert(demand_seen(g, lo, i + 1, m));
    }
    if in_region(g, lo, i, m) && demand_header(cell(g, i, 0), cell(g, i, 1)) {
        assert(demand_seen(g, lo, i + 1, m));
    }
}

/// The rows of `window` that lie inside `region` and that the region keeps,
/// in row order. The region opens at the row whose first column is its
/// ordinal marker, and the scan ends at the first later row, after that,
/// whose first column is the marker of a later section.
pub fn scan_region(rows: &Vec<Vec<String>>, window: RowWindow, region: Region) -> (r: Vec<usize>)
    ensures
        r@.map_values(|i: usize| i as int) == region_rows(
            region,
            rows.deep_view(),
            window.start as int,
            window.end as int,
        ),
        forall|k: int| 0 <= k < r@.len() ==> #[trigger] r@[k] < rows@.len(),
{
    let ghost g = rows.deep_view();
    let ghost lo = window.start as int;
    let ghost p = |i: int| region_row(region, g, lo, i);
    let m = region_entry(region);
    let hi = window_limit(rows, window);
    let mut out: Vec<usize> = Vec::new();
    let mut i: usize = window.start;
    if i > hi {
        assert(indices_where(lo, hi as int, p) == Seq::<int>::empty());
        assert(out@.map_values(|i: usize| i as int) =~= Seq::<int>::empty());
        return out;
    }
    let mut inside = false;
    let mut demand = false;
    assert(!entered(g, lo, lo, m as int));
    assert(!closed(g, lo, lo - 1, m as int));
    assert(!demand_seen(g, lo, lo, m as int));
    while i < hi
        invariant
            g == rows.deep_view(),
            lo == window.start,
            p == (|i: int| region_row(region, g, lo, i)),
            m as int == entry_rank(region),
            hi <= rows@.len(),
            hi == window_hi(rows@.len() as int, window.end as int),
            lo <= i <= hi,
            inside == entered(g, lo, i as int, m as int),
            !closed(g, lo, i - 1, m as int),
            demand == demand_seen(g, lo, i as int, m as int),
            out@.map_values(|i: usize| i as int) == indices_where(lo, i as int, p),
            forall|k: int| 0 <= k < out@.len() ==> #[trigger] out@[k] < i,
        decreases hi - i,
    {
        let row = &rows[i];
        let number = get_cell_value(row, 0);
        let name = get_cell_value(row, 1);
        assert(g[i as int] == row.deep_view());
        let ghost ii = i as int;
        let ghost mm = m as int;
        proof {
            lemma_entered_step(g, lo, ii, mm);
            lemma_closed_step(g, lo, ii, mm);
            lemma_demand_step(g, lo, ii, mm);
        }
        let rank = ordinal_rank_of(number.as_str());
        if inside && rank > m {
            assert forall|k: int| ii <= k < hi implies !#[trigger] p(k) by {
                lemma_closed_persists(g, lo, ii, k, mm);
            }
            proof {
                lemma_indices_where_stable(lo, ii, hi as int, p);
            }
            return out;
        }
        if rank == m {
            inside = true;
        } else if inside {
            if keeps_inside(region, number.as_str(), name.as_str(), demand) {
                out.push(i);
            }
            if is_demand_header(number.as_str(), name.as_str()) {
                demand = true;
            }
        }
        assert(out@.map_values(|i: usize| i as int) =~= indices_where(lo, ii + 1, p));
        i = i + 1;
    }
    out
}

} // verus!
