//! Properties of extraction that hold for every workbook.

use vstd::prelude::*;

use crate::grid::{cell, cell_text, Grid, SheetView};
use crate::records::{
    machinery_rentals_of, problem_feedbacks_of, requirements_of, task_progress_of,
    tomorrow_plans_of, worker_reports_of,
};
use crate::report::{workbook_reports, DailyReportView, SheetLayout};
use crate::scan::{
    closed, entered, entry_rank, lemma_indices_where_members, numbered_row, numbered_rows,
    ordinal_rank, region_row, region_rows, Region,
};
use crate::text::has_prefix;

verus! {

/// A workbook without sheets gives no reports.
pub proof fn lemma_no_sheets_no_reports(layout: SheetLayout)
    ensures
        workbook_reports(Seq::empty(), layout) == Seq::<DailyReportView>::empty(),
{
}

/// A sheet without rows contributes no report: adding it anywhere in a
/// workbook leaves the list of reports as it was.
pub proof fn lemma_empty_sheet_adds_nothing(
    sheets: Seq<SheetView>,
    k: int,
    empty: SheetView,
    layout: SheetLayout,
)
    requires
        0 <= k <= sheets.len(),
        empty.rows.len() == 0,
    ensures
        workbook_reports(sheets.insert(k, empty), layout) == workbook_reports(sheets, layout),
    decreases sheets.len(),
{
    let longer = sheets.insert(k, empty);
    if k == sheets.len() {
        assert(longer.drop_last() =~= sheets);
    } else {
        lemma_empty_sheet_adds_nothing(sheets.drop_last(), k, empty, layout);
        assert(longer.drop_last() =~= sheets.drop_last().insert(k, empty));
        assert(longer.last() == sheets.last());
    }
}

/// Every report of a workbook counts as on-site personnel exactly its
/// worker records.
pub proof fn lemma_personnel_count_is_worker_count(sheets: Seq<SheetView>, layout: SheetLayout)
    ensures
        forall|k: int|
            0 <= k < workbook_reports(sheets, layout).len() ==> {
                let report = #[trigger] workbook_reports(sheets, layout)[k];
                report.on_site_personnel_count == report.worker_reports.len()
            },
    decreases sheets.len(),
{
    if sheets.len() > 0 {
        lemma_personnel_count_is_worker_count(sheets.drop_last(), layout);
    }
}

/// Extraction depends on the workbook's content alone: workbooks with the
/// same sheets, names and cell texts give the same reports, so running it
/// again on the same file gives the same result.
pub proof fn lemma_extraction_is_deterministic(
    first: Seq<SheetView>,
    second: Seq<SheetView>,
    layout: SheetLayout,
)
    requires
        first == second,
    ensures
        workbook_reports(first, layout) == workbook_reports(second, layout),
{
}

/// Region scanning keeps no row at or after a row that carries the marker
/// of a later section, once the region has been opened before that row.
pub proof fn lemma_region_ends_at_later_marker(
    region: Region,
    g: Grid,
    start: int,
    end: int,
    opening: int,
    later: int,
)
    requires
        start <= opening < later,
        ordinal_rank(cell(g, opening, 0)) == entry_rank(region),
        ordinal_rank(cell(g, later, 0)) > entry_rank(region),
    ensures
        forall|k: int|
            0 <= k < region_rows(region, g, start, end).len() ==> #[trigger] region_rows(
                region,
                g,
                start,
                end,
            )[k] < later,
{
    let m = entry_rank(region);
    let p = |i: int| region_row(region, g, start, i);
    let hi = if end < g.len() {
        end + 1
    } else {
        g.len() as int
    };
    lemma_indices_where_members(start, hi, p);
    assert(entered(g, start, later, m));
    assert forall|k: int|
        0 <= k < region_rows(region, g, start, end).len() implies #[trigger] region_rows(
        region,
        g,
        start,
        end,
    )[k] < later by {
        let i = region_rows(region, g, start, end)[k];
        assert(p(i));
        if i >= later {
            assert(closed(g, start, i, m));
        }
    }
}

/// No plan row carries a task-progress number: no plan number begins with
/// `2.`.
pub proof fn lemma_plans_exclude_task_numbers(g: Grid, start: int, end: int)
    ensures
        forall|k: int|
            0 <= k < tomorrow_plans_of(g, start, end).len() ==> !has_prefix(
                #[trigger] tomorrow_plans_of(g, start, end)[k][0],
                "2."@,
            ),
{
    let hi = if end < g.len() {
        end + 1
    } else {
        g.len() as int
    };
    let p = |i: int| numbered_row(g, i, "3."@);
    lemma_indices_where_members(start, hi, p);
    reveal_strlit("2.");
    reveal_strlit("3.");
    assert forall|k: int| 0 <= k < tomorrow_plans_of(g, start, end).len() implies !has_prefix(
        #[trigger] tomorrow_plans_of(g, start, end)[k][0],
        "2."@,
    ) by {
        let i = numbered_rows(g, start, end, "3."@)[k];
        assert(p(i));
        let number = tomorrow_plans_of(g, start, end)[k][0];
        assert(number == cell_text(g[i], 0));
        assert(number == cell(g, i, 0));
        assert(number.subrange(0, 2)[0] == '3');
        if has_prefix(number, "2."@) {
            assert(number.subrange(0, 2)[0] == '2');
        }
    }
}

/// Task progress and plans never take the same row.
pub proof fn lemma_tasks_and_plans_disjoint(g: Grid, start: int, end: int, a: int, b: int)
    requires
        0 <= a < numbered_rows(g, start, end, "2."@).len(),
        0 <= b < numbered_rows(g, start, end, "3."@).len(),
    ensures
        numbered_rows(g, start, end, "2."@)[a] != numbered_rows(g, start, end, "3."@)[b],
{
    let hi = if end < g.len() {
        end + 1
    } else {
        g.len() as int
    };
    lemma_indices_where_members(start, hi, |i: int| numbered_row(g, i, "2."@));
    lemma_indices_where_members(start, hi, |i: int| numbered_row(g, i, "3."@));
    reveal_strlit("2.");
    reveal_strlit("3.");
    let i = numbered_rows(g, start, end, "2."@)[a];
    assert(numbered_row(g, i, "2."@));
    assert(cell(g, i, 0).subrange(0, 2)[0] == '2');
    let j = numbered_rows(g, start, end, "3."@)[b];
    assert(numbered_row(g, j, "3."@));
    assert(cell(g, j, 0).subrange(0, 2)[0] == '3');
}

/// Problems and requirements never take the same row: problems stop at the
/// requirement sub-header and requirements start after it.
pub proof fn lemma_problems_and_requirements_disjoint(
    g: Grid,
    start: int,
    end: int,
    a: int,
    b: int,
)
    requires
        0 <= a < region_rows(Region::Problems, g, start, end).len(),
        0 <= b < region_rows(Region::Requirements, g, start, end).len(),
    ensures
        region_rows(Region::Problems, g, start, end)[a] != region_rows(
            Region::Requirements,
            g,
            start,
            end,
        )[b],
{
    let hi = if end < g.len() {
        end + 1
    } else {
        g.len() as int
    };
    lemma_indices_where_members(start, hi, |i: int| region_row(Region::Problems, g, start, i));
    lemma_indices_where_members(
        start,
        hi,
        |i: int| region_row(Region::Requirements, g, start, i),
    );
    let i = region_rows(Region::Problems, g, start, end)[a];
    assert(region_row(Region::Problems, g, start, i));
    let j = region_rows(Region::Requirements, g, start, end)[b];
    assert(region_row(Region::Requirements, g, start, j));
}

/// Every record of a numbered or region section has a non-empty name
/// (its second field).
pub proof fn lemma_records_are_named(g: Grid, start: int, end: int)
    ensures
        forall|k: int|
            0 <= k < task_progress_of(g, start, end).len() ==> (#[trigger] task_progress_of(
                g,
                start,
                end,
            )[k])[1].len() > 0,
        forall|k: int|
            0 <= k < tomorrow_plans_of(g, start, end).len() ==> (#[trigger] tomorrow_plans_of(
                g,
                start,
                end,
            )[k])[1].len() > 0,
        forall|k: int|
            0 <= k < worker_reports_of(g, start, end).len() ==> (#[trigger] worker_reports_of(
                g,
                start,
                end,
            )[k])[1].len() > 0,
        forall|k: int|
            0 <= k < machinery_rentals_of(g, start, end).len() ==> (
            #[trigger] machinery_rentals_of(g, start, end)[k])[1].len() > 0,
        forall|k: int|
            0 <= k < problem_feedbacks_of(g, start, end).len() ==> (
            #[trigger] problem_feedbacks_of(g, start, end)[k])[1].len() > 0,
        forall|k: int|
            0 <= k < requirements_of(g, start, end).len() ==> (#[trigger] requirements_of(
                g,
                start,
                end,
            )[k])[1].len() > 0,
{
    let hi = if end < g.len() {
        end + 1
    } else {
        g.len() as int
    };
    lemma_indices_where_members(start, hi, |i: int| numbered_row(g, i, "2."@));
    lemma_indices_where_members(start, hi, |i: int| numbered_row(g, i, "3."@));
    lemma_indices_where_members(start, hi, |i: int| region_row(Region::Workers, g, start, i));
    lemma_indices_where_members(start, hi, |i: int| region_row(Region::Machinery, g, start, i));
    lemma_indices_where_members(start, hi, |i: int| region_row(Region::Problems, g, start, i));
    lemma_indices_where_members(
        start,
        hi,
        |i: int| region_row(Region::Requirements, g, start, i),
    );
}

} // verus!
