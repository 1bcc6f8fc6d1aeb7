//! The six section records and the extractors that fill them.
//!
//! Every field of a record is the normalized text of one column of its row.
//! A record's `fields` lists its field texts in declaration order, and
//! `columns` lists the columns they come from.

use vstd::prelude::*;

use crate::grid::{cell_text, get_cell_value, Grid, RowWindow};
use crate::scan::{numbered_rows, region_rows, scan_numbered, scan_region, Region};

verus! {

/// The texts of the given columns of a row.
pub open spec fn fields_of(row: Seq<Seq<char>>, cols: Seq<int>) -> Seq<Seq<char>> {
    cols.map_values(|c: int| cell_text(row, c))
}

/// The field texts of the records taken from rows `idx` of `g`.
pub open spec fn records_at(g: Grid, idx: Seq<int>, cols: Seq<int>) -> Seq<Seq<Seq<char>>> {
    idx.map_values(|i: int| fields_of(g[i], cols))
}

/// A record read from the columns of one row.
pub trait RowRecord: Sized {
    /// The columns that the fields come from, in field order.
    spec fn columns() -> Seq<int>;

    /// The field texts, in field order.
    spec fn fields(&self) -> Seq<Seq<char>>;

    /// The record held by `row`.
    fn from_row(row: &Vec<String>) -> (r: Self)
        ensures
            r.fields() == fields_of(row.deep_view(), Self::columns()),
    ;
}

/// The field texts of each record of a list.
pub open spec fn fields_list<R: RowRecord>(v: Seq<R>) -> Seq<Seq<Seq<char>>> {
    v.map_values(|x: R| x.fields())
}

/// The records held by rows `idx` of `rows`, in that order.
pub fn collect_records<R: RowRecord>(rows: &Vec<Vec<String>>, idx: &Vec<usize>) -> (r: Vec<R>)
    requires
        forall|k: int| 0 <= k < idx@.len() ==> #[trigger] idx@[k] < rows@.len(),
    ensures
        fields_list(r@) == records_at(
            rows.deep_view(),
            idx@.map_values(|i: usize| i as int),
            R::columns(),
        ),
{
    let ghost g = rows.deep_view();
    let ghost want = records_at(g, idx@.map_values(|i: usize| i as int), R::columns());
    let mut out: Vec<R> = Vec::new();
    let mut k: usize = 0;
    while k < idx.len()
        invariant
            g == rows.deep_view(),
            want == records_at(g, idx@.map_values(|i: usize| i as int), R::columns()),
            forall|k: int| 0 <= k < idx@.len() ==> #[trigger] idx@[k] < rows@.len(),
            k <= idx@.len(),
            fields_list(out@) == want.take(k as int),
        decreases idx@.len() - k,
    {
        let i = idx[k];
        let rec = R::from_row(&rows[i]);
        assert(g[i as int] == rows@[i as int].deep_view());
        assert(idx@.map_values(|i: usize| i as int)[k as int] == i as int);
        assert(want[k as int] == fields_of(g[i as int], R::columns()));
        let ghost before = out@;
        let ghost f = rec.fields();
        assert(fields_list(before).len() == k);
        out.push(rec);
        assert(out@.len() == k + 1);
        assert(out@[k as int].fields() == f);
        assert(fields_list(out@)[k as int] == f);
        assert(fields_list(out@) =~= want.take(k + 1));
        k = k + 1;
    }
    assert(want.take(idx@.len() as int) =~= want);
    out
}

/// Progress of one task, from a row numbered `2.x`.
#[derive(Clone, Debug)]
pub struct TaskProgress {
    pub task_no: String,
    pub task_name: String,
    pub planned_progress: String,
    pub actual_progress: String,
    pub deviation_reason: String,
    pub impact_measures: String,
}

impl RowRecord for TaskProgress {
    open spec fn columns() -> Seq<int> {
        seq![0, 1, 2, 4, 5, 6]
    }

    open spec fn fields(&self) -> Seq<Seq<char>> {
        seq![
            self.task_no@,
            self.task_name@,
            self.planned_progress@,
            self.actual_progress@,
            self.deviation_reason@,
            self.impact_measures@,
        ]
    }

    fn from_row(row: &Vec<String>) -> (r: Self) {
        let r = TaskProgress {
            task_no: get_cell_value(row, 0),
            task_name: get_cell_value(row, 1),
            planned_progress: get_cell_value(row, 2),
            actual_progress: get_cell_value(row, 4),
            deviation_reason: get_cell_value(row, 5),
            impact_measures: get_cell_value(row, 6),
        };
        assert(r.fields() =~= fields_of(row.deep_view(), Self::columns()));
        r
    }
}

/// Tomorrow's plan for one task, from a row numbered `3.x`.
#[derive(Clone, Debug)]
pub struct TomorrowPlan {
    pub plan_no: String,
    pub task_name: String,
    pub goal: String,
    pub responsible_person: String,
    pub required_resources: String,
    pub remarks: String,
}

impl RowRecord for TomorrowPlan {
    open spec fn columns() -> Seq<int> {
        seq![0, 1, 2, 4, 5, 6]
    }

    open spec fn fields(&self) -> Seq<Seq<char>> {
        seq![
            self.plan_no@,
            self.task_name@,
            self.goal@,
            self.responsible_person@,
            self.required_resources@,
            self.remarks@,
        ]
    }

    fn from_row(row: &Vec<String>) -> (r: Self) {
        let r = TomorrowPlan {
            plan_no: get_cell_value(row, 0),
            task_name: get_cell_value(row, 1),
            goal: get_cell_value(row, 2),
            responsible_person: get_cell_value(row, 4),
            required_resources: get_cell_value(row, 5),
            remarks: get_cell_value(row, 6),
        };
        assert(r.fields() =~= fields_of(row.deep_view(), Self::columns()));
        r
    }
}

/// The day's work of one worker, from region 二.
#[derive(Clone, Debug)]
pub struct WorkerReport {
    pub seq_no: String,
    pub name: String,
    pub job_type: String,
    pub worker_type: String,
    pub work_content: String,
    pub work_hours: String,
}

impl RowRecord for WorkerReport {
    open spec fn columns() -> Seq<int> {
        seq![0, 1, 2, 3, 4, 6]
    }

    open spec fn fields(&self) -> Seq<Seq<char>> {
        seq![
            self.seq_no@,
            self.name@,
            self.job_type@,
            self.worker_type@,
            self.work_content@,
            self.work_hours@,
        ]
    }

    fn from_row(row: &Vec<String>) -> (r: Self) {
        let r = WorkerReport {
            seq_no: get_cell_value(row, 0),
            name: get_cell_value(row, 1),
            job_type: get_cell_value(row, 2),
            worker_type: get_cell_value(row, 3),
            work_content: get_cell_value(row, 4),
            work_hours: get_cell_value(row, 6),
        };
        assert(r.fields() =~= fields_of(row.deep_view(), Self::columns()));
        r
    }
}

/// One rented machine, from region 三.
#[derive(Clone, Debug)]
pub struct MachineryRental {
    pub seq_no: String,
    pub machine_name: String,
    pub quantity: String,
    pub tonnage: String,
    pub usage: String,
    pub shift: String,
    pub remarks: String,
}

impl RowRecord for MachineryRental {
    open spec fn columns() -> Seq<int> {
        seq![0, 1, 2, 3, 4, 5, 6]
    }

    open spec fn fields(&self) -> Seq<Seq<char>> {
        seq![
            self.seq_no@,
            self.machine_name@,
            self.quantity@,
            self.tonnage@,
            self.usage@,
            self.shift@,
            self.remarks@,
        ]
    }

    fn from_row(row: &Vec<String>) -> (r: Self) {
        let r = MachineryRental {
            seq_no: get_cell_value(row, 0),
            machine_name: get_cell_value(row, 1),
            quantity: get_cell_value(row, 2),
            tonnage: get_cell_value(row, 3),
            usage: get_cell_value(row, 4),
            shift: get_cell_value(row, 5),
            remarks: get_cell_value(row, 6),
        };
        assert(r.fields() =~= fields_of(row.deep_view(), Self::columns()));
        r
    }
}

/// One reported problem, from region 四 before its requirement sub-header.
#[derive(Clone, Debug)]
pub struct ProblemFeedback {
    pub problem_no: String,
    pub description: String,
    pub reason: String,
    pub impact: String,
    pub progress: String,
}

impl RowRecord for ProblemFeedback {
    open spec fn columns() -> Seq<int> {
        seq![0, 1, 3, 4, 5]
    }

    open spec fn fields(&self) -> Seq<Seq<char>> {
        seq![self.problem_no@, self.description@, self.reason@, self.impact@, self.progress@]
    }

    fn from_row(row: &Vec<String>) -> (r: Self) {
        let r = ProblemFeedback {
            problem_no: get_cell_value(row, 0),
            description: get_cell_value(row, 1),
            reason: get_cell_value(row, 3),
            impact: get_cell_value(row, 4),
            progress: get_cell_value(row, 5),
        };
        assert(r.fields() =~= fields_of(row.deep_view(), Self::columns()));
        r
    }
}

/// One requirement, from region 四 after its requirement sub-header.
#[derive(Clone, Debug)]
pub struct Requirement {
    pub requirement_no: String,
    pub description: String,
    pub urgency_level: String,
    pub expected_time: String,
}

impl RowRecord for Requirement {
    open spec fn columns() -> Seq<int> {
        seq![0, 1, 3, 5]
    }

    open spec fn fields(&self) -> Seq<Seq<char>> {
        seq![self.requirement_no@, self.description@, self.urgency_level@, self.expected_time@]
    }

    fn from_row(row: &Vec<String>) -> (r: Self) {
        let r = Requirement {
            requirement_no: get_cell_value(row, 0),
            description: get_cell_value(row, 1),
            urgency_level: get_cell_value(row, 3),
            expected_time: get_cell_value(row, 5),
        };
        assert(r.fields() =~= fields_of(row.deep_view(), Self::columns()));
        r
    }
}

/// The task progress records of rows `start..=end`: the rows whose name is
/// non-empty and whose number begins with `2.`.
pub open spec fn task_progress_of(g: Grid, start: int, end: int) -> Seq<Seq<Seq<char>>> {
    records_at(g, numbered_rows(g, start, end, "2."@), TaskProgress::columns())
}

/// The plan records of rows `start..=end`: the rows whose name is non-empty
/// and whose number begins with `3.`.
pub open spec fn tomorrow_plans_of(g: Grid, start: int, end: int) -> Seq<Seq<Seq<char>>> {
    records_at(g, numbered_rows(g, start, end, "3."@), TomorrowPlan::columns())
}

/// The worker records of region 二 within rows `start..=end`.
pub open spec fn worker_reports_of(g: Grid, start: int, end: int) -> Seq<Seq<Seq<char>>> {
    records_at(g, region_rows(Region::Workers, g, start, end), WorkerReport::columns())
}

/// The machinery records of region 三 within rows `start..=end`.
pub open spec fn machinery_rentals_of(g: Grid, start: int, end: int) -> Seq<Seq<Seq<char>>> {
    records_at(g, region_rows(Region::Machinery, g, start, end), MachineryRental::columns())
}

/// The problem records of region 四 within rows `start..=end`.
pub open spec fn problem_feedbacks_of(g: Grid, start: int, end: int) -> Seq<Seq<Seq<char>>> {
    records_at(g, region_rows(Region::Problems, g, start, end), ProblemFeedback::columns())
}

/// The requirement records of region 四 within rows `start..=end`.
pub open spec fn requirements_of(g: Grid, start: int, end: int) -> Seq<Seq<Seq<char>>> {
    records_at(g, region_rows(Region::Requirements, g, start, end), Requirement::columns())
}

/// The task progress rows of `start_row..=end_row`: numbered `2.x`, with a
/// task name, in row order.
pub fn parse_task_progress(rows: &Vec<Vec<String>>, start_row: usize, end_row: usize) -> (r: Vec<
    TaskProgress,
>)
    ensures
        fields_list(r@) == task_progress_of(rows.deep_view(), start_row as int, end_row as int),
{
    let idx = scan_numbered(rows, RowWindow { start: start_row, end: end_row }, "2.");
    collect_records(rows, &idx)
}

/// Tomorrow's plan rows of `start_row..=end_row`: numbered `3.x`, with a
/// task name, in row order.
pub fn parse_tomorrow_plans(rows: &Vec<Vec<String>>, start_row: usize, end_row: usize) -> (r: Vec<
    TomorrowPlan,
>)
    ensures
        fields_list(r@) == tomorrow_plans_of(rows.deep_view(), start_row as int, end_row as int),
{
    let idx = scan_numbered(rows, RowWindow { start: start_row, end: end_row }, "3.");
    collect_records(rows, &idx)
}

/// The worker rows of region 二 within `start_row..=end_row`, in row order.
pub fn parse_worker_reports(rows: &Vec<Vec<String>>, start_row: usize, end_row: usize) -> (r: Vec<
    WorkerReport,
>)
    ensures
        fields_list(r@) == worker_reports_of(rows.deep_view(), start_row as int, end_row as int),
{
    let idx = scan_region(rows, RowWindow { start: start_row, end: end_row }, Region::Workers);
    collect_records(rows, &idx)
}

/// The machinery rows of region 三 within `start_row..=end_row`, in row order.
pub fn parse_machinery_rentals(rows: &Vec<Vec<String>>, start_row: usize, end_row: usize) -> (r:
    Vec<MachineryRental>)
    ensures
        fields_list(r@) == machinery_rentals_of(
            rows.deep_view(),
            start_row as int,
            end_row as int,
        ),
{
    let idx = scan_region(rows, RowWindow { start: start_row, end: end_row }, Region::Machinery);
    collect_records(rows, &idx)
}

/// The problem rows of region 四 within `start_row..=end_row`, in row order.
pub fn parse_problem_feedbacks(rows: &Vec<Vec<String>>, start_row: usize, end_row: usize) -> (r:
    Vec<ProblemFeedback>)
    ensures
        fields_list(r@) == problem_feedbacks_of(
            rows.deep_view(),
            start_row as int,
            end_row as int,
        ),
{
    let idx = scan_region(rows, RowWindow { start: start_row, end: end_row }, Region::Problems);
    collect_records(rows, &idx)
}

/// The requirement rows of region 四 within `start_row..=end_row`, in row order.
pub fn parse_requirements(rows: &Vec<Vec<String>>, start_row: usize, end_row: usize) -> (r: Vec<
    Requirement,
>)
    ensures
        fields_list(r@) == requirements_of(rows.deep_view(), start_row as int, end_row as int),
{
    let idx = scan_region(
        rows,
        RowWindow { start: start_row, end: end_row },
        Region::Requirements,
    );
    collect_records(rows, &idx)
}

} // verus!
