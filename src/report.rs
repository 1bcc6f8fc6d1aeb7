//! The daily report of one sheet, and of a whole workbook.

use vstd::prelude::*;

use crate::grid::{cell, get_cell_value, RowWindow, Sheet, SheetView};
use crate::records::{
    fields_list, machinery_rentals_of, parse_machinery_rentals, parse_problem_feedbacks,
    parse_requirements, parse_task_progress, parse_tomorrow_plans, parse_worker_reports,
    problem_feedbacks_of, requirements_of, task_progress_of, tomorrow_plans_of,
    worker_reports_of, MachineryRental, ProblemFeedback, Requirement, TaskProgress, TomorrowPlan,
    WorkerReport,
};
use crate::text::{contains_text, occurs_in, remove_text, removed, trim_text, trimmed};

verus! {

/// The reporter name given to a sheet whose title names no project.
pub const UNKNOWN_PROJECT: &'static str = "unknown project";

/// How the day's progress compares with the plan.
#[derive(Clone, Copy, Debug, PartialEq, Eq, Structural)]
pub enum Progress {
    Normal,
    Delayed,
    Ahead,
}

/// The wire name of a progress state.
pub open spec fn progress_name(p: Progress) -> Seq<char> {
    match p {
        Progress::Normal => "normal"@,
        Progress::Delayed => "delayed"@,
        Progress::Ahead => "ahead"@,
    }
}

impl Progress {
    /// The wire name: `normal`, `delayed` or `ahead`.
    pub fn as_str(&self) -> (r: &'static str)
        ensures
            r@ == progress_name(*self),
    {
        match self {
            Progress::Normal => "normal",
            Progress::Delayed => "delayed",
            Progress::Ahead => "ahead",
        }
    }
}

/// The progress state that a description states: the first of 正常
/// (normal), 滞后 (delayed) and 超前 (ahead) that it contains, normal when
/// it contains none.
pub open spec fn progress_of(desc: Seq<char>) -> Progress {
    if occurs_in(desc, "正常"@) {
        Progress::Normal
    } else if occurs_in(desc, "滞后"@) {
        Progress::Delayed
    } else if occurs_in(desc, "超前"@) {
        Progress::Ahead
    } else {
        Progress::Normal
    }
}

/// Classifies a progress description by the keywords it contains.
pub fn classify_progress(desc: &str) -> (r: Progress)
    ensures
        r == progress_of(desc@),
{
    if contains_text(desc, "正常") {
        Progress::Normal
    } else if contains_text(desc, "滞后") {
        Progress::Delayed
    } else if contains_text(desc, "超前") {
        Progress::Ahead
    } else {
        Progress::Normal
    }
}

/// The reporter name in a sheet title: the title without the phrases
/// 项目工作日报 and 日报, trimmed, or `UNKNOWN_PROJECT` when nothing is left.
pub open spec fn reporter_of(title: Seq<char>) -> Seq<char> {
    let name = trimmed(removed(removed(title, "项目工作日报"@), "日报"@));
    if name.len() == 0 {
        UNKNOWN_PROJECT@
    } else {
        name
    }
}

/// The reporter name in a sheet title, as `reporter_of` states it.
pub fn reporter_name(title: &str) -> (r: String)
    ensures
        r@ == reporter_of(title@),
{
    let without_title = remove_text(title, "项目工作日报");
    let without_suffix = remove_text(without_title.as_str(), "日报");
    let name = trim_text(without_suffix.as_str());
    if name.unicode_len() == 0 {
        UNKNOWN_PROJECT.to_string()
    } else {
        name
    }
}

/// The rows that each group of sections is looked for in.
#[derive(Clone, Copy, Debug, PartialEq, Eq, Structural)]
pub struct SheetLayout {
    /// Task progress (`2.x`) and tomorrow's plans (`3.x`).
    pub plans: RowWindow,
    /// Regions 二 and 三: workers and machinery.
    pub crew: RowWindow,
    /// Region 四: problems and requirements.
    pub issues: RowWindow,
}

impl SheetLayout {
    /// The windows of the standard daily report template.
    pub fn standard() -> (r: SheetLayout)
        ensures
            r == (SheetLayout {
                plans: RowWindow { start: 5, end: 19 },
                crew: RowWindow { start: 19, end: 69 },
                issues: RowWindow { start: 19, end: 79 },
            }),
    {
        SheetLayout {
            plans: RowWindow { start: 5, end: 19 },
            crew: RowWindow { start: 19, end: 69 },
            issues: RowWindow { start: 19, end: 79 },
        }
    }
}

/// The report of one sheet.
#[derive(Clone, Debug)]
pub struct DailyReport {
    pub report_date: String,
    pub reporter_name: String,
    pub overall_progress: Progress,
    pub progress_description: String,
    pub task_progress_list: Vec<TaskProgress>,
    pub tomorrow_plans: Vec<TomorrowPlan>,
    pub worker_reports: Vec<WorkerReport>,
    pub machinery_rentals: Vec<MachineryRental>,
    pub problem_feedbacks: Vec<ProblemFeedback>,
    pub requirements: Vec<Requirement>,
    pub on_site_personnel_count: usize,
    pub weather: Option<String>,
    pub temperature: Option<String>,
    pub remarks: Option<String>,
}

/// The mathematical content of a `DailyReport`; each record is given by its
/// field texts.
pub struct DailyReportView {
    pub report_date: Seq<char>,
    pub reporter_name: Seq<char>,
    pub overall_progress: Progress,
    pub progress_description: Seq<char>,
    pub task_progress_list: Seq<Seq<Seq<char>>>,
    pub tomorrow_plans: Seq<Seq<Seq<char>>>,
    pub worker_reports: Seq<Seq<Seq<char>>>,
    pub machinery_rentals: Seq<Seq<Seq<char>>>,
    pub problem_feedbacks: Seq<Seq<Seq<char>>>,
    pub requirements: Seq<Seq<Seq<char>>>,
    pub on_site_personnel_count: int,
    pub weather: Option<Seq<char>>,
    pub temperature: Option<Seq<char>>,
    pub remarks: Option<Seq<char>>,
}

/// The text of an optional string.
pub open spec fn optional_text(o: Option<String>) -> Option<Seq<char>> {
    match o {
        Some(s) => Some(s@),
        None => None,
    }
}

impl View for DailyReport {
    type V = DailyReportView;

    open spec fn view(&self) -> DailyReportView {
        DailyReportView {
            report_date: self.report_date@,
            reporter_name: self.reporter_name@,
            overall_progress: self.overall_progress,
            progress_description: self.progress_description@,
            task_progress_list: fields_list(self.task_progress_list@),
            tomorrow_plans: fields_list(self.tomorrow_plans@),
            worker_reports: fields_list(self.worker_reports@),
            machinery_rentals: fields_list(self.machinery_rentals@),
            problem_feedbacks: fields_list(self.problem_feedbacks@),
            requirements: fields_list(self.requirements@),
            on_site_personnel_count: self.on_site_personnel_count as int,
            weather: optional_text(self.weather),
            temperature: optional_text(self.temperature),
            remarks: optional_text(self.remarks),
        }
    }
}

/// The report of a sheet: its name as the date, the reporter from the title
/// cell (row 0, column 0), the progress description from row 2, column 4,
/// the six section lists from the layout's windows, the personnel count as
/// the number of worker records, and no weather, temperature or remarks.
pub open spec fn report_of(s: SheetView, layout: SheetLayout) -> DailyReportView {
    let g = s.rows;
    let desc = cell(g, 2, 4);
    let workers = worker_reports_of(g, layout.crew.start as int, layout.crew.end as int);
    DailyReportView {
        report_date: s.name,
        reporter_name: reporter_of(cell(g, 0, 0)),
        overall_progress: progress_of(desc),
        progress_description: desc,
        task_progress_list: task_progress_of(g, layout.plans.start as int, layout.plans.end as int),
        tomorrow_plans: tomorrow_plans_of(g, layout.plans.start as int, layout.plans.end as int),
        worker_reports: workers,
        machinery_rentals: machinery_rentals_of(
            g,
            layout.crew.start as int,
            layout.crew.end as int,
        ),
        problem_feedbacks: problem_feedbacks_of(
            g,
            layout.issues.start as int,
            layout.issues.end as int,
        ),
        requirements: requirements_of(g, layout.issues.start as int, layout.issues.end as int),
        on_site_personnel_count: workers.len() as int,
        weather: None,
        temperature: None,
        remarks: None,
    }
}

/// The reports of a workbook: one per sheet that has rows, in sheet order.
pub open spec fn workbook_reports(sheets: Seq<SheetView>, layout: SheetLayout) -> Seq<
    DailyReportView,
>
    decreases sheets.len(),
{
    if sheets.len() == 0 {
        Seq::empty()
    } else {
        let before = workbook_reports(sheets.drop_last(), layout);
        if sheets.last().rows.len() == 0 {
            before
        } else {
            before.push(report_of(sheets.last(), layout))
        }
    }
}

/// The report of one sheet; `None` when the sheet has no rows.
pub fn parse_sheet(sheet: &Sheet, layout: &SheetLayout) -> (r: Option<DailyReport>)
    ensures
        r is None <==> sheet.rows@.len() == 0,
        r matches Some(report) ==> report@ == report_of(sheet@, *layout),
{
    let rows = &sheet.rows;
    if rows.len() == 0 {
        return None;
    }
    let title = get_cell_value(&rows[0], 0);
    assert(rows.deep_view()[0] == rows@[0].deep_view());
    let progress_description = if rows.len() > 2 {
        assert(rows.deep_view()[2] == rows@[2].deep_view());
        get_cell_value(&rows[2], 4)
    } else {
        String::new()
    };
    let overall_progress = classify_progress(progress_description.as_str());
    let worker_reports = parse_worker_reports(rows, layout.crew.start, layout.crew.end);
    let on_site_personnel_count = worker_reports.len();
    let report = DailyReport {
        report_date: sheet.name.clone(),
        reporter_name: reporter_name(title.as_str()),
        overall_progress,
        progress_description,
        task_progress_list: parse_task_progress(rows, layout.plans.start, layout.plans.end),
        tomorrow_plans: parse_tomorrow_plans(rows, layout.plans.start, layout.plans.end),
        worker_reports,
        machinery_rentals: parse_machinery_rentals(rows, layout.crew.start, layout.crew.end),
        problem_feedbacks: parse_problem_feedbacks(rows, layout.issues.start, layout.issues.end),
        requirements: parse_requirements(rows, layout.issues.start, layout.issues.end),
        on_site_personnel_count,
        weather: None,
        temperature: None,
        remarks: None,
    };
    assert(report@ == report_of(sheet@, *layout));
    Some(report)
}

/// The reports of all sheets that have rows, in sheet order.
pub fn parse_workbook(sheets: &Vec<Sheet>, layout: &SheetLayout) -> (r: Vec<DailyReport>)
    ensures
        r@.map_values(|d: DailyReport| d@) == workbook_reports(
            sheets@.map_values(|s: Sheet| s@),
            *layout,
        ),
{
    let ghost views = sheets@.map_values(|s: Sheet| s@);
    let mut out: Vec<DailyReport> = Vec::new();
    let mut k: usize = 0;
    while k < sheets.len()
        invariant
            views == sheets@.map_values(|s: Sheet| s@),
            k <= sheets@.len(),
            out@.map_values(|d: DailyReport| d@) == workbook_reports(views.take(k as int), *layout),
        decreases sheets@.len() - k,
    {
        assert(views.take(k + 1).drop_last() =~= views.take(k as int));
        assert(views.take(k + 1).last() == sheets@[k as int]@);
        let ghost before = out@;
        match parse_sheet(&sheets[k], layout) {
            Some(report) => {
                out.push(report);
                assert(out@.map_values(|d: DailyReport| d@) =~= before.map_values(
                    |d: DailyReport| d@,
                ).push(report_of(sheets@[k as int]@, *layout)));
            },
            None => {},
        }
        k = k + 1;
    }
    assert(views.take(sheets@.len() as int) =~= views);
    out
}

} // verus!
