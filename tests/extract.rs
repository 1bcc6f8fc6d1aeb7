use daily_report::grid::{get_cell_value, RowWindow, Sheet};
use daily_report::records::{
    parse_machinery_rentals, parse_problem_feedbacks, parse_requirements, parse_task_progress,
    parse_tomorrow_plans, parse_worker_reports,
};
use daily_report::report::{
    classify_progress, parse_sheet, parse_workbook, reporter_name, Progress, SheetLayout,
    UNKNOWN_PROJECT,
};
use daily_report::scan::{is_problem_number, ordinal_rank_of, scan_numbered, scan_region, Region};

fn rows_of(rows: &[&[&str]]) -> Vec<Vec<String>> {
    rows.iter()
        .map(|r| r.iter().map(|c| c.to_string()).collect())
        .collect()
}

/// A grid of `n` empty rows.
fn blank_rows(n: usize) -> Vec<Vec<String>> {
    vec![Vec::new(); n]
}

fn set_row(rows: &mut Vec<Vec<String>>, i: usize, cells: &[&str]) {
    while rows.len() <= i {
        rows.push(Vec::new());
    }
    rows[i] = cells.iter().map(|c| c.to_string()).collect();
}

/// A sheet laid out as the standard template: title, progress line, task
/// and plan rows from row 5, then regions 二 to 五 from row 20.
fn template_sheet(name: &str) -> Sheet {
    let mut rows = blank_rows(40);
    set_row(&mut rows, 0, &["XX项目工作日报"]);
    set_row(&mut rows, 2, &["", "", "", "", "进度滞后两天"]);
    set_row(&mut rows, 5, &["序号", "任务", "计划进度", "", "实际进度"]);
    set_row(&mut rows, 6, &["2.1", "基础施工", "80%", "", "75%", "雨天", "加班"]);
    set_row(&mut rows, 7, &["2.2", "", "10%"]);
    set_row(&mut rows, 8, &["3.1", "主体施工", "完成一层", "", "李四", "吊车", "无"]);
    set_row(&mut rows, 20, &["二", "各工种工作汇报"]);
    set_row(&mut rows, 21, &["序号", "姓名", "工种", "类别", "工作内容", "", "工时"]);
    set_row(&mut rows, 22, &["1", "张三", "木工", "班组", "支模", "", "8"]);
    set_row(&mut rows, 23, &["2", " 王五 ", "钢筋工", "班组", "绑扎", "", "9"]);
    set_row(&mut rows, 24, &["3", "赵六", "电工"]);
    set_row(&mut rows, 25, &["三", "机械租赁情况"]);
    set_row(&mut rows, 26, &["序号", "机械名称", "数量", "吨位", "用途", "台班", "备注"]);
    set_row(&mut rows, 27, &["1", "汽车吊", "1", "25t", "吊装", "1", ""]);
    set_row(&mut rows, 28, &["四", "问题反馈及需求"]);
    set_row(&mut rows, 29, &["1", "问题反馈"]);
    set_row(&mut rows, 30, &["序号", "问题描述", "", "原因", "影响", "进展"]);
    set_row(&mut rows, 31, &["2", "材料未到", "", "供应商", "停工", "跟进中"]);
    set_row(&mut rows, 32, &["1.1", "图纸变更", "", "设计", "返工", "已处理"]);
    set_row(&mut rows, 33, &["2", "需求描述"]);
    set_row(&mut rows, 34, &["序号", "需求描述", "", "紧急程度", "", "期望时间"]);
    set_row(&mut rows, 35, &["1", "增派人手", "", "高", "", "明天"]);
    set_row(&mut rows, 36, &["五", "其他"]);
    set_row(&mut rows, 37, &["1", "不应出现", "", "高", "", "明天"]);
    Sheet { name: name.to_string(), rows }
}

#[test]
fn title_and_progress_scenario() {
    let mut rows = blank_rows(3);
    set_row(&mut rows, 0, &["XX项目工作日报"]);
    set_row(&mut rows, 2, &["", "", "", "", "进度正常，无延误"]);
    let sheet = Sheet { name: "2024-05-10".to_string(), rows };
    let report = parse_sheet(&sheet, &SheetLayout::standard()).unwrap();
    assert_eq!(report.report_date, "2024-05-10");
    assert_eq!(report.reporter_name, "XX");
    assert_eq!(report.overall_progress, Progress::Normal);
    assert_eq!(report.overall_progress.as_str(), "normal");
    assert_eq!(report.progress_description, "进度正常，无延误");
    assert!(report.weather.is_none());
    assert!(report.temperature.is_none());
    assert!(report.remarks.is_none());
}

#[test]
fn task_progress_scenario() {
    let mut rows = blank_rows(10);
    set_row(&mut rows, 6, &["2.1", "基础施工", "80%", "", "75%"]);
    set_row(&mut rows, 7, &["3.1", "主体施工", "完成一层"]);
    let tasks = parse_task_progress(&rows, 5, 19);
    assert_eq!(tasks.len(), 1);
    assert_eq!(tasks[0].task_no, "2.1");
    assert_eq!(tasks[0].task_name, "基础施工");
    assert_eq!(tasks[0].planned_progress, "80%");
    assert_eq!(tasks[0].actual_progress, "75%");
    assert_eq!(tasks[0].deviation_reason, "");
    assert_eq!(tasks[0].impact_measures, "");
    assert!(tasks.iter().all(|t| t.task_no != "3.1"));
}

#[test]
fn region_scan_scenario() {
    let rows = rows_of(&[
        &["二"],
        &["1", "张三", "木工"],
        &["2", "李四", "瓦工"],
        &["3", "王五", "电工"],
        &["三"],
        &["1", "挖掘机", "2"],
        &["2", "汽车吊", "1"],
        &["四"],
        &["1", "不是机械"],
    ]);
    let workers = parse_worker_reports(&rows, 0, 69);
    assert_eq!(workers.len(), 3);
    let names: Vec<&str> = workers.iter().map(|w| w.name.as_str()).collect();
    assert_eq!(names, vec!["张三", "李四", "王五"]);
    let machines = parse_machinery_rentals(&rows, 0, 69);
    let machine_names: Vec<&str> = machines.iter().map(|m| m.machine_name.as_str()).collect();
    assert_eq!(machine_names, vec!["挖掘机", "汽车吊"]);
    assert_eq!(machines[0].quantity, "2");
}

#[test]
fn problem_numbering_scenario() {
    let rows = rows_of(&[
        &["四"],
        &["2", "材料未到", "", "供应商", "停工", "跟进中"],
        &["1", "这一行不保留", "", "原因"],
    ]);
    let problems = parse_problem_feedbacks(&rows, 0, 79);
    assert_eq!(problems.len(), 1);
    assert_eq!(problems[0].problem_no, "2");
    assert_eq!(problems[0].description, "材料未到");
    assert_eq!(problems[0].reason, "供应商");
    assert_eq!(problems[0].impact, "停工");
    assert_eq!(problems[0].progress, "跟进中");
}

#[test]
fn empty_workbook_gives_no_reports() {
    let reports = parse_workbook(&Vec::new(), &SheetLayout::standard());
    assert!(reports.is_empty());
}

#[test]
fn empty_sheet_contributes_nothing() {
    let layout = SheetLayout::standard();
    let empty = Sheet { name: "2024-05-11".to_string(), rows: Vec::new() };
    assert!(parse_sheet(&empty, &layout).is_none());
    let before = parse_workbook(&vec![template_sheet("a"), template_sheet("b")], &layout);
    let after = parse_workbook(
        &vec![template_sheet("a"), empty.clone(), template_sheet("b"), empty],
        &layout,
    );
    assert_eq!(before.len(), 2);
    assert_eq!(after.len(), 2);
    assert_eq!(after[0].report_date, "a");
    assert_eq!(after[1].report_date, "b");
}

#[test]
fn personnel_count_equals_worker_records() {
    let reports = parse_workbook(&vec![template_sheet("a")], &SheetLayout::standard());
    assert_eq!(reports.len(), 1);
    assert_eq!(reports[0].worker_reports.len(), 3);
    assert_eq!(reports[0].on_site_personnel_count, 3);
}

#[test]
fn extraction_is_repeatable() {
    let layout = SheetLayout::standard();
    let sheets = vec![template_sheet("a"), template_sheet("b")];
    let first = parse_workbook(&sheets, &layout);
    let second = parse_workbook(&sheets, &layout);
    assert_eq!(format!("{:?}", first), format!("{:?}", second));
}

#[test]
fn region_ends_at_first_later_marker_after_entry() {
    let rows = rows_of(&[
        &["三", "先出现的三不结束扫描"],
        &["二"],
        &["1", "张三"],
        &["四"],
        &["2", "李四"],
        &["二"],
        &["3", "王五"],
    ]);
    let workers = parse_worker_reports(&rows, 0, 69);
    let names: Vec<&str> = workers.iter().map(|w| w.name.as_str()).collect();
    assert_eq!(names, vec!["张三"]);
    let idx = scan_region(&rows, RowWindow { start: 0, end: 69 }, Region::Workers);
    assert_eq!(idx, vec![2]);
}

#[test]
fn region_six_also_ends_workers() {
    let rows = rows_of(&[&["二"], &["1", "张三"], &["六"], &["2", "李四"]]);
    let workers = parse_worker_reports(&rows, 0, 69);
    assert_eq!(workers.len(), 1);
}

#[test]
fn plans_never_take_task_numbers() {
    let rows = rows_of(&[
        &["2.1", "基础施工"],
        &["3.1", "主体施工", "完成一层", "", "李四", "吊车", "无"],
        &["3.2", ""],
        &["32", "不是计划"],
    ]);
    let plans = parse_tomorrow_plans(&rows, 0, 19);
    assert_eq!(plans.len(), 1);
    assert_eq!(plans[0].plan_no, "3.1");
    assert_eq!(plans[0].goal, "完成一层");
    assert_eq!(plans[0].responsible_person, "李四");
    assert_eq!(plans[0].required_resources, "吊车");
    assert_eq!(plans[0].remarks, "无");
    assert!(plans.iter().all(|p| !p.plan_no.starts_with("2.")));
}

#[test]
fn template_sheet_full_report() {
    let report = parse_sheet(&template_sheet("2024-05-12"), &SheetLayout::standard()).unwrap();
    assert_eq!(report.reporter_name, "XX");
    assert_eq!(report.overall_progress, Progress::Delayed);
    assert_eq!(report.task_progress_list.len(), 1);
    assert_eq!(report.task_progress_list[0].deviation_reason, "雨天");
    assert_eq!(report.task_progress_list[0].impact_measures, "加班");
    assert_eq!(report.tomorrow_plans.len(), 1);
    let workers: Vec<&str> = report.worker_reports.iter().map(|w| w.name.as_str()).collect();
    assert_eq!(workers, vec!["张三", "王五", "赵六"]);
    assert_eq!(report.worker_reports[0].job_type, "木工");
    assert_eq!(report.worker_reports[0].worker_type, "班组");
    assert_eq!(report.worker_reports[0].work_content, "支模");
    assert_eq!(report.worker_reports[0].work_hours, "8");
    assert_eq!(report.worker_reports[2].work_hours, "");
    assert_eq!(report.machinery_rentals.len(), 1);
    assert_eq!(report.machinery_rentals[0].tonnage, "25t");
    assert_eq!(report.machinery_rentals[0].usage, "吊装");
    assert_eq!(report.machinery_rentals[0].shift, "1");
    let problems: Vec<&str> = report.problem_feedbacks.iter().map(|p| p.problem_no.as_str()).collect();
    assert_eq!(problems, vec!["2", "1.1"]);
    assert_eq!(report.requirements.len(), 1);
    assert_eq!(report.requirements[0].requirement_no, "1");
    assert_eq!(report.requirements[0].description, "增派人手");
    assert_eq!(report.requirements[0].urgency_level, "高");
    assert_eq!(report.requirements[0].expected_time, "明天");
}

#[test]
fn requirement_sub_header_is_neither_problem_nor_requirement() {
    let rows = rows_of(&[
        &["四"],
        &["3", "问题甲"],
        &["2", "需求"],
        &["3", "需求甲", "", "中", "", "下周"],
        &["2", "需求描述"],
        &["4", "需求乙"],
    ]);
    let problems = parse_problem_feedbacks(&rows, 0, 79);
    let descs: Vec<&str> = problems.iter().map(|p| p.description.as_str()).collect();
    assert_eq!(descs, vec!["问题甲"]);
    let reqs = parse_requirements(&rows, 0, 79);
    let descs: Vec<&str> = reqs.iter().map(|r| r.description.as_str()).collect();
    assert_eq!(descs, vec!["需求甲", "需求乙"]);
    assert_eq!(reqs[0].urgency_level, "中");
    assert_eq!(reqs[0].expected_time, "下周");
}

#[test]
fn requirements_need_their_sub_header() {
    let rows = rows_of(&[&["四"], &["1", "没有子标题"], &["五"], &["2", "需求描述"], &["1", "区域外"]]);
    assert!(parse_requirements(&rows, 0, 79).is_empty());
}

#[test]
fn problem_number_forms() {
    assert!(is_problem_number("2"));
    assert!(is_problem_number("12"));
    assert!(is_problem_number("1.2"));
    assert!(is_problem_number("1.15"));
    assert!(!is_problem_number("1"));
    assert!(!is_problem_number("1."));
    assert!(!is_problem_number("1.a"));
    assert!(!is_problem_number("2.1"));
    assert!(!is_problem_number("二"));
}

#[test]
fn problem_numbers_may_be_non_ascii_numerals() {
    // full-width digits are numeric characters
    assert!(is_problem_number("３"));
    let rows = rows_of(&[&["四"], &["３", "全角编号"], &["a", "字母编号"]]);
    let problems = parse_problem_feedbacks(&rows, 0, 79);
    assert_eq!(problems.len(), 1);
    assert_eq!(problems[0].problem_no, "３");
}

#[test]
fn cells_are_trimmed_and_absent_cells_empty() {
    let row: Vec<String> = vec!["  张三\t".to_string(), "\u{3000}木工\u{3000}".to_string()];
    assert_eq!(get_cell_value(&row, 0), "张三");
    assert_eq!(get_cell_value(&row, 1), "木工");
    assert_eq!(get_cell_value(&row, 2), "");
    assert_eq!(get_cell_value(&Vec::new(), 0), "");
    assert_eq!(get_cell_value(&vec!["   ".to_string()], 0), "");
}

#[test]
fn header_rows_are_skipped() {
    let rows = rows_of(&[
        &["二"],
        &["序号", "姓名"],
        &["x", "序号"],
        &["序号", "张三"],
        &["1", "李四"],
        &["2", ""],
    ]);
    let workers = parse_worker_reports(&rows, 0, 69);
    let names: Vec<&str> = workers.iter().map(|w| w.name.as_str()).collect();
    assert_eq!(names, vec!["李四"]);
    let rows = rows_of(&[&["三"], &["序号", "机械名称"], &["1", "挖掘机"]]);
    assert_eq!(parse_machinery_rentals(&rows, 0, 69).len(), 1);
}

#[test]
fn windows_are_clamped_to_the_sheet() {
    let rows = rows_of(&[&["2.1", "甲"], &["2.2", "乙"]]);
    assert_eq!(parse_task_progress(&rows, 0, 1000).len(), 2);
    assert_eq!(parse_task_progress(&rows, 1, 1).len(), 1);
    assert_eq!(parse_task_progress(&rows, 5, 19).len(), 0);
    assert_eq!(parse_task_progress(&rows, 2, 0).len(), 0);
    assert_eq!(parse_task_progress(&Vec::new(), 0, 19).len(), 0);
    assert_eq!(scan_numbered(&rows, RowWindow { start: 0, end: usize::MAX }, "2."), vec![0, 1]);
}

#[test]
fn layout_windows_are_configurable() {
    let mut rows = blank_rows(3);
    set_row(&mut rows, 1, &["2.1", "早期任务"]);
    let sheet = Sheet { name: "d".to_string(), rows };
    let standard = parse_sheet(&sheet, &SheetLayout::standard()).unwrap();
    assert!(standard.task_progress_list.is_empty());
    let early = SheetLayout {
        plans: RowWindow { start: 0, end: 2 },
        crew: RowWindow { start: 0, end: 2 },
        issues: RowWindow { start: 0, end: 2 },
    };
    let report = parse_sheet(&sheet, &early).unwrap();
    assert_eq!(report.task_progress_list.len(), 1);
}

#[test]
fn standard_layout_windows() {
    let l = SheetLayout::standard();
    assert_eq!(l.plans, RowWindow { start: 5, end: 19 });
    assert_eq!(l.crew, RowWindow { start: 19, end: 69 });
    assert_eq!(l.issues, RowWindow { start: 19, end: 79 });
}

#[test]
fn reporter_name_forms() {
    assert_eq!(reporter_name("XX项目工作日报"), "XX");
    assert_eq!(reporter_name("幸福小区日报"), "幸福小区");
    assert_eq!(reporter_name("  桥梁 项目工作日报 "), "桥梁");
    assert_eq!(reporter_name("项目工作日报"), UNKNOWN_PROJECT);
    assert_eq!(reporter_name(""), UNKNOWN_PROJECT);
    assert_eq!(reporter_name("日报日报"), UNKNOWN_PROJECT);
}

#[test]
fn untitled_sheet_gets_unknown_project() {
    let sheet = Sheet { name: "d".to_string(), rows: rows_of(&[&[]]) };
    let report = parse_sheet(&sheet, &SheetLayout::standard()).unwrap();
    assert_eq!(report.reporter_name, UNKNOWN_PROJECT);
    assert_eq!(report.progress_description, "");
    assert_eq!(report.overall_progress, Progress::Normal);
    assert_eq!(report.on_site_personnel_count, 0);
}

#[test]
fn progress_classification() {
    assert_eq!(classify_progress("进度正常"), Progress::Normal);
    assert_eq!(classify_progress("工期滞后三天"), Progress::Delayed);
    assert_eq!(classify_progress("比计划超前"), Progress::Ahead);
    assert_eq!(classify_progress("正常，但局部滞后"), Progress::Normal);
    assert_eq!(classify_progress("无说明"), Progress::Normal);
    assert_eq!(classify_progress(""), Progress::Normal);
    assert_eq!(Progress::Delayed.as_str(), "delayed");
    assert_eq!(Progress::Ahead.as_str(), "ahead");
}

#[test]
fn ordinal_ranks() {
    assert_eq!(ordinal_rank_of("一"), 1);
    assert_eq!(ordinal_rank_of("四"), 4);
    assert_eq!(ordinal_rank_of("六"), 6);
    assert_eq!(ordinal_rank_of("七"), 0);
    assert_eq!(ordinal_rank_of("二 "), 0);
}
