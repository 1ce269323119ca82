use clin::base::ViewType;
use clin::pipeline::{group_sizes, row_order, column_defs, column_keys, count_summary, extreme_date, limit_groups, sorted_unique, summary_kind, view_extra_keys, CellKind, SummaryKind};

fn strings(v: &[&str]) -> Vec<String> {
    v.iter().map(|s| s.to_string()).collect()
}

#[test]
fn sorted_unique_sorts_and_dedups() {
    assert_eq!(sorted_unique(&strings(&["b", "a", "b", "c", "a"])), strings(&["a", "b", "c"]));
    assert_eq!(sorted_unique(&strings(&[])), Vec::<String>::new());
    assert_eq!(sorted_unique(&strings(&["status", "rating", "Status"])), strings(&["Status", "rating", "status"]));
}

#[test]
fn columns_follow_order_when_given() {
    let order = strings(&["title", "file.name"]);
    assert_eq!(column_keys(&order, &strings(&["f"]), &strings(&["x"])), order);
}

#[test]
fn default_columns_are_name_formulas_then_seen_properties() {
    let keys = column_keys(&Vec::new(), &strings(&["due", "score"]), &strings(&["tags", "author", "tags"]));
    assert_eq!(keys, strings(&["file.name", "formula.due", "formula.score", "author", "tags"]));
}

#[test]
fn column_headings_use_display_names() {
    let keys = strings(&["file.name", "status", "author"]);
    let names = vec![
        ("status".to_string(), Some("State".to_string())),
        ("author".to_string(), None),
    ];
    let defs = column_defs(&keys, &names);
    let pairs: Vec<(&str, &str)> = defs.iter().map(|c| (c.key.as_str(), c.display.as_str())).collect();
    assert_eq!(pairs, vec![("file.name", "file.name"), ("status", "State"), ("author", "author")]);
}

#[test]
fn layout_extra_keys() {
    assert_eq!(
        view_extra_keys(ViewType::MapView, &strings(&["color", "file.name"])),
        vec!["coordinates", "coords", "location", "marker_color", "marker_icon", "icon"]
    );
    assert_eq!(view_extra_keys(ViewType::Cards, &strings(&[])), vec!["color", "cover"]);
    assert_eq!(view_extra_keys(ViewType::Table, &strings(&[])), Vec::<&str>::new());
}

#[test]
fn limit_cuts_groups() {
    assert_eq!(limit_groups(&vec![3, 4, 5], Some(5)), vec![3, 2]);
    assert_eq!(limit_groups(&vec![3, 4, 5], Some(3)), vec![3]);
    assert_eq!(limit_groups(&vec![3, 4, 5], Some(0)), Vec::<usize>::new());
    assert_eq!(limit_groups(&vec![3, 4, 5], Some(100)), vec![3, 4, 5]);
    assert_eq!(limit_groups(&vec![3, 4, 5], None), vec![3, 4, 5]);
}

#[test]
fn summary_names_in_any_case() {
    assert_eq!(summary_kind("Average"), SummaryKind::Average);
    assert_eq!(summary_kind("STDDEV"), SummaryKind::StdDev);
    assert_eq!(summary_kind("checked"), SummaryKind::Checked);
    assert_eq!(summary_kind("myTotal"), SummaryKind::Custom);
}

#[test]
fn counting_summaries() {
    let cells = vec![CellKind::Null, CellKind::EmptyText, CellKind::True, CellKind::False, CellKind::Other, CellKind::True];
    assert_eq!(count_summary(SummaryKind::Checked, &cells), Some(2));
    assert_eq!(count_summary(SummaryKind::Unchecked, &cells), Some(1));
    assert_eq!(count_summary(SummaryKind::Empty, &cells), Some(2));
    assert_eq!(count_summary(SummaryKind::Filled, &cells), Some(4));
    assert_eq!(count_summary(SummaryKind::Sum, &cells), None);
    assert_eq!(count_summary(SummaryKind::Filled, &vec![]), Some(0));
}

#[test]
fn earliest_and_latest_dates() {
    let dates = vec![300i64, -5, 1200, 7];
    assert_eq!(extreme_date(&dates, false), Some(-5));
    assert_eq!(extreme_date(&dates, true), Some(1200));
    assert_eq!(extreme_date(&vec![], true), None);
}

#[test]
fn groups_are_runs_of_equal_keys() {
    assert_eq!(group_sizes(&vec![1, 1, 2, 2, 2, 3]), vec![2, 3, 1]);
    assert_eq!(group_sizes(&vec![]), Vec::<usize>::new());
    assert_eq!(group_sizes(&vec![5]), vec![1]);
    assert_eq!(group_sizes(&vec![1, 2, 1]), vec![1, 1, 1]);
    let keys = vec![7, 7, 7, 0, 0, 9];
    let sizes = group_sizes(&keys);
    assert_eq!(sizes.iter().sum::<usize>(), keys.len());
    assert!(sizes.iter().all(|&n| n >= 1));
}

#[test]
fn rows_sort_by_rank_then_path_stably() {
    let paths = strings(&["b.md", "a.md", "c.md", "a.md"]);
    assert_eq!(row_order(&vec![0, 0, 0, 0], &paths), vec![1, 3, 0, 2]);
    assert_eq!(row_order(&vec![2, 1, 1, 0], &paths), vec![3, 1, 2, 0]);
    assert_eq!(row_order(&vec![], &strings(&[])), Vec::<usize>::new());
    let paths = strings(&["Zeta", "alpha", "Ärger", "beta"]);
    let mut expected: Vec<usize> = (0..paths.len()).collect();
    expected.sort_by(|&a, &b| paths[a].cmp(&paths[b]));
    assert_eq!(row_order(&vec![0; 4], &paths), expected);
}
