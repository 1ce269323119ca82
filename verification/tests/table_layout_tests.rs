use clin::base::Area;
use clin::table_layout::{column_widths, hit_test, visible_columns};

#[test]
fn widths_take_the_longest_text_within_bounds() {
    let headers = vec![4, 10, 40];
    let cells = vec![vec![3, 2, 5], vec![8, 1, 2]];
    assert_eq!(column_widths(&headers, Some(1), &cells), vec![8, 12, 30]);
    assert_eq!(column_widths(&headers, None, &cells), vec![8, 10, 30]);
    assert_eq!(column_widths(&vec![1], None, &vec![]), vec![6]);
}

#[test]
fn visible_columns_follow_the_cursor() {
    let w = vec![8, 12, 30];
    assert_eq!(visible_columns(&w, 0, 0, 25), (0, 2));
    assert_eq!(visible_columns(&w, 0, 2, 25), (2, 3));
    assert_eq!(visible_columns(&w, 0, 1, 25), (0, 2));
    assert_eq!(visible_columns(&w, 2, 1, 100), (1, 3));
    // a cursor past the last column counts as the last
    assert_eq!(visible_columns(&w, 0, 9, 100), (0, 3));
}

#[test]
fn table_hit_test() {
    let groups = vec![(true, 2), (false, 1)];
    let w = vec![8, 12, 30];
    let main = Area { x: 0, y: 0, width: 25, height: 10 };
    assert_eq!(hit_test(&groups, &w, 0, 0, main, 0, 3), None); // heading
    assert_eq!(hit_test(&groups, &w, 0, 0, main, 1, 3), None); // group label
    assert_eq!(hit_test(&groups, &w, 0, 0, main, 2, 3), Some((0, 1)));
    assert_eq!(hit_test(&groups, &w, 0, 0, main, 3, 24), Some((1, 1)));
    assert_eq!(hit_test(&groups, &w, 0, 0, main, 4, 0), Some((2, 1)));
    assert_eq!(hit_test(&groups, &w, 0, 0, main, 5, 3), None); // past the rows
    assert_eq!(hit_test(&groups, &w, 0, 0, main, 10, 3), None); // below the area
    let shifted = Area { x: 5, y: 0, width: 25, height: 10 };
    assert_eq!(hit_test(&groups, &w, 0, 0, shifted, 2, 2), None); // left of the table
    assert_eq!(hit_test(&vec![(false, 0)], &w, 0, 0, main, 1, 3), None); // no rows
}
