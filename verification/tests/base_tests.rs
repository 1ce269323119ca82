use clin::base::{cards_layout, hit_test_cards, hit_test_list, lucide_to_glyph, Area,
    
    csv_export_rel_path, cycle_list_marker, default_base_file, locate_row, new_note_folder,
    next_view_index, page_step, table_tsv, total_rows, BaseCursor, ColumnDef, ListMarker, ViewType,
};

#[test]
fn default_base_has_one_table_view() {
    let base = default_base_file();
    assert!(base.filters.is_none());
    assert_eq!(base.views.len(), 1);
    assert_eq!(base.views[0].view_type, ViewType::Table);
    assert_eq!(base.views[0].name.as_deref(), Some("Table"));
}

#[test]
fn list_marker_cycles_in_list_views_only() {
    assert_eq!(cycle_list_marker(ListMarker::Bullet, Some(ViewType::List)), ListMarker::Numbered);
    assert_eq!(cycle_list_marker(ListMarker::Numbered, Some(ViewType::List)), ListMarker::Plain);
    assert_eq!(cycle_list_marker(ListMarker::Plain, Some(ViewType::List)), ListMarker::Bullet);
    assert_eq!(cycle_list_marker(ListMarker::Bullet, Some(ViewType::Table)), ListMarker::Bullet);
    assert_eq!(cycle_list_marker(ListMarker::Bullet, None), ListMarker::Bullet);
}

#[test]
fn rows_across_groups() {
    let lens = vec![2, 0, 3];
    assert_eq!(total_rows(&lens), 5);
    assert_eq!(locate_row(&lens, 0), Some((0, 0)));
    assert_eq!(locate_row(&lens, 2), Some((2, 0)));
    assert_eq!(locate_row(&lens, 4), Some((2, 2)));
    assert_eq!(locate_row(&lens, 5), None);
}

#[test]
fn cursor_moves_stay_in_range() {
    let mut c = BaseCursor::default();
    c.move_up();
    assert_eq!(c.row, 0);
    c.move_down(3);
    c.move_down(3);
    c.move_down(3);
    assert_eq!(c.row, 2);
    c.page_up(10);
    assert_eq!(c.row, 0);
    c.page_down(5, 3);
    assert_eq!(c.row, 3);
    c.page_down(5, 3);
    assert_eq!(c.row, 4);
    c.jump_to_top();
    assert_eq!(c.row, 0);
    c.jump_to_bottom(7);
    assert_eq!(c.row, 6);
    c.move_right(2);
    c.move_right(2);
    assert_eq!(c.col, 1);
    c.move_left();
    c.move_left();
    assert_eq!(c.col, 0);
    assert_eq!(page_step(true, 0, 10), 1);
    assert_eq!(page_step(true, 4, 10), 4);
    assert_eq!(page_step(false, 4, 10), 8);
    assert_eq!(page_step(false, 4, 1), 1);
}

#[test]
fn views_cycle() {
    assert_eq!(next_view_index(0, 3), 1);
    assert_eq!(next_view_index(2, 3), 0);
    assert_eq!(next_view_index(0, 1), 0);
}

#[test]
fn tables_copy_as_tab_separated_text() {
    let cols = vec![
        ColumnDef { key: "file.name".to_string(), display: "Name".to_string() },
        ColumnDef { key: "note.status".to_string(), display: "Status".to_string() },
    ];
    let rows = vec![
        vec!["a".to_string(), "done".to_string()],
        vec!["b".to_string(), String::new()],
    ];
    assert_eq!(table_tsv(&cols, &rows), "Name\tStatus\na\tdone\nb\t\n");
    assert_eq!(table_tsv(&Vec::new(), &Vec::new()), "\n");
}

#[test]
fn export_and_new_note_locations() {
    assert_eq!(csv_export_rel_path("projects/tasks.base"), "projects/tasks.csv");
    assert_eq!(csv_export_rel_path("tasks.base"), "tasks.csv");
    assert_eq!(new_note_folder("projects/tasks.base"), "projects");
    assert_eq!(new_note_folder("tasks.base"), "");
}


#[test]
fn cards_layout_paging() {
    // 80 wide / 24 tall, CARD_W=28 CARD_H=7 → cols=2, grid_rows=3, per_screen=6
    let area = Area { x: 0, y: 0, width: 80, height: 24 };
    assert_eq!(cards_layout(area, 0), (2, 3, 6, 0));
    assert_eq!(cards_layout(area, 5), (2, 3, 6, 0)); // still page 0
    assert_eq!(cards_layout(area, 6), (2, 3, 6, 6)); // page 1
    assert_eq!(cards_layout(area, 13), (2, 3, 6, 12)); // page 2
}

#[test]
fn cards_layout_tiny_terminal() {
    let area = Area { x: 0, y: 0, width: 28, height: 7 }; // exactly one tile
    assert_eq!(cards_layout(area, 0), (1, 1, 1, 0));
    assert_eq!(cards_layout(area, 5), (1, 1, 1, 5)); // per_screen=1 → first==cursor
}

#[test]
fn card_hits() {
    let area = Area { x: 2, y: 1, width: 80, height: 24 };
    assert_eq!(hit_test_cards(10, area, 0, 1, 2), Some(0));
    assert_eq!(hit_test_cards(10, area, 0, 8, 31), Some(3));
    assert_eq!(hit_test_cards(10, area, 7, 8, 31), Some(9));
    assert_eq!(hit_test_cards(8, area, 7, 8, 31), None);
    assert_eq!(hit_test_cards(10, area, 0, 23, 2), None); // past the third grid row
    assert_eq!(hit_test_cards(0, area, 0, 1, 2), None);
}

#[test]
fn list_hits_skip_separators() {
    // Group 0 has a label and two rows (one line, then three lines);
    // group 1 has no label and one row.
    let groups = vec![(true, vec![0, 2]), (false, vec![0])];
    let at = |row| hit_test_list(&groups, 3, 20, row);
    assert_eq!(at(2), None); // above the body
    assert_eq!(at(3), None); // the label line
    assert_eq!(at(4), Some(0));
    assert_eq!(at(5), Some(1));
    assert_eq!(at(7), Some(1));
    assert_eq!(at(8), Some(2));
    assert_eq!(at(9), None); // past the rows
    assert_eq!(at(20), None); // below the body
}

#[test]
fn map_pin_glyphs() {
    assert_eq!(lucide_to_glyph("Map-Pin"), Some("\u{1f4cd}"));
    assert_eq!(lucide_to_glyph("star"), Some("\u{2605}"));
    assert_eq!(lucide_to_glyph("rocket"), None);
}
