use naui_core::{next_sort, sort_arrow, SelectionMode, SortOrder, TableRow};

#[test]
fn sort_order_defaults_to_ascending() {
    assert_eq!(SortOrder::default(), SortOrder::Ascending);
    assert!(SortOrder::Ascending.is_ascending());
    assert!(!SortOrder::Descending.is_ascending());
    assert_eq!(SortOrder::Ascending.reversed(), SortOrder::Descending);
}

#[test]
fn row_defaults_to_enabled() {
    let row = TableRow::new(&["東京", "13,960,000"]);
    assert_eq!(row.cells.len(), 2);
    assert!(row.enabled);
    assert!(!TableRow::new(&["大阪"]).enabled(false).enabled);
}

#[test]
fn cell_fills_in_the_missing_columns() {
    let row = TableRow::new(&["東京"]);
    assert_eq!(row.cell(0), "東京");
    assert_eq!(row.cell(1), "");
    assert_eq!(TableRow::default().cell(0), "");
}

#[test]
fn list_keeps_the_order() {
    let rows = TableRow::list(&[&["東京", "13,960,000"], &["大阪", "8,838,000"]]);
    assert_eq!(rows[0].cell(1), "13,960,000");
    assert_eq!(rows[1].cell(0), "大阪");
    assert!(TableRow::list(&[]).is_empty());
}

#[test]
fn selection_is_normalized_by_the_row_state() {
    let rows = vec![
        TableRow::new(&["東京"]),
        TableRow::new(&["大阪"]).enabled(false),
        TableRow::new(&["札幌"]),
    ];
    let enabled = |i: usize| rows.get(i).is_some_and(|row: &TableRow| row.enabled);
    assert_eq!(
        SelectionMode::Multiple.normalize_by(&[2, 0, 1, 9], enabled),
        vec![0, 2]
    );
    assert_eq!(
        SelectionMode::Single.normalize_by(&[2, 0], enabled),
        vec![0]
    );
}

// Cases of this library's own.

#[test]
fn header_clicks_flip_the_same_column_and_start_others_ascending() {
    assert_eq!(next_sort(None, 2), (2, SortOrder::Ascending));
    assert_eq!(next_sort(Some((2, SortOrder::Ascending)), 2), (2, SortOrder::Descending));
    assert_eq!(next_sort(Some((2, SortOrder::Descending)), 2), (2, SortOrder::Ascending));
    assert_eq!(next_sort(Some((1, SortOrder::Descending)), 2), (2, SortOrder::Ascending));
    let twice = next_sort(Some(next_sort(Some((0, SortOrder::Descending)), 0)), 0);
    assert_eq!(twice, (0, SortOrder::Descending));
}

#[test]
fn arrows_mark_the_sorted_column() {
    assert_eq!(sort_arrow(Some(SortOrder::Ascending)), " ▲");
    assert_eq!(sort_arrow(Some(SortOrder::Descending)), " ▼");
    assert_eq!(sort_arrow(None), "");
    assert_eq!(SortOrder::Descending.reversed(), SortOrder::Ascending);
}

#[test]
fn extra_cells_are_kept_and_the_default_row_is_disabled() {
    let row = TableRow::new(&["a", "b", "c"]);
    assert_eq!(row.cell(2), "c");
    assert_eq!(row.cell(3), "");
    assert!(!TableRow::default().enabled);
    assert!(TableRow::default().cells.is_empty());
}
