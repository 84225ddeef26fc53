use naui_core::{
    keeps_hidden_selection, keeps_row_window, unmeasured_window, window_from_rows, RowWindow,
    ROW_WINDOW_OVERSCAN, ROW_WINDOW_THRESHOLD,
};

#[test]
fn hidden_selection_survives_adding_and_removing() {
    assert!(keeps_hidden_selection(&[1], &[1, 3]));
    assert!(keeps_hidden_selection(&[1, 3], &[1]));
    assert!(keeps_hidden_selection(&[], &[2]), "0 件から足したとき");
    assert!(keeps_hidden_selection(&[2], &[]), "全部外したとき");
    assert!(!keeps_hidden_selection(&[1, 3], &[5]));
    assert!(!keeps_hidden_selection(&[1, 3], &[3, 5]));
}

#[test]
fn empty_window_is_reported() {
    let window = RowWindow::all(0);
    assert!(window.is_empty());
    assert!(window.is_complete());
    assert_eq!(window.indices(), 0..0);
}

// Cases of this library's own: the row arithmetic behind the windows, with
// the row at the top edge and the rows the viewport holds already counted
// (a 200-pixel viewport of 20-pixel rows holds 10 rows).

#[test]
fn small_tables_are_built_whole() {
    let window = window_from_rows(ROW_WINDOW_THRESHOLD, 0, 5, 5);
    assert!(window.is_complete());
    assert_eq!(window.len(), ROW_WINDOW_THRESHOLD);
    assert_eq!(unmeasured_window(50), RowWindow::all(50));
}

#[test]
fn window_starts_before_the_top_row_and_ends_past_the_viewport() {
    let window = window_from_rows(10_000, 50, 10, 5);
    assert_eq!(window.start, 45);
    assert_eq!(window.end, 50 + 11 + 5);
    assert_eq!(window.count, 10_000);
    assert!(!window.is_complete());
    assert!(window.contains(50));
    assert!(!window.contains(44));
    assert_eq!(window.indices(), 45..66);
}

#[test]
fn window_stays_inside_the_table_at_both_ends() {
    let top = window_from_rows(10_000, 0, 10, 5);
    assert_eq!(top.start, 0);
    let bottom = window_from_rows(10_000, 10_000, 10, 5);
    assert_eq!(bottom.end, 10_000);
    assert!(bottom.start < bottom.end);
    let past = window_from_rows(10_000, 50_000, 10, 5);
    assert!(!past.is_empty());
    assert!(past.contains(9_999));
    let huge = window_from_rows(10_000, usize::MAX, usize::MAX, usize::MAX);
    assert_eq!((huge.start, huge.end), (0, 10_000));
}

#[test]
fn unmeasured_tables_start_with_the_first_rows() {
    let window = unmeasured_window(10_000);
    assert_eq!(window.start, 0);
    assert_eq!(window.end, ROW_WINDOW_THRESHOLD);
    assert_eq!(window.len(), ROW_WINDOW_THRESHOLD);
}

#[test]
fn a_window_lasts_half_its_spare_rows() {
    let current = window_from_rows(10_000, 50, 10, ROW_WINDOW_OVERSCAN);
    for rows in 0..=(ROW_WINDOW_OVERSCAN / 2) {
        let needed = window_from_rows(10_000, 50 + rows, 10, ROW_WINDOW_OVERSCAN / 2);
        let next = window_from_rows(10_000, 50 + rows, 10, ROW_WINDOW_OVERSCAN);
        assert!(keeps_row_window(current, needed, next), "{rows} rows");
    }
    let needed = window_from_rows(10_000, 70, 10, ROW_WINDOW_OVERSCAN / 2);
    let next = window_from_rows(10_000, 70, 10, ROW_WINDOW_OVERSCAN);
    assert!(!keeps_row_window(current, needed, next));
    let needed = window_from_rows(20_000, 50, 10, ROW_WINDOW_OVERSCAN / 2);
    let next = window_from_rows(20_000, 50, 10, ROW_WINDOW_OVERSCAN);
    assert!(!keeps_row_window(current, needed, next));
}

#[test]
fn an_oversized_window_is_rebuilt_once_measured() {
    let current = unmeasured_window(10_000);
    let needed = window_from_rows(10_000, 0, 10, ROW_WINDOW_OVERSCAN / 2);
    let next = window_from_rows(10_000, 0, 10, ROW_WINDOW_OVERSCAN);
    assert!(current.covers(needed));
    assert!(!keeps_row_window(current, needed, next));
}

#[test]
fn hidden_selection_with_equal_sets_is_kept() {
    assert!(keeps_hidden_selection(&[2, 4], &[2, 4]));
    assert!(keeps_hidden_selection(&[], &[]));
    assert!(!keeps_hidden_selection(&[1], &[2]));
}
