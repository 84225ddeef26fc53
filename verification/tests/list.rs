use naui_core::{ListItem, SelectionMode};

#[test]
fn list_item_defaults_to_enabled() {
    let item = ListItem::new("東京");
    assert_eq!(item.label, "東京");
    assert_eq!(item.detail, None);
    assert!(item.enabled);
    assert!(!ListItem::new("大阪").enabled(false).enabled);
    assert_eq!(ListItem::from("札幌"), ListItem::new("札幌"));
    assert_eq!(ListItem::from(String::from("那覇")).label, "那覇");
}

#[test]
fn detail_is_optional_and_keeps_the_other_fields() {
    let item = ListItem::new("東京").detail("首都").enabled(false);
    assert_eq!(item.label, "東京");
    assert_eq!(item.detail.as_deref(), Some("首都"));
    assert!(!item.enabled);
    assert!(ListItem::list(&["東京"])[0].detail.is_none());
}

#[test]
fn selection_mode_defaults_to_single() {
    assert_eq!(SelectionMode::default(), SelectionMode::Single);
    assert!(SelectionMode::Multiple.is_multiple());
    assert!(!SelectionMode::Single.is_multiple());
}

#[test]
fn normalize_sorts_and_drops_out_of_range() {
    let items = ListItem::list(&["a", "b", "c"]);
    assert_eq!(
        SelectionMode::Multiple.normalize(&items, &[2, 0, 2, 3, 100]),
        vec![0, 2]
    );
    assert_eq!(SelectionMode::Multiple.normalize(&items, &[]), Vec::<usize>::new());
}

#[test]
fn normalize_drops_disabled_rows() {
    let items = vec![
        ListItem::new("a"),
        ListItem::new("b").enabled(false),
        ListItem::new("c"),
    ];
    assert_eq!(
        SelectionMode::Multiple.normalize(&items, &[0, 1, 2]),
        vec![0, 2]
    );
    assert!(SelectionMode::Single.normalize(&items, &[1]).is_empty());
}

#[test]
fn single_keeps_only_the_first_row() {
    let items = ListItem::list(&["a", "b", "c"]);
    assert_eq!(SelectionMode::Single.normalize(&items, &[2, 1]), vec![1]);
}

// Cases of this library's own.

#[test]
fn normalizing_twice_changes_nothing() {
    let items = ListItem::list(&["a", "b", "c", "d"]);
    let once = SelectionMode::Multiple.normalize(&items, &[3, 1, 3, 9]);
    assert_eq!(once, vec![1, 3]);
    assert_eq!(SelectionMode::Multiple.normalize(&items, &once), once);
    let single = SelectionMode::Single.normalize(&items, &[3, 2]);
    assert_eq!(SelectionMode::Single.normalize(&items, &single), single);
}

#[test]
fn normalize_by_asks_the_given_rule() {
    let even = |i: usize| i % 2 == 0;
    assert_eq!(SelectionMode::Multiple.normalize_by(&[5, 4, 2, 4, 1], even), vec![2, 4]);
    assert_eq!(SelectionMode::Single.normalize_by(&[5, 4, 2], even), vec![2]);
    assert!(SelectionMode::Single.normalize_by(&[1, 3], even).is_empty());
    let mut asked = Vec::new();
    let picked = SelectionMode::Multiple.normalize_by(&[3, 1, 3], |i| {
        asked.push(i);
        true
    });
    assert_eq!(picked, vec![1, 3]);
    assert_eq!(asked, vec![3, 1, 3]);
}

#[test]
fn list_keeps_labels_in_order() {
    let items = ListItem::list(&["x", "y", "z"]);
    let labels: Vec<&str> = items.iter().map(|i| i.label.as_str()).collect();
    assert_eq!(labels, ["x", "y", "z"]);
    assert!(items.iter().all(|i| i.enabled && i.detail.is_none()));
    assert!(ListItem::list(&[]).is_empty());
}

#[test]
fn list_items_convert_from_text() {
    assert_eq!(ListItem::from("札幌"), ListItem::new("札幌"));
    assert_eq!(ListItem::from(String::from("那覇")).label, "那覇");
    let item: ListItem = "東京".into();
    assert!(item.enabled);
}
