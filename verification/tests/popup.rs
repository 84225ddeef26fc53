use naui_core::PopupItem;

#[test]
fn popup_item_defaults_to_enabled() {
    let item = PopupItem::new("コピー");
    assert_eq!(item.label, "コピー");
    assert!(item.enabled);
    assert!(!item.is_separator());
    assert!(!PopupItem::new("削除").enabled(false).enabled);
}

#[test]
fn separator_is_never_selectable() {
    let item = PopupItem::separator();
    assert!(item.is_separator());
    assert!(!item.enabled);
    assert!(item.label.is_empty());
}

#[test]
fn popup_item_list_keeps_order() {
    let items = PopupItem::list(&["切り取り", "コピー"]);
    assert_eq!(items[0], PopupItem::from("切り取り"));
    assert_eq!(items[1].label, "コピー");
}

// Cases of this library's own.

#[test]
fn builders_keep_the_separator_mark() {
    let item = PopupItem::separator().enabled(true);
    assert!(item.is_separator());
    assert!(item.enabled);
    assert!(PopupItem::list(&[]).is_empty());
    assert_eq!(PopupItem::default(), PopupItem::new(""));
}

#[test]
fn popup_items_convert_from_text() {
    assert_eq!(PopupItem::from("切り取り"), PopupItem::new("切り取り"));
    assert_eq!(PopupItem::from(String::from("コピー")), PopupItem::new("コピー"));
}
