use naui_core::{sidebar_item, sidebar_len, sidebar_rows, SidebarItem, SidebarRow, SidebarSection, ToolbarIcon};

#[test]
fn item_defaults_to_enabled_without_icon() {
    let item = SidebarItem::new("一般");
    assert_eq!(item.label, "一般");
    assert_eq!(item.icon, None);
    assert!(item.enabled);
    assert!(!SidebarItem::new("x").enabled(false).enabled);
}

#[test]
fn sections_take_labels_or_items() {
    let section = SidebarSection::new("場所", vec![SidebarItem::new("書類").icon(ToolbarIcon::Open)]);
    assert_eq!(section.items[0].icon, Some(ToolbarIcon::Open));
    let plain = SidebarSection::untitled(SidebarItem::list(&[String::from("一般").as_str()]));
    assert_eq!(plain.items[0].label, "一般");
    assert!(SidebarSection::untitled(Vec::<SidebarItem>::new()).is_empty());
}

#[test]
fn rows_number_items_across_sections() {
    let sections = [
        SidebarSection::new("A", SidebarItem::list(&["a0", "a1"])),
        SidebarSection::untitled(SidebarItem::list(&["b0"])),
        SidebarSection::new("C", Vec::<SidebarItem>::new()),
        SidebarSection::new("D", SidebarItem::list(&["d0"])),
    ];
    let rows = sidebar_rows(&sections);
    let shape: Vec<String> = rows
        .iter()
        .map(|row| match row {
            SidebarRow::Gap => "-".to_string(),
            SidebarRow::Header(title) => format!("#{title}"),
            SidebarRow::Item(index, item) => format!("{index}:{}", item.label),
        })
        .collect();
    assert_eq!(
        shape,
        ["#A", "0:a0", "1:a1", "-", "2:b0", "-", "#C", "-", "#D", "3:d0"]
    );
    assert_eq!(sidebar_len(&sections), 4);
    assert_eq!(
        sidebar_item(&sections, 3).map(|i| i.label.as_str()),
        Some("d0")
    );
    assert_eq!(sidebar_item(&sections, 4), None);
    assert_eq!(rows[1].item_index(), Some(0));
    assert_eq!(rows[0].item_index(), None);
}

#[test]
fn empty_sections_make_no_rows() {
    assert!(sidebar_rows(&[]).is_empty());
    assert_eq!(sidebar_len(&[]), 0);
}

// Cases of this library's own.

#[test]
fn an_untitled_first_section_starts_with_its_items() {
    let sections = [
        SidebarSection::untitled(SidebarItem::list(&["一般"])),
        SidebarSection::new("場所", SidebarItem::list(&["書類"])),
    ];
    let rows = sidebar_rows(&sections);
    assert!(matches!(rows[0], SidebarRow::Item(0, _)));
    assert_eq!(rows[1], SidebarRow::Gap);
    assert_eq!(rows[2], SidebarRow::Header("場所"));
    assert!(matches!(rows[3], SidebarRow::Item(1, _)));
    assert_eq!(rows.len(), 4);
    assert_eq!(rows[3].item_index(), Some(1));
    assert_eq!(sidebar_item(&sections, 0).map(|i| i.label.as_str()), Some("一般"));
}

#[test]
fn section_builders_keep_titles_and_items() {
    let section = SidebarSection::new("場所", SidebarItem::list(&["書類", "ダウンロード"]));
    assert_eq!(section.title.as_deref(), Some("場所"));
    assert_eq!(section.len(), 2);
    assert_eq!(SidebarSection::untitled(SidebarItem::list(&["一般", "外観"])).title, None);
    let item = SidebarItem::new("ゴミ箱").icon(ToolbarIcon::Delete).enabled(false);
    assert_eq!((item.label.as_str(), item.icon, item.enabled), ("ゴミ箱", Some(ToolbarIcon::Delete), false));
}

#[test]
fn sidebar_items_convert_from_text() {
    assert_eq!(SidebarItem::from("一般"), SidebarItem::new("一般"));
    assert_eq!(SidebarItem::from(String::from("一般")), SidebarItem::new("一般"));
}
