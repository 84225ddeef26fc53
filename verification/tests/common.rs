use naui_core::{Align, Error, NavItem, Orientation, PointerPhase, Settings, Theme};

#[test]
fn app_id_is_derived_from_the_name() {
    let s = Settings::new("my app");
    assert_eq!(s.app_id, "org.naui.my_app");
    assert_eq!(
        Settings::new("x").app_id("com.example.x").app_id,
        "com.example.x"
    );
}

#[test]
fn settings_default_to_system_theme() {
    assert_eq!(Settings::new("my app").theme, Theme::System);
    assert_eq!(
        Settings::new("my app").theme(Theme::Dark).theme,
        Theme::Dark
    );
}

#[test]
fn nav_item_defaults_to_enabled() {
    let item = NavItem::new("ホーム");
    assert_eq!(item.label, "ホーム");
    assert!(item.enabled);
    assert!(!NavItem::new("設定").enabled(false).enabled);
}

#[test]
fn nav_item_list_keeps_order() {
    let items = NavItem::list(&["一覧", "詳細"]);
    assert_eq!(items[0], NavItem::from("一覧"));
    assert_eq!(items[1].label, "詳細");
}

#[test]
fn error_displays_context_and_detail() {
    let e = Error::new("ボタンの生成", "E_FAIL");
    assert_eq!(e.to_string(), "ボタンの生成 に失敗しました: E_FAIL");
}

// Cases of this library's own.

#[test]
fn app_id_replaces_every_character_outside_ascii_letters_and_digits() {
    assert_eq!(Settings::new("Café-2 go!").app_id, "org.naui.Caf__2_go_");
    assert_eq!(Settings::new("").app_id, "org.naui.");
    let s = Settings::new("名前");
    assert_eq!(s.name, "名前");
    assert_eq!(s.app_id, "org.naui.__");
}

#[test]
fn error_keeps_its_parts() {
    let e = Error::new("保存", "disk full");
    assert_eq!(e.context(), "保存");
    assert_eq!(e.detail(), "disk full");
    assert_eq!(Error::new("", "").to_string(), " に失敗しました: ");
}

#[test]
fn layout_defaults() {
    assert_eq!(Theme::default(), Theme::System);
    assert_eq!(Orientation::default(), Orientation::Vertical);
    assert!(Orientation::Vertical.is_vertical());
    assert!(!Orientation::Horizontal.is_vertical());
    assert_eq!(Align::default(), Align::Center);
    assert_ne!(PointerPhase::Down, PointerPhase::Up);
    assert_eq!(NavItem::list(&[]).len(), 0);
}

#[test]
fn nav_items_convert_from_text() {
    assert_eq!(NavItem::from("一覧"), NavItem::new("一覧"));
    assert_eq!(NavItem::from(String::from("詳細")), NavItem::new("詳細"));
}
