use naui_core::{ToolbarIcon, ToolbarItem};

#[test]
fn toolbar_item_defaults_to_enabled() {
    let item = ToolbarItem::new(ToolbarIcon::New, "新規");
    assert_eq!(item.label, "新規");
    assert_eq!(item.icon, ToolbarIcon::New);
    assert!(item.enabled);
    assert!(!item.is_separator());
    assert!(
        !ToolbarItem::new(ToolbarIcon::Save, "保存")
            .enabled(false)
            .enabled
    );
}

#[test]
fn toolbar_separator_is_never_pressable() {
    let item = ToolbarItem::separator();
    assert!(item.is_separator());
    assert!(!item.enabled);
    assert!(item.label.is_empty());
}

#[test]
fn every_icon_maps_to_all_backends() {
    for icon in ToolbarIcon::ALL {
        assert!(!icon.sf_symbol().is_empty(), "{icon:?} の SF Symbols");
        assert!(!icon.icon_name().is_empty(), "{icon:?} のアイコン名");
        assert!(
            icon.icon_name().ends_with("-symbolic"),
            "{icon:?} は symbolic アイコンを使う"
        );
        let glyph = icon.fluent_glyph() as u32;
        assert!(
            (0xE000..=0xF8FF).contains(&glyph),
            "{icon:?} の字面が私用領域にない"
        );
        assert!(icon.svg_path().starts_with('M'), "{icon:?} の SVG");
    }
}

#[test]
fn icons_do_not_collide() {
    for (i, a) in ToolbarIcon::ALL.iter().enumerate() {
        for b in &ToolbarIcon::ALL[i + 1..] {
            assert_ne!(a.sf_symbol(), b.sf_symbol(), "{a:?} と {b:?}");
            assert_ne!(a.icon_name(), b.icon_name(), "{a:?} と {b:?}");
            assert_ne!(a.fluent_glyph(), b.fluent_glyph(), "{a:?} と {b:?}");
            assert_ne!(a.svg_path(), b.svg_path(), "{a:?} と {b:?}");
        }
    }
}

// Cases of this library's own.

#[test]
fn every_icon_is_listed_once() {
    assert_eq!(ToolbarIcon::ALL.len(), 20);
    for (i, a) in ToolbarIcon::ALL.iter().enumerate() {
        for b in &ToolbarIcon::ALL[i + 1..] {
            assert_ne!(a, b);
        }
    }
    assert_eq!(ToolbarIcon::Save.icon_name(), "document-save-symbolic");
}
