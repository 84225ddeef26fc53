use naui_core::{MenuItem, MenuShortcut, MenuSpec};

#[test]
fn menu_item_defaults_to_enabled() {
    let item = MenuItem::new("開く");
    assert_eq!(item.label, "開く");
    assert!(item.enabled);
    assert!(!item.is_separator());
    assert_eq!(item.shortcut, None);
    assert!(!MenuItem::new("保存").enabled(false).enabled);
}

#[test]
fn menu_separator_is_never_pressable() {
    let item = MenuItem::separator();
    assert!(item.is_separator());
    assert!(!item.enabled);
    assert!(item.label.is_empty());
    assert_eq!(item.shortcut, None);
}

#[test]
fn menu_item_list_keeps_order() {
    let items = MenuItem::list(&["元に戻す", "やり直す"]);
    assert_eq!(items[0], MenuItem::from("元に戻す"));
    assert_eq!(items[1].label, "やり直す");
}

#[test]
fn menu_spec_takes_labels_or_items() {
    let spec = MenuSpec::new("編集", MenuItem::list(&["元に戻す", "やり直す"]));
    assert_eq!(spec.len(), 2);
    assert!(!spec.is_empty());
    assert!(MenuSpec::new("空", Vec::<MenuItem>::new()).is_empty());

    let spec = MenuSpec::new("編集", vec![MenuItem::new("元に戻す"), MenuItem::separator()]);
    assert!(spec.items[1].is_separator());
}

#[test]
fn shortcut_key_is_lowercased() {
    let s = MenuShortcut::new('S');
    assert_eq!(s.key, 's');
    assert!(!s.shift);
    assert!(!s.alt);
    assert_eq!(s.key_equivalent(), "s");
}

#[test]
fn shortcut_writes_each_backend_notation() {
    let plain = MenuShortcut::new('s');
    assert_eq!(plain.accelerator(), "<Control>s");
    assert_eq!(plain.label(), "Ctrl+S");
    assert_eq!(plain.virtual_key(), 0x53);

    let full = MenuShortcut::new('z').shift(true).alt(true);
    assert_eq!(full.accelerator(), "<Control><Shift><Alt>z");
    assert_eq!(full.label(), "Ctrl+Shift+Alt+Z");
    assert_eq!(full.virtual_key(), 0x5A);
}

#[test]
fn digits_map_to_their_ascii_code() {
    assert_eq!(MenuShortcut::new('0').virtual_key(), 0x30);
    assert_eq!(MenuShortcut::new('9').virtual_key(), 0x39);
    assert!(MenuShortcut::new('7').is_valid());
}

#[test]
fn non_alphanumeric_keys_are_rejected() {
    let s = MenuShortcut::new('/');
    assert!(!s.is_valid());
    assert_eq!(s.virtual_key(), 0);
}

#[test]
fn matches_requires_the_exact_modifiers() {
    let s = MenuShortcut::new('z').shift(true);
    assert!(s.matches("Z", true, true, false));
    assert!(s.matches("z", true, true, false));
    assert!(!s.matches("z", false, true, false));
    assert!(!s.matches("z", true, false, false));
    assert!(!s.matches("z", true, true, true));
    assert!(!s.matches("y", true, true, false));
}

#[test]
fn matches_ignores_named_keys() {
    let s = MenuShortcut::new('s');
    assert!(!s.matches("Enter", true, false, false));
    assert!(!s.matches("", true, false, false));
}

// Cases of this library's own.

#[test]
fn shortcut_builders_keep_the_other_fields() {
    let item = MenuItem::new("保存").shortcut(MenuShortcut::new('s').alt(true)).enabled(false);
    assert_eq!(item.label, "保存");
    assert!(!item.enabled);
    assert_eq!(item.shortcut, Some(MenuShortcut::new('s').alt(true)));
    let s = MenuShortcut::new('K').shift(true).alt(true).shift(false);
    assert_eq!((s.key, s.shift, s.alt), ('k', false, true));
    assert_eq!(s.accelerator(), "<Control><Alt>k");
    assert_eq!(s.label(), "Ctrl+Alt+K");
}

#[test]
fn non_ascii_keys_keep_their_case_and_have_no_code() {
    let s = MenuShortcut::new('é');
    assert_eq!(s.key, 'é');
    assert!(!s.is_valid());
    assert_eq!(s.virtual_key(), 0);
    assert_eq!(s.key_equivalent(), "é");
    assert!(s.matches("é", true, false, false));
    assert!(!s.matches("É", true, false, false));
}

#[test]
fn matches_takes_one_character_only() {
    let s = MenuShortcut::new('a');
    assert!(!s.matches("ab", true, false, false));
    assert!(s.matches("A", true, false, false));
}

#[test]
fn separators_split_a_menu_into_sections() {
    let items = vec![
        MenuItem::separator(),
        MenuItem::new("開く"),
        MenuItem::new("保存"),
        MenuItem::separator(),
        MenuItem::separator(),
        MenuItem::new("終了"),
        MenuItem::separator(),
    ];
    assert_eq!(naui_core::menu_sections(&items), vec![vec![1, 2], vec![5]]);
    assert!(naui_core::menu_sections(&[]).is_empty());
    assert!(naui_core::menu_sections(&[MenuItem::separator()]).is_empty());
    assert_eq!(naui_core::menu_sections(&MenuItem::list(&["a", "b"])), vec![vec![0, 1]]);
}

#[test]
fn menu_items_convert_from_text() {
    assert_eq!(MenuItem::from("開く"), MenuItem::new("開く"));
    assert_eq!(MenuItem::from(String::from("開く")), MenuItem::new("開く"));
}
