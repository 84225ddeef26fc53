use naui_core::{TextColor, TextStyle};
use std::collections::HashSet;

#[test]
fn all_covers_every_style_and_color() {
    assert_eq!(
        TextStyle::ALL.len(),
        TextStyle::ALL.iter().collect::<HashSet<_>>().len()
    );
    assert_eq!(
        TextColor::ALL.len(),
        TextColor::ALL.iter().collect::<HashSet<_>>().len()
    );
}

#[test]
fn styles_map_to_distinct_targets() {
    let classes: HashSet<_> = TextStyle::ALL.iter().map(|s| s.style_class()).collect();
    assert_eq!(classes.len(), TextStyle::ALL.len());
    let keys: HashSet<_> = TextStyle::ALL.iter().map(|s| s.xaml_style_key()).collect();
    assert_eq!(keys.len(), TextStyle::ALL.len());
}

#[test]
fn colors_map_to_distinct_targets() {
    let classes: HashSet<_> = TextColor::ALL.iter().map(|c| c.style_class()).collect();
    assert_eq!(classes.len(), TextColor::ALL.len());
    let keys: HashSet<_> = TextColor::ALL.iter().map(|c| c.xaml_brush_key()).collect();
    assert_eq!(keys.len(), TextColor::ALL.len());
    let colors: HashSet<_> = TextColor::ALL.iter().map(|c| c.css_color()).collect();
    assert_eq!(colors.len(), TextColor::ALL.len());
}

#[test]
fn only_the_defaults_are_unset() {
    for style in TextStyle::ALL {
        assert_eq!(
            style.style_class().is_none(),
            style == TextStyle::Body,
            "{style:?} のスタイルクラス"
        );
    }
    for color in TextColor::ALL {
        assert_eq!(
            color.style_class().is_none(),
            color == TextColor::Default,
            "{color:?} のスタイルクラス"
        );
        assert_eq!(
            color.xaml_brush_key().is_none(),
            color == TextColor::Default,
            "{color:?} のブラシ"
        );
        assert_eq!(
            color.css_color().is_none(),
            color == TextColor::Default,
            "{color:?} の CSS 色"
        );
    }
}

#[test]
fn css_font_sizes_are_relative() {
    for style in TextStyle::ALL {
        let Some(size) = style.css_font_size() else {
            continue;
        };
        assert!(size.ends_with("em"), "{style:?} の font-size: {size}");
    }
}

// Cases of this library's own.

#[test]
fn defaults_are_body_and_default_color() {
    assert_eq!(TextStyle::default(), TextStyle::Body);
    assert_eq!(TextColor::default(), TextColor::Default);
    assert_eq!(TextStyle::Body.css_font_size(), None);
    assert_eq!(TextStyle::Body.css_font_weight(), None);
}
