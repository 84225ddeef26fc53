use naui_core::Color;

#[test]
fn hex_round_trips() {
    let color = Color::rgb(0x12, 0x34, 0x56);
    assert_eq!(color.to_hex(), "#123456");
    assert_eq!(Color::from_hex(&color.to_hex()), Some(color));
    assert_eq!(color.to_string(), "#123456");
}

#[test]
fn hex_accepts_short_form_and_missing_hash() {
    assert_eq!(Color::from_hex("#369"), Some(Color::rgb(51, 102, 153)));
    assert_eq!(Color::from_hex("369"), Some(Color::rgb(51, 102, 153)));
    assert_eq!(Color::from_hex("FFF"), Some(Color::white()));
    assert_eq!(Color::from_hex(" #000000 "), Some(Color::black()));
}

#[test]
fn hex_rejects_anything_else() {
    assert_eq!(Color::from_hex(""), None);
    assert_eq!(Color::from_hex("#12345"), None);
    assert_eq!(Color::from_hex("#gggggg"), None);
    assert_eq!(Color::from_hex("#1234567"), None);
}

#[test]
fn default_is_black() {
    assert_eq!(Color::default(), Color::black());
}

// Cases of this library's own.

#[test]
fn hex_is_lower_case_and_accepts_either_case() {
    let color = Color::rgb(0xAB, 0xCD, 0xEF);
    assert_eq!(color.to_hex(), "#abcdef");
    assert_eq!(Color::from_hex("#ABCDEF"), Some(color));
    assert_eq!(Color::from_hex("#aBcDeF"), Some(color));
    assert_eq!(Color::white().to_hex(), "#ffffff");
    assert_eq!(Color::black().to_string(), "#000000");
}

#[test]
fn hex_rejects_a_second_hash_and_inner_spaces() {
    assert_eq!(Color::from_hex("##123"), None);
    assert_eq!(Color::from_hex("#12 456"), None);
    assert_eq!(Color::from_hex("#"), None);
    assert_eq!(Color::from_hex("\t#a1b2c3\n"), Some(Color::rgb(0xa1, 0xb2, 0xc3)));
}

#[test]
fn every_color_round_trips_through_hex() {
    for v in [0u8, 1, 9, 10, 15, 16, 127, 128, 200, 255] {
        let color = Color::rgb(v, 255 - v, v / 2);
        assert_eq!(Color::from_hex(&color.to_hex()), Some(color));
    }
}
