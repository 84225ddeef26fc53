use naui_core::{days_in_month, is_leap_year, DatePickerMode, DateTime};

#[test]
fn ordering_follows_the_calendar() {
    let mut days = [
        DateTime::new(2026, 8, 22, 9, 30),
        DateTime::date(2026, 8, 22),
        DateTime::date(2025, 12, 31),
        DateTime::new(2026, 8, 22, 9, 5),
    ];
    days.sort();
    assert_eq!(
        days,
        [
            DateTime::date(2025, 12, 31),
            DateTime::date(2026, 8, 22),
            DateTime::new(2026, 8, 22, 9, 5),
            DateTime::new(2026, 8, 22, 9, 30),
        ]
    );
}

#[test]
fn leap_years_follow_the_gregorian_rule() {
    assert!(is_leap_year(2024));
    assert!(!is_leap_year(2025));
    assert!(!is_leap_year(1900));
    assert!(is_leap_year(2000));
    assert_eq!(days_in_month(2024, 2), 29);
    assert_eq!(days_in_month(2025, 2), 28);
    assert_eq!(days_in_month(2025, 4), 30);
}

#[test]
fn normalized_clamps_each_field_without_carrying() {
    assert_eq!(
        DateTime::new(2026, 13, 40, 30, 90).normalized(),
        DateTime::new(2026, 12, 31, 23, 59)
    );
    assert_eq!(
        DateTime::date(2026, 11, 31).normalized(),
        DateTime::date(2026, 11, 30)
    );
    assert_eq!(DateTime::date(0, 1, 1).normalized().year, 1);
    assert!(DateTime::new(2026, 2, 29, 0, 0).normalized().is_valid());
}

#[test]
fn parts_can_be_replaced() {
    let value = DateTime::new(2026, 8, 22, 9, 30);
    assert_eq!(value.with_time(18, 0), DateTime::new(2026, 8, 22, 18, 0));
    assert_eq!(
        value.with_date(2027, 1, 5),
        DateTime::new(2027, 1, 5, 9, 30)
    );
    assert_eq!(value.with_date(2026, 2, 31).day, 28);
}

#[test]
fn clamp_only_touches_the_part_being_edited() {
    let value = DateTime::new(2026, 7, 20, 9, 30);
    let min = DateTime::new(2026, 8, 1, 13, 0);
    assert_eq!(
        DatePickerMode::Date.clamp(value, Some(min), None),
        DateTime::new(2026, 8, 1, 9, 30)
    );
    assert_eq!(DatePickerMode::DateTime.clamp(value, Some(min), None), min);
    assert_eq!(
        DatePickerMode::Time.clamp(value, Some(DateTime::time(13, 0)), None),
        DateTime::new(2026, 7, 20, 13, 0)
    );
}

#[test]
fn clamp_keeps_values_inside_the_range() {
    let min = DateTime::date(2026, 1, 1);
    let max = DateTime::date(2026, 12, 31);
    let inside = DateTime::date(2026, 6, 15);
    assert_eq!(
        DatePickerMode::Date.clamp(inside, Some(min), Some(max)),
        inside
    );
    assert_eq!(
        DatePickerMode::Date.clamp(DateTime::date(2030, 1, 1), Some(min), Some(max)),
        max
    );
    assert_eq!(
        DatePickerMode::Date.clamp(DateTime::date(2020, 1, 1), Some(min), Some(max)),
        min
    );
    assert_eq!(
        DatePickerMode::Date.clamp(inside, Some(max), Some(min)),
        min
    );
}

#[test]
fn format_matches_the_html_input_value() {
    let value = DateTime::new(2026, 8, 22, 9, 5);
    assert_eq!(DatePickerMode::Date.format(value), "2026-08-22");
    assert_eq!(DatePickerMode::Time.format(value), "09:05");
    assert_eq!(DatePickerMode::DateTime.format(value), "2026-08-22T09:05");
}

#[test]
fn parse_keeps_the_part_that_is_not_shown() {
    let base = DateTime::new(2026, 8, 22, 9, 30);
    assert_eq!(
        DatePickerMode::Date.parse("2027-01-05", base),
        Some(DateTime::new(2027, 1, 5, 9, 30))
    );
    assert_eq!(
        DatePickerMode::Time.parse("18:45", base),
        Some(DateTime::new(2026, 8, 22, 18, 45))
    );
    assert_eq!(
        DatePickerMode::Time.parse("18:45:00", base),
        Some(DateTime::new(2026, 8, 22, 18, 45))
    );
    assert_eq!(
        DatePickerMode::DateTime.parse("2027-01-05T18:45", base),
        Some(DateTime::new(2027, 1, 5, 18, 45))
    );
}

#[test]
fn parse_rejects_other_shapes() {
    let base = DateTime::default();
    assert_eq!(DatePickerMode::Date.parse("", base), None);
    assert_eq!(DatePickerMode::Date.parse("2026-08", base), None);
    assert_eq!(DatePickerMode::Date.parse("2026-08-22-01", base), None);
    assert_eq!(DatePickerMode::Time.parse("18", base), None);
    assert_eq!(DatePickerMode::Time.parse("18:45:00:00", base), None);
    assert_eq!(DatePickerMode::DateTime.parse("2027-01-05", base), None);
}

#[test]
fn parse_and_format_round_trip() {
    let value = DateTime::new(2026, 8, 22, 9, 5);
    for mode in [
        DatePickerMode::Date,
        DatePickerMode::Time,
        DatePickerMode::DateTime,
    ] {
        let text = mode.format(value);
        assert_eq!(mode.parse(&text, value), Some(value), "{mode:?}");
    }
}

// Cases of this library's own.

#[test]
fn default_date_time_and_mode() {
    assert_eq!(DateTime::default(), DateTime::new(1970, 1, 1, 0, 0));
    assert_eq!(DateTime::time(13, 5), DateTime::new(1970, 1, 1, 13, 5));
    assert_eq!(DatePickerMode::default(), DatePickerMode::Date);
}

#[test]
fn days_in_month_covers_every_month() {
    let expected = [31, 28, 31, 30, 31, 30, 31, 31, 30, 31, 30, 31];
    for (i, days) in expected.iter().enumerate() {
        assert_eq!(days_in_month(2025, (i + 1) as u8), *days);
    }
    assert_eq!(days_in_month(2025, 0), 28);
    assert_eq!(days_in_month(2025, 13), 28);
    assert!(is_leap_year(-4));
    assert!(is_leap_year(0));
}

#[test]
fn date_time_text_and_order() {
    assert_eq!(DateTime::new(2026, 8, 22, 9, 5).to_string(), "2026-08-22 09:05");
    assert!(DateTime::date(2025, 12, 31).is_before(DateTime::date(2026, 1, 1)));
    assert!(!DateTime::date(2026, 1, 1).is_before(DateTime::date(2026, 1, 1)));
    assert!(!DateTime::date(2026, 2, 30).is_valid());
    assert!(DateTime::date(2024, 2, 29).is_valid());
}

#[test]
fn normalized_is_idempotent_and_keeps_valid_values() {
    let odd = DateTime::new(-3, 0, 0, 99, 99).normalized();
    assert_eq!(odd, DateTime::new(1, 1, 1, 23, 59));
    assert_eq!(odd.normalized(), odd);
    let valid = DateTime::new(2026, 8, 22, 9, 5);
    assert_eq!(valid.normalized(), valid);
}

#[test]
fn parse_brings_fields_into_range_and_rejects_spaces() {
    let base = DateTime::new(2026, 8, 22, 9, 30);
    assert_eq!(DatePickerMode::Date.parse("2026-13-01", base), Some(DateTime::new(2026, 12, 1, 9, 30)));
    assert_eq!(DatePickerMode::Date.parse("2026-02-30", base), Some(DateTime::new(2026, 2, 28, 9, 30)));
    assert_eq!(DatePickerMode::Time.parse("24:00", base), Some(DateTime::new(2026, 8, 22, 23, 0)));
    assert_eq!(DatePickerMode::Time.parse("12:60", base), Some(DateTime::new(2026, 8, 22, 12, 59)));
    assert_eq!(DatePickerMode::Time.parse("12:30:99", base), Some(DateTime::new(2026, 8, 22, 12, 30)));
    assert_eq!(DatePickerMode::Time.parse("12:30:0.5", base), Some(DateTime::new(2026, 8, 22, 12, 30)));
    assert_eq!(DatePickerMode::Time.parse("12:30:x", base), None);
    assert_eq!(DatePickerMode::Time.parse("256:00", base), None);
    assert_eq!(DatePickerMode::Date.parse(" 2026-08-22 ", base), None);
    assert_eq!(DatePickerMode::Date.parse("+2026-08-22", base), Some(DateTime::new(2026, 8, 22, 9, 30)));
    assert_eq!(
        DatePickerMode::DateTime.parse("2027-01-05 18:45", base),
        Some(DateTime::new(2027, 1, 5, 18, 45))
    );
}

#[test]
fn apply_keeps_the_hidden_part() {
    let base = DateTime::new(2026, 8, 22, 9, 30);
    let edited = DateTime::new(2027, 1, 5, 18, 45);
    assert_eq!(DatePickerMode::Date.apply(base, edited), DateTime::new(2027, 1, 5, 9, 30));
    assert_eq!(DatePickerMode::Time.apply(base, edited), DateTime::new(2026, 8, 22, 18, 45));
    assert_eq!(DatePickerMode::DateTime.apply(base, edited), edited);
    assert!(DatePickerMode::Date.has_date() && !DatePickerMode::Date.has_time());
    assert!(!DatePickerMode::Time.has_date() && DatePickerMode::Time.has_time());
    assert!(DatePickerMode::DateTime.has_date() && DatePickerMode::DateTime.has_time());
}

#[test]
fn format_pads_years_and_keeps_signs() {
    assert_eq!(DatePickerMode::Date.format(DateTime::date(5, 1, 2)), "0005-01-02");
    let base = DateTime::new(2026, 8, 22, 9, 30);
    assert_eq!(
        DatePickerMode::Date.parse("0005-01-02", base),
        Some(DateTime::new(5, 1, 2, 9, 30))
    );
}

#[test]
fn time_values_share_the_origin_date() {
    assert_eq!(DateTime::TIME_ORIGIN, (1970, 1, 1));
    let t = DateTime::time(9, 30);
    assert_eq!((t.year, t.month, t.day), DateTime::TIME_ORIGIN);
}
