use naui_core::{from_response_id, response_id, DialogButtons, DialogResponse};

#[test]
fn buttons_keep_labels_per_role() {
    let buttons = DialogButtons::new()
        .primary("保存")
        .secondary("保存しない")
        .cancel("キャンセル");
    assert_eq!(buttons.label(DialogResponse::Primary), Some("保存"));
    assert_eq!(buttons.label(DialogResponse::Secondary), Some("保存しない"));
    assert_eq!(buttons.label(DialogResponse::Cancel), Some("キャンセル"));
    assert!(!buttons.is_empty());
}

#[test]
fn empty_label_removes_the_button() {
    let buttons = DialogButtons::new().primary("OK").primary("");
    assert_eq!(buttons.label(DialogResponse::Primary), None);
    assert!(buttons.is_empty());
}

#[test]
fn no_button_resolves_to_a_single_ok() {
    let resolved = DialogButtons::new().resolved();
    assert_eq!(resolved.label(DialogResponse::Cancel), Some("OK"));
    assert_eq!(resolved.label(DialogResponse::Primary), None);
    assert_eq!(DialogButtons::ok(), resolved);
}

#[test]
fn resolved_keeps_the_given_buttons() {
    let buttons = DialogButtons::new().primary("削除");
    assert_eq!(buttons.resolved(), buttons);
}

#[test]
fn in_order_skips_missing_roles() {
    let buttons = DialogButtons::new().primary("保存").cancel("キャンセル");
    let order = [
        DialogResponse::Primary,
        DialogResponse::Cancel,
        DialogResponse::Secondary,
    ];
    assert_eq!(
        buttons.in_order(&order),
        [
            (DialogResponse::Primary, "保存".to_string()),
            (DialogResponse::Cancel, "キャンセル".to_string()),
        ]
    );
}

// Cases of this library's own.

#[test]
fn response_ids_round_trip() {
    for response in [
        DialogResponse::Primary,
        DialogResponse::Secondary,
        DialogResponse::Cancel,
    ] {
        assert_eq!(from_response_id(response_id(response)), response);
    }
    assert_ne!(response_id(DialogResponse::Primary), response_id(DialogResponse::Cancel));
    assert_eq!(from_response_id("close"), DialogResponse::Cancel);
}

#[test]
fn in_order_follows_the_order_given_and_repeats() {
    let buttons = DialogButtons::new().primary("A").secondary("B").cancel("C");
    assert_eq!(
        buttons.in_order(&[DialogResponse::Cancel, DialogResponse::Primary, DialogResponse::Cancel]),
        [
            (DialogResponse::Cancel, "C".to_string()),
            (DialogResponse::Primary, "A".to_string()),
            (DialogResponse::Cancel, "C".to_string()),
        ]
    );
    assert!(DialogButtons::new().in_order(&[DialogResponse::Primary]).is_empty());
}
