use overlay::record::{JsonField, StatusRecord};
use overlay::rules::{status_of, text_of};

#[test]
fn all_members_decoded() {
    let r = StatusRecord::from_json(
        br#"{"status":"s","text":"t","message":"m","is_listening":true,"is_speaking":false,
            "wake_word_detected":true,"overlay_visible":false,"action":"a",
            "show_overlay":true,"hide_overlay":false}"#,
    )
    .unwrap();
    assert_eq!(r.status.as_deref(), Some("s"));
    assert_eq!(r.text.as_deref(), Some("t"));
    assert_eq!(r.message.as_deref(), Some("m"));
    assert_eq!(r.is_listening, Some(true));
    assert_eq!(r.is_speaking, Some(false));
    assert_eq!(r.wake_word_detected, Some(true));
    assert_eq!(r.overlay_visible, Some(false));
    assert_eq!(r.action.as_deref(), Some("a"));
    assert_eq!(r.show_overlay, Some(true));
    assert_eq!(r.hide_overlay, Some(false));
}

#[test]
fn wrong_types_count_as_missing() {
    let r = StatusRecord::from_json(br#"{"status":3,"text":null,"is_listening":"yes","extra":[1]}"#).unwrap();
    assert_eq!(r.status, None);
    assert_eq!(r.text, None);
    assert_eq!(r.is_listening, None);
    assert_eq!(status_of(&r), "Unknown");
    assert_eq!(text_of(&r), "");
}

#[test]
fn text_falls_back_to_message() {
    let r = StatusRecord::from_json(br#"{"message":"hi"}"#).unwrap();
    assert_eq!(text_of(&r), "hi");
    let r = StatusRecord::from_json(br#"{"message":"hi","text":"yo"}"#).unwrap();
    assert_eq!(text_of(&r), "yo");
}

#[test]
fn invalid_json_is_rejected() {
    assert!(StatusRecord::from_json(b"").is_none());
    assert!(StatusRecord::from_json(b"{\"status\":").is_none());
    assert!(StatusRecord::from_json(&[0xff, 0xfe]).is_none());
}

#[test]
fn non_object_has_no_members() {
    let r = StatusRecord::from_json(b"[1,2]").unwrap();
    assert_eq!(r.status, None);
    assert_eq!(r.is_speaking, None);
}

#[test]
fn members_list_lookup() {
    let ms = vec![
        ("status".to_string(), JsonField::Text("ready".to_string())),
        ("is_speaking".to_string(), JsonField::Flag(true)),
        ("text".to_string(), JsonField::Other),
    ];
    let r = StatusRecord::from_members(&ms);
    assert_eq!(r.status.as_deref(), Some("ready"));
    assert_eq!(r.is_speaking, Some(true));
    assert_eq!(r.text, None);
    assert_eq!(r.is_listening, None);
}
