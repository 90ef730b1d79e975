use overlay::record::StatusRecord;
use overlay::rules::{ActivityFlags, DisplayRules};
use overlay::state::{OverlayState, Reaction, WindowRequests};

fn rec(json: &str) -> StatusRecord {
    StatusRecord::from_json(json.as_bytes()).expect("valid JSON")
}

fn nothing() -> WindowRequests {
    WindowRequests { visibility: None, interactive: None, emit: false }
}

#[test]
fn new_state_is_hidden_and_offline() {
    let s = OverlayState::new(5);
    assert!(!s.visible());
    assert!(!s.interactive());
    assert_eq!(s.status(), "Offline");
    assert_eq!(s.text(), "");
    assert_eq!(s.flags(), ActivityFlags { listening: false, speaking: false, wake_word: false });
    assert!(s.overlay_enabled());
    assert_eq!(s.last_activity_ms(), 5);
}

#[test]
fn same_record_twice_changes_once() {
    let rules = DisplayRules::standard();
    let mut s = OverlayState::new(0);
    let r = rec(r#"{"status":"Mówię","text":"Hello there, friend","is_speaking":true}"#);
    let first = s.reconcile(&r, &rules, 100);
    assert_eq!(
        first,
        Reaction::Window(WindowRequests { visibility: Some(true), interactive: None, emit: true })
    );
    assert_eq!(s.last_activity_ms(), 100);
    let second = s.reconcile(&r, &rules, 200);
    assert_eq!(second, Reaction::Window(nothing()));
    assert_eq!(s.last_activity_ms(), 100);
    assert!(s.visible());
    assert_eq!(s.text(), "Hello there, friend");
}

#[test]
fn placeholder_texts_do_not_show_the_window() {
    let rules = DisplayRules::standard();
    for text in ["", "Listening...", "Offline", "Ready"] {
        let mut s = OverlayState::new(0);
        let json = format!(
            r#"{{"status":"idle","text":"{}","is_listening":false,"is_speaking":false,"wake_word_detected":false}}"#,
            text
        );
        let r = rec(&json);
        assert!(!rules.wants_visible(&r));
        s.reconcile(&r, &rules, 10);
        assert!(!s.visible());
    }
}

#[test]
fn wake_word_alone_shows_the_window() {
    let rules = DisplayRules::standard();
    let r = rec(r#"{"text":"","is_listening":false,"is_speaking":false,"wake_word_detected":true}"#);
    assert!(rules.wants_visible(&r));
    let mut s = OverlayState::new(0);
    s.reconcile(&r, &rules, 1);
    assert!(s.visible());
    assert!(!s.interactive());
}

#[test]
fn meaningful_text_shows_the_window() {
    let rules = DisplayRules::standard();
    assert!(rules.wants_visible(&rec(r#"{"text":"It is sunny today"}"#)));
    assert!(rules.wants_visible(&rec(r#"{"message":"Timer done"}"#)));
    assert!(rules.wants_visible(&rec(r#"{"overlay_visible":true}"#)));
    assert!(rules.wants_visible(&rec(r#"{"status":"Response: ok","is_speaking":false}"#)));
    assert!(!rules.wants_visible(&rec(r#"{"text":"Connected","is_speaking":false}"#)));
}

#[test]
fn listening_makes_the_window_interactive() {
    let rules = DisplayRules::standard();
    let mut s = OverlayState::new(0);
    let r = s.reconcile(&rec(r#"{"is_listening":true}"#), &rules, 1);
    assert_eq!(
        r,
        Reaction::Window(WindowRequests { visibility: Some(true), interactive: Some(true), emit: true })
    );
    assert!(s.visible() && s.interactive());
    let r = s.reconcile(&rec(r#"{"is_listening":false}"#), &rules, 2);
    assert_eq!(
        r,
        Reaction::Window(WindowRequests { visibility: Some(false), interactive: Some(false), emit: true })
    );
    assert!(!s.visible() && !s.interactive());
}

#[test]
fn interactive_never_without_visible() {
    let rules = DisplayRules::standard();
    let mut s = OverlayState::new(0);
    let inputs = [
        r#"{"is_listening":true}"#,
        r#"{"hide_overlay":true}"#,
        r#"{"show_overlay":true}"#,
        r#"{"is_listening":true,"text":"Tell me"}"#,
        r#"{"status":"recording"}"#,
        r#"{"status":"offline"}"#,
        r#"{"is_speaking":true}"#,
        r#"{"hide_overlay":true,"is_listening":true}"#,
    ];
    let mut now: u64 = 0;
    for i in inputs {
        now += 1000;
        s.reconcile(&rec(i), &rules, now);
        assert!(!s.interactive() || s.visible());
        s.idle_check(now + 40_000, 30_000);
        assert!(!s.interactive() || s.visible());
        s.update_status(
            "x".to_string(),
            String::new(),
            ActivityFlags { listening: true, speaking: false, wake_word: false },
        );
        assert!(!s.interactive() || s.visible());
    }
}

#[test]
fn auto_hide_after_thirty_seconds_once() {
    let rules = DisplayRules::standard();
    let mut s = OverlayState::new(0);
    s.reconcile(&rec(r#"{"is_listening":true}"#), &rules, 1_000);
    s.update_status(
        "Ready".to_string(),
        String::new(),
        ActivityFlags { listening: false, speaking: false, wake_word: false },
    );
    assert!(s.visible());
    assert_eq!(s.idle_check(30_999, 30_000), nothing());
    assert!(s.visible());
    let first = s.idle_check(31_000, 30_000);
    assert_eq!(first.visibility, Some(false));
    assert!(!s.visible());
    assert!(!s.interactive());
    assert_eq!(s.idle_check(61_000, 30_000), nothing());
    assert_eq!(s.idle_check(91_000, 30_000), nothing());
}

#[test]
fn update_status_follows_listening() {
    let mut s = OverlayState::new(0);
    s.apply_override(true, 0);
    s.apply_override(true, 0);
    s.update_status(
        "x".to_string(),
        String::new(),
        ActivityFlags { listening: true, speaking: false, wake_word: false },
    );
    assert!(s.interactive());
    s.update_status(
        "x".to_string(),
        String::new(),
        ActivityFlags { listening: false, speaking: false, wake_word: false },
    );
    assert!(!s.interactive());
}

#[test]
fn pinned_window_is_not_auto_hidden() {
    let rules = DisplayRules::standard();
    let mut s = OverlayState::new(0);
    s.reconcile(&rec(r#"{"overlay_visible":true}"#), &rules, 0);
    assert!(s.visible());
    assert_eq!(s.idle_check(100_000, 30_000), nothing());
    assert!(s.visible());
}

#[test]
fn busy_window_is_not_auto_hidden() {
    let rules = DisplayRules::standard();
    let mut s = OverlayState::new(0);
    s.reconcile(&rec(r#"{"is_speaking":true}"#), &rules, 0);
    assert_eq!(s.idle_check(100_000, 30_000), nothing());
    assert!(s.visible());
}

#[test]
fn hide_override_beats_wake_word() {
    let rules = DisplayRules::standard();
    let mut s = OverlayState::new(0);
    s.reconcile(&rec(r#"{"is_listening":true}"#), &rules, 1);
    assert!(s.visible());
    let r = s.reconcile(&rec(r#"{"hide_overlay":true,"wake_word_detected":true}"#), &rules, 2);
    assert_eq!(
        r,
        Reaction::Window(WindowRequests { visibility: Some(false), interactive: Some(false), emit: true })
    );
    assert!(!s.visible());
    assert!(!s.interactive());
}

#[test]
fn show_override_shows_without_content() {
    let rules = DisplayRules::standard();
    let mut s = OverlayState::new(0);
    let r = s.reconcile(&rec(r#"{"show_overlay":true}"#), &rules, 7);
    assert_eq!(
        r,
        Reaction::Window(WindowRequests { visibility: Some(true), interactive: None, emit: true })
    );
    assert!(s.visible());
    assert_eq!(s.last_activity_ms(), 7);
    assert_eq!(s.reconcile(&rec(r#"{"show_overlay":true}"#), &rules, 9), Reaction::Window(nothing()));
    assert_eq!(s.idle_check(1_000_000, 30_000), nothing());
}

#[test]
fn actions_leave_the_state_alone() {
    let rules = DisplayRules::standard();
    let mut s = OverlayState::new(0);
    assert_eq!(
        s.reconcile(&rec(r#"{"action":"open_settings","show_overlay":true}"#), &rules, 1),
        Reaction::OpenSettings
    );
    assert_eq!(s.reconcile(&rec(r#"{"action":"quit","is_listening":true}"#), &rules, 2), Reaction::Quit);
    assert_eq!(
        s.reconcile(&rec(r#"{"action":"dance","is_listening":true}"#), &rules, 3),
        Reaction::Window(nothing())
    );
    assert!(!s.visible());
    assert_eq!(s.last_activity_ms(), 0);
}

#[test]
fn status_label_alone_derives_flags() {
    let rules = DisplayRules::standard();
    let f = |json: &str| rules.flags_of(&rec(json));
    assert_eq!(f(r#"{"status":"LISTENING"}"#), ActivityFlags { listening: true, speaking: false, wake_word: false });
    assert_eq!(f(r#"{"status":"Recording audio"}"#), ActivityFlags { listening: true, speaking: false, wake_word: false });
    assert_eq!(f(r#"{"status":"Thinking hard"}"#), ActivityFlags { listening: false, speaking: true, wake_word: false });
    assert_eq!(f(r#"{"status":"WakeWord Detected"}"#), ActivityFlags { listening: true, speaking: false, wake_word: true });
    assert_eq!(f(r#"{"status":"Error while speaking"}"#), ActivityFlags { listening: false, speaking: false, wake_word: false });
    assert_eq!(f(r#"{"status":"Offline"}"#), ActivityFlags { listening: false, speaking: false, wake_word: false });
    assert_eq!(
        f(r#"{"status":"listening","is_speaking":true}"#),
        ActivityFlags { listening: false, speaking: true, wake_word: false }
    );
    assert_eq!(f(r#"{}"#), ActivityFlags { listening: false, speaking: false, wake_word: false });
}

#[test]
fn lowered_label_flags() {
    let rules = DisplayRules::standard();
    assert_eq!(
        rules.label_flags_lowered("processing"),
        ActivityFlags { listening: false, speaking: true, wake_word: false }
    );
    assert_eq!(
        rules.label_flags_lowered("PROCESSING"),
        ActivityFlags { listening: false, speaking: false, wake_word: false }
    );
}

#[test]
fn emitted_payload_carries_the_state() {
    let rules = DisplayRules::standard();
    let mut s = OverlayState::new(0);
    s.reconcile(&rec(r#"{"status":"busy","text":"Working on it now","is_speaking":true}"#), &rules, 3);
    let u = s.status_update();
    assert_eq!(u.status, "busy");
    assert_eq!(u.text, "Working on it now");
    assert!(!u.is_listening);
    assert!(u.is_speaking);
    assert!(!u.wake_word_detected);
    let copy = s.snapshot();
    assert_eq!(copy.text(), "Working on it now");
}

#[test]
fn status_change_alone_is_not_a_change() {
    let rules = DisplayRules::standard();
    let mut s = OverlayState::new(0);
    s.reconcile(&rec(r#"{"status":"a","is_speaking":true}"#), &rules, 1);
    assert_eq!(s.reconcile(&rec(r#"{"status":"b","is_speaking":true}"#), &rules, 2), Reaction::Window(nothing()));
    assert_eq!(s.status(), "a");
}

#[test]
fn toggle_flips_the_display_setting() {
    let mut s = OverlayState::new(0);
    assert!(!s.toggle_overlay_display());
    assert!(!s.overlay_enabled());
    assert!(s.toggle_overlay_display());
}

#[test]
fn last_activity_never_goes_back() {
    let rules = DisplayRules::standard();
    let mut s = OverlayState::new(500);
    s.reconcile(&rec(r#"{"is_speaking":true}"#), &rules, 100);
    assert_eq!(s.last_activity_ms(), 500);
}

#[test]
fn overlay_visible_alone_is_not_a_change() {
    let rules = DisplayRules::standard();
    let mut s = OverlayState::new(0);
    s.reconcile(&rec(r#"{"status":"a","wake_word_detected":true}"#), &rules, 10);
    assert!(s.visible());
    let r = s.reconcile(
        &rec(r#"{"status":"b","wake_word_detected":true,"overlay_visible":true}"#),
        &rules,
        20,
    );
    assert_eq!(r, Reaction::Window(nothing()));
    assert_eq!(s.status(), "a");
    assert_eq!(s.last_activity_ms(), 10);
}

#[test]
fn record_show_override_reevaluates_interactivity() {
    let rules = DisplayRules::standard();
    let mut s = OverlayState::new(0);
    s.reconcile(&rec(r#"{"is_listening":true}"#), &rules, 1);
    s.reconcile(&rec(r#"{"hide_overlay":true}"#), &rules, 2);
    assert!(!s.visible() && !s.interactive());
    let r = s.reconcile(&rec(r#"{"show_overlay":true}"#), &rules, 3);
    assert_eq!(
        r,
        Reaction::Window(WindowRequests { visibility: Some(true), interactive: Some(true), emit: true })
    );
    assert!(s.visible() && s.interactive());
}

#[test]
fn command_show_keeps_interactivity() {
    let rules = DisplayRules::standard();
    let mut s = OverlayState::new(0);
    s.reconcile(&rec(r#"{"is_listening":true}"#), &rules, 1);
    s.apply_override(false, 2);
    let r = s.apply_override(true, 3);
    assert_eq!(r, WindowRequests { visibility: Some(true), interactive: None, emit: true });
    assert!(s.visible() && !s.interactive());
}
