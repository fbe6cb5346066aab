use happy_cappy::notification::{
    bound_event, check_line_length, clamp_priority, clamp_ttl, preset_for, truncate_text,
    NotificationEvent, NotifyArgs, NotifyParseError, KIND_MAX_BYTES, MAX_LINE_BYTES,
    PRIORITY_MAX, PRIORITY_MIN, TEXT_MAX_BYTES, TTL_MAX_MS, TTL_MIN_MS,
};

fn event(kind: &str) -> NotificationEvent {
    NotificationEvent {
        kind: kind.to_string(),
        animation_name: None,
        label: None,
        body: None,
        ttl_ms: None,
        priority: None,
    }
}

#[test]
fn preset_unknown_kind_uses_message_defaults() {
    assert_eq!(preset_for("totally-new"), preset_for("message"));
}

#[test]
fn preset_priority_ordering_attention_outranks_informational() {
    let (run, _) = preset_for("running");
    let (succ, _) = preset_for("succeeded");
    let (review, _) = preset_for("needs-review");
    let (fail, _) = preset_for("failed");
    assert!(run < succ && succ < review && review < fail);
}

#[test]
fn clamps_priority_and_ttl() {
    assert_eq!(clamp_priority(-5), PRIORITY_MIN);
    assert_eq!(clamp_priority(999), PRIORITY_MAX);
    assert_eq!(clamp_ttl(0), TTL_MIN_MS);
    assert_eq!(clamp_ttl(u64::MAX), TTL_MAX_MS);
}

#[test]
fn rejects_empty_kind() {
    assert!(matches!(bound_event(event("")), Err(NotifyParseError::MissingKind)));
}

#[test]
fn rejects_oversized_line() {
    let big = format!(r#"{{ "kind": "running", "body": "{}" }}"#, "x".repeat(MAX_LINE_BYTES));
    assert!(matches!(check_line_length(&big), Err(NotifyParseError::TooLong)));
}

#[test]
fn rejects_overlong_kind_identifier() {
    let k = "k".repeat(KIND_MAX_BYTES + 1);
    assert!(matches!(bound_event(event(&k)), Err(NotifyParseError::FieldTooLong("kind"))));
}

#[test]
fn truncates_body_at_utf8_char_boundary_without_panic() {
    let body = "é".repeat(TEXT_MAX_BYTES);
    let mut ev = event("message");
    ev.body = Some(body);
    let ev = bound_event(ev).unwrap();
    let out = ev.body.unwrap();
    assert!(out.len() <= TEXT_MAX_BYTES);
    assert!(out.is_char_boundary(out.len()));
    assert_eq!(out.len(), TEXT_MAX_BYTES);
}

#[test]
fn line_of_exactly_the_cap_is_accepted() {
    assert!(check_line_length(&"x".repeat(MAX_LINE_BYTES)).is_ok());
    assert!(check_line_length(&"x".repeat(MAX_LINE_BYTES + 1)).is_err());
}

#[test]
fn overlong_animation_name_is_refused_and_ok_event_keeps_fields() {
    let mut ev = event("failed");
    ev.animation_name = Some("a".repeat(65));
    assert!(matches!(bound_event(ev), Err(NotifyParseError::FieldTooLong("animation_name"))));

    let mut ev = event("failed");
    ev.animation_name = Some("notify-failed".to_string());
    ev.label = Some("L".to_string());
    ev.ttl_ms = Some(5000);
    ev.priority = Some(70);
    let out = bound_event(ev.clone()).unwrap();
    assert_eq!(out, ev);
}

#[test]
fn truncate_text_cuts_inside_a_multibyte_char_to_its_start() {
    assert_eq!(truncate_text("héllo", 2), "h");
    assert_eq!(truncate_text("héllo", 3), "hé");
    assert_eq!(truncate_text("abc", 10), "abc");
}

#[test]
fn notify_args_convert_ttl_seconds_to_ms() {
    let args = NotifyArgs {
        kind: "running".to_string(),
        animation: None,
        label: None,
        body: None,
        ttl: Some(30),
        priority: Some(5),
    };
    let ev = args.to_event();
    assert_eq!(ev.kind, "running");
    assert_eq!(ev.ttl_ms, Some(30_000));
    assert_eq!(ev.priority, Some(5));
    let huge = NotifyArgs { ttl: Some(u64::MAX), ..args };
    assert_eq!(huge.to_event().ttl_ms, Some(u64::MAX));
}

#[test]
fn parse_errors_describe_themselves() {
    assert_eq!(NotifyParseError::TooLong.describe(), "event line exceeds 65536 bytes");
    assert_eq!(NotifyParseError::MissingKind.describe(), "event is missing a non-empty 'kind'");
    assert_eq!(
        NotifyParseError::FieldTooLong("kind").describe(),
        "field 'kind' exceeds its length cap"
    );
    let err = serde_json::from_str::<serde_json::Value>("not json").unwrap_err();
    assert!(NotifyParseError::Json(err).describe().starts_with("invalid event JSON: "));
}
