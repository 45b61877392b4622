use whatsapp_web_wrapper::notification::{
    click_script, desktop_notification, next_payload_step, on_notification_action, payload_step,
    posted_notification,
    NotificationPayload, PayloadStep, MESSAGE_HANDLER,
};
use whatsapp_web_wrapper::text::{push_decimal, same_text};
use whatsapp_web_wrapper::{mark_hidden_in_tray, TrayTracker, WindowAction};

fn payload() -> NotificationPayload {
    NotificationPayload { id: 7, title: "Alice".to_string(), body: "Hi there".to_string() }
}

#[test]
fn handler_name() {
    assert_eq!(MESSAGE_HANDLER, "notify");
}

#[test]
fn decimal_text() {
    for (n, t) in [(0u64, "0"), (7, "7"), (10, "10"), (42, "42"), (1234567890, "1234567890")] {
        let mut s = String::from("n=");
        push_decimal(&mut s, n);
        assert_eq!(s, format!("n={}", t));
    }
    let mut s = String::new();
    push_decimal(&mut s, u64::MAX);
    assert_eq!(s, "18446744073709551615");
}

#[test]
fn text_comparison() {
    assert!(same_text("default", "default"));
    assert!(!same_text("default", "Default"));
    assert!(!same_text("", "x"));
    assert!(same_text("", ""));
}

#[test]
fn click_script_text() {
    assert_eq!(
        click_script(42),
        "if (window.__triggerNotificationClick) window.__triggerNotificationClick(42);"
    );
    assert_eq!(
        click_script(0),
        "if (window.__triggerNotificationClick) window.__triggerNotificationClick(0);"
    );
}

#[test]
fn direct_payload_is_ready() {
    match next_payload_step(Some(payload()), "whatever") {
        PayloadStep::Ready(p) => assert_eq!(p, payload()),
        other => panic!("unexpected {:?}", other),
    }
}

#[test]
fn quoted_payload_is_read_again() {
    let raw = "\"{\\\"id\\\":3,\\\"title\\\":\\\"Bob\\\",\\\"body\\\":\\\"yo\\\"}\"";
    match next_payload_step(None, raw) {
        PayloadStep::Reparse(s) => assert_eq!(s, "{\"id\":3,\"title\":\"Bob\",\"body\":\"yo\"}"),
        other => panic!("unexpected {:?}", other),
    }
}

#[test]
fn garbage_is_invalid() {
    assert!(matches!(next_payload_step(None, "{\"id\": 1"), PayloadStep::Invalid));
    assert!(matches!(next_payload_step(None, "{\"id\": 1}"), PayloadStep::Invalid));
}

#[test]
fn payload_step_choices() {
    assert!(matches!(payload_step(Some(payload()), Some("x".to_string())), PayloadStep::Ready(_)));
    assert!(matches!(payload_step(None, Some("x".to_string())), PayloadStep::Reparse(ref s) if s == "x"));
    assert!(matches!(payload_step(None, None), PayloadStep::Invalid));
}

#[test]
fn desktop_notification_fields() {
    let n = desktop_notification(&payload());
    assert_eq!(n.app_name, "WhatsApp");
    assert_eq!(n.summary, "Alice");
    assert_eq!(n.body, "Hi there");
    assert_eq!(n.icon, "whatsapp-web-wrapper");
    assert_eq!(n.sound_name, "message-new-instant");
    assert_eq!(n.action_id, "default");
    assert_eq!(n.action_label, "Open");
}

#[test]
fn open_action_restores_and_clicks() {
    let mut t = TrayTracker::new();
    mark_hidden_in_tray(&mut t);
    let c = on_notification_action(&mut t, "default", 5).expect("open action");
    assert!(!t.hidden_in_tray);
    assert_eq!(c.window_actions[1], WindowAction::Show);
    assert_eq!(c.window_actions.len(), 5);
    assert_eq!(
        c.script,
        "if (window.__triggerNotificationClick) window.__triggerNotificationClick(5);"
    );
}

#[test]
fn other_action_does_nothing() {
    let mut t = TrayTracker::new();
    mark_hidden_in_tray(&mut t);
    assert!(on_notification_action(&mut t, "__closed", 5).is_none());
    assert!(t.hidden_in_tray);
}

#[test]
fn different_notifications_get_different_scripts() {
    assert_ne!(click_script(1), click_script(10));
    assert_ne!(click_script(12), click_script(21));
    assert_eq!(click_script(99), click_script(99));
}

#[test]
fn quoted_message_reads_back_its_text() {
    let message = "{\"id\":3,\"title\":\"Alice\",\"body\":\"Hello \\\"you\\\"\"}";
    let quoted = serde_json::to_string(message).unwrap();
    match next_payload_step(None, &quoted) {
        PayloadStep::Reparse(text) => assert_eq!(text, message),
        other => panic!("unexpected {:?}", other),
    }
}

#[test]
fn posted_notification_choices() {
    let other = NotificationPayload { id: 9, title: "B".to_string(), body: "c".to_string() };
    assert_eq!(posted_notification(PayloadStep::Ready(payload()), Some(other)), Some(payload()));
    let other = NotificationPayload { id: 9, title: "B".to_string(), body: "c".to_string() };
    assert_eq!(
        posted_notification(PayloadStep::Reparse("x".to_string()), Some(other)),
        Some(NotificationPayload { id: 9, title: "B".to_string(), body: "c".to_string() })
    );
    assert_eq!(posted_notification(PayloadStep::Reparse("x".to_string()), None), None);
    assert_eq!(posted_notification(PayloadStep::Invalid, Some(payload())), None);
}
