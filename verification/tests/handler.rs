use notification_agent::codec::{decode, encode};
use notification_agent::handler::{AlertHandler, Presentation, APP_ID};
use notification_agent::messages::{Alert, AlertLevel, Confirmation, Message};
use notification_agent::registry::Actor;
use notification_agent::session::{Session, SessionAction, SessionEvent};
use notification_agent::time::Timestamp;
use std::path::PathBuf;

fn handler() -> AlertHandler {
    AlertHandler::new(
        PathBuf::from("./sounds"),
        "client-1".to_string(),
        Actor { hostname: "agent-host".to_string(), username: "agent-user".to_string() },
    )
}

fn alert(id: &str, requires_confirmation: bool) -> Alert {
    Alert {
        id: id.to_string(),
        title: "T".to_string(),
        message: "M".to_string(),
        level: AlertLevel::Info,
        requires_confirmation,
        sound_file: Some("ding.wav".to_string()),
        timestamp: Timestamp::new(1_704_067_200, 0),
    }
}

#[test]
fn new_handler_has_nothing_pending() {
    let handler = handler();
    assert_eq!(handler.pending_count(), 0);
    assert_eq!(handler.get_pending_alerts(), Vec::<String>::new());
    assert_eq!(handler.notification_manager().app_id(), APP_ID);
    assert_eq!(handler.notification_manager().app_id(), "NotificationAgent");
    assert_eq!(handler.audio_player().sounds_dir(), &PathBuf::from("./sounds"));
}

#[test]
fn alert_without_confirmation_is_presented_and_not_tracked() {
    let mut handler = handler();
    let plan = handler.handle_alert(alert("a", false), Timestamp::new(10, 0));
    assert_eq!(plan.sound_file, "ding.wav");
    assert_eq!(plan.timeout_secs, None);
    assert_eq!(
        plan.toast_xml,
        handler.notification_manager().create_toast_xml(&alert("a", false))
    );
    assert_eq!(handler.pending_count(), 0);
    assert_eq!(handler.expire_alerts(Timestamp::new(1_000_000, 0)), vec![]);
    assert_eq!(handler.confirm_alert("a", Timestamp::new(11, 0)), None);
}

#[test]
fn alert_with_confirmation_is_presented_and_tracked() {
    let mut handler = handler();
    let plan = handler.handle_alert(alert("a", true), Timestamp::new(10, 0));
    assert_eq!(
        plan,
        Presentation {
            sound_file: "ding.wav".to_string(),
            toast_xml: handler.notification_manager().create_toast_xml(&alert("a", true)),
            timeout_secs: Some(300),
        }
    );
    assert_eq!(handler.pending_count(), 1);
    assert_eq!(handler.get_pending_alerts(), vec!["a".to_string()]);
}

#[test]
fn manual_confirmation_is_made_out_to_the_local_actor() {
    let mut handler = handler();
    handler.handle_alert(alert("a", true), Timestamp::new(10, 0));
    assert_eq!(
        handler.confirm_alert("a", Timestamp::new(25, 7)),
        Some(Confirmation {
            alert_id: "a".to_string(),
            client_id: "client-1".to_string(),
            confirmed_at: Timestamp::new(25, 7),
            hostname: "agent-host".to_string(),
            username: "agent-user".to_string(),
        })
    );
    assert_eq!(handler.pending_count(), 0);
    assert_eq!(handler.confirm_alert("a", Timestamp::new(26, 0)), None);
    assert_eq!(handler.expire_alerts(Timestamp::new(400, 0)), vec![]);
}

#[test]
fn unconfirmed_alert_expires_after_five_minutes() {
    let mut handler = handler();
    handler.handle_alert(alert("a", true), Timestamp::new(10, 0));
    handler.handle_alert(alert("b", true), Timestamp::new(20, 0));
    assert_eq!(handler.expire_alerts(Timestamp::new(309, 999_999_999)), vec![]);
    let expired = handler.expire_alerts(Timestamp::new(310, 0));
    assert_eq!(
        expired,
        vec![Confirmation {
            alert_id: "a".to_string(),
            client_id: "client-1".to_string(),
            confirmed_at: Timestamp::new(310, 0),
            hostname: "agent-host".to_string(),
            username: "agent-user".to_string(),
        }]
    );
    assert_eq!(handler.get_pending_alerts(), vec!["b".to_string()]);
}

#[test]
fn end_to_end_alert_then_manual_confirmation() {
    let inbound = "{\"type\":\"alert\",\"alert\":{\"id\":\"u1\",\"title\":\"T\",\"message\":\"M\",\"level\":\"warning\",\"requires_confirmation\":true,\"sound_file\":null,\"timestamp\":\"2024-01-01T00:00:00Z\"}}";
    let mut session = Session::new("client-1".to_string(), "agent-host".to_string());
    session.step(SessionEvent::Connected);
    session.step(SessionEvent::Written { now_ms: 0 });
    let mut handler = handler();

    let delivered = match session.step(SessionEvent::Text { text: inbound.to_string() }) {
        SessionAction::Deliver { alert } => alert,
        other => panic!("unexpected action {:?}", other),
    };
    let plan = handler.handle_alert(delivered.clone(), Timestamp::new(1_704_067_201, 0));
    assert_eq!(plan.sound_file, "alarm_warning.wav");
    assert_eq!(plan.toast_xml, handler.notification_manager().create_toast_xml(&delivered));
    assert!(plan.toast_xml.contains("<text>\u{26a1} T</text>"));
    assert_eq!(plan.timeout_secs, Some(300));
    assert_eq!(handler.get_pending_alerts(), vec!["u1".to_string()]);

    let confirmation = handler.confirm_alert("u1", Timestamp::new(1_704_067_230, 0)).unwrap();
    let frame = match session.step(SessionEvent::Outbound { confirmation }) {
        SessionAction::Send { frame } => frame,
        other => panic!("unexpected action {:?}", other),
    };
    assert_eq!(
        frame,
        "{\"type\":\"confirmation\",\"confirmation\":{\"alert_id\":\"u1\",\"client_id\":\"client-1\",\"confirmed_at\":\"2024-01-01T00:00:30Z\",\"hostname\":\"agent-host\",\"username\":\"agent-user\"}}"
    );
    match decode(&frame) {
        Ok(Message::Confirmation { confirmation }) => assert_eq!(confirmation.alert_id, "u1"),
        other => panic!("unexpected message {:?}", other),
    }
    assert_eq!(handler.get_pending_alerts(), Vec::<String>::new());
    assert_eq!(handler.pending_count(), 0);
}

#[test]
fn pending_alerts_survive_a_reconnect() {
    let mut handler = handler();
    handler.handle_alert(alert("a", true), Timestamp::new(10, 0));

    let mut first = Session::new("client-1".to_string(), "agent-host".to_string());
    first.step(SessionEvent::Connected);
    first.step(SessionEvent::Written { now_ms: 0 });
    first.step(SessionEvent::StreamEnded);
    let mut second = Session::new("client-1".to_string(), "agent-host".to_string());
    second.step(SessionEvent::Connected);
    second.step(SessionEvent::Written { now_ms: 5_000 });

    assert_eq!(handler.get_pending_alerts(), vec!["a".to_string()]);
    let confirmation = handler.confirm_alert("a", Timestamp::new(40, 0)).unwrap();
    assert!(matches!(
        second.step(SessionEvent::Outbound { confirmation }),
        SessionAction::Send { .. }
    ));
}

#[test]
fn encoded_alert_reaches_the_handler_unchanged() {
    let sent = alert("x", true);
    let frame = encode(&Message::Alert { alert: sent.clone() }).unwrap();
    let mut session = Session::new("c".to_string(), "h".to_string());
    session.step(SessionEvent::Connected);
    session.step(SessionEvent::Written { now_ms: 0 });
    assert_eq!(
        session.step(SessionEvent::Text { text: frame }),
        SessionAction::Deliver { alert: sent }
    );
}
