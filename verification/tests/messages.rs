use notification_agent::messages::{Alert, AlertLevel, Confirmation, Message};
use notification_agent::time::Timestamp;

fn alert(level: AlertLevel, sound_file: Option<&str>) -> Alert {
    Alert {
        id: "a-1".to_string(),
        title: "Title".to_string(),
        message: "Body".to_string(),
        level,
        requires_confirmation: false,
        sound_file: sound_file.map(|name| name.to_string()),
        timestamp: Timestamp::new(0, 0),
    }
}

#[test]
fn level_names_are_capitalised() {
    assert_eq!(AlertLevel::Info.as_str(), "Info");
    assert_eq!(AlertLevel::Warning.as_str(), "Warning");
    assert_eq!(AlertLevel::Critical.as_str(), "Critical");
    assert_eq!(AlertLevel::Emergency.as_str(), "Emergency");
}

#[test]
fn sound_defaults_follow_the_level() {
    assert_eq!(alert(AlertLevel::Emergency, None).get_sound_file(), "alarm_critical.wav");
    assert_eq!(alert(AlertLevel::Critical, None).get_sound_file(), "alarm_critical.wav");
    assert_eq!(alert(AlertLevel::Warning, None).get_sound_file(), "alarm_warning.wav");
    assert_eq!(alert(AlertLevel::Info, None).get_sound_file(), "notification.wav");
}

#[test]
fn named_sound_wins_over_the_default() {
    assert_eq!(alert(AlertLevel::Critical, Some("siren.wav")).get_sound_file(), "siren.wav");
    assert_eq!(alert(AlertLevel::Info, Some("")).get_sound_file(), "");
}

#[test]
fn clones_are_equal() {
    let first = alert(AlertLevel::Warning, Some("x.wav"));
    assert_eq!(first.clone(), first);
    let confirmation = Confirmation {
        alert_id: "a-1".to_string(),
        client_id: "c".to_string(),
        confirmed_at: Timestamp::new(5, 6),
        hostname: "h".to_string(),
        username: "u".to_string(),
    };
    assert_eq!(confirmation.clone(), confirmation);
    let message = Message::Alert { alert: first };
    assert_eq!(message.clone(), message);
    assert_eq!(Message::Heartbeat.clone(), Message::Heartbeat);
    assert_eq!(Message::Unknown.clone(), Message::Unknown);
    let register = Message::Register { client_id: "c".to_string(), hostname: "h".to_string() };
    assert_eq!(register.clone(), register);
    let confirmed = Message::Confirmation { confirmation };
    assert_eq!(confirmed.clone(), confirmed);
}
