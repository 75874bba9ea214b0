use notification_agent::messages::{Alert, AlertLevel, Confirmation};
use notification_agent::registry::{Actor, ConfirmationRegistry, CONFIRMATION_TIMEOUT_SECS};
use notification_agent::time::Timestamp;

fn alert(id: &str) -> Alert {
    Alert {
        id: id.to_string(),
        title: format!("title of {}", id),
        message: "please confirm".to_string(),
        level: AlertLevel::Critical,
        requires_confirmation: true,
        sound_file: None,
        timestamp: Timestamp::new(1_704_067_200, 0),
    }
}

fn local() -> Actor {
    Actor { hostname: "agent-host".to_string(), username: "agent-user".to_string() }
}

fn operator() -> Actor {
    Actor { hostname: "desk".to_string(), username: "alice".to_string() }
}

fn registry() -> ConfirmationRegistry {
    ConfirmationRegistry::new("client-1".to_string(), local())
}

fn at(secs: i64) -> Timestamp {
    Timestamp::new(secs, 0)
}

#[test]
fn timeout_is_five_minutes() {
    assert_eq!(CONFIRMATION_TIMEOUT_SECS, 300);
}

#[test]
fn starts_empty() {
    let registry = registry();
    assert_eq!(registry.count(), 0);
    assert_eq!(registry.ids(), Vec::<String>::new());
    assert!(!registry.contains("a"));
    assert_eq!(registry.client_id(), "client-1");
    assert_eq!(registry.local(), &local());
}

#[test]
fn register_then_confirm_yields_one_confirmation() {
    let mut registry = registry();
    registry.register(alert("a"), at(1_000));
    assert_eq!(registry.count(), 1);
    assert!(registry.contains("a"));

    let confirmation = registry.confirm("a", &operator(), at(1_010));
    assert_eq!(
        confirmation,
        Some(Confirmation {
            alert_id: "a".to_string(),
            client_id: "client-1".to_string(),
            confirmed_at: at(1_010),
            hostname: "desk".to_string(),
            username: "alice".to_string(),
        })
    );
    assert_eq!(registry.count(), 0);
    assert!(!registry.contains("a"));

    assert_eq!(registry.sweep_expired(at(1_300), 300), vec![]);
    assert_eq!(registry.sweep_expired(at(1_000_000), 300), vec![]);
    assert_eq!(registry.sweep_expired(at(i64::MAX), 0), vec![]);
    assert_eq!(registry.confirm("a", &operator(), at(1_020)), None);
}

#[test]
fn confirm_of_an_unknown_alert_finds_nothing() {
    let mut registry = registry();
    assert_eq!(registry.confirm("ghost", &operator(), at(5)), None);
    registry.register(alert("a"), at(1_000));
    assert_eq!(registry.confirm("ghost", &operator(), at(5)), None);
    assert_eq!(registry.confirm("", &operator(), at(5)), None);
    assert_eq!(registry.confirm("A", &operator(), at(5)), None);
    assert_eq!(registry.count(), 1);
    assert_eq!(registry.ids(), vec!["a".to_string()]);
}

#[test]
fn unconfirmed_alert_resolves_itself_at_the_deadline() {
    let mut registry = registry();
    registry.register(alert("a"), at(1_000));

    assert_eq!(registry.sweep_expired(at(1_000), 300), vec![]);
    assert_eq!(registry.sweep_expired(Timestamp::new(1_299, 999_999_999), 300), vec![]);
    assert_eq!(registry.count(), 1);

    let swept = registry.sweep_expired(at(1_300), 300);
    assert_eq!(
        swept,
        vec![Confirmation {
            alert_id: "a".to_string(),
            client_id: "client-1".to_string(),
            confirmed_at: at(1_300),
            hostname: "agent-host".to_string(),
            username: "agent-user".to_string(),
        }]
    );
    assert_eq!(registry.count(), 0);
    assert!(!registry.contains("a"));
    assert_eq!(registry.sweep_expired(at(1_300), 300), vec![]);
}

#[test]
fn sweep_resolves_only_what_is_due_in_order_of_registration() {
    let mut registry = registry();
    registry.register(alert("first"), at(1_000));
    registry.register(alert("second"), at(1_200));
    registry.register(alert("third"), at(1_100));
    registry.register(alert("fourth"), at(1_050));
    assert_eq!(registry.count(), 4);

    let swept = registry.sweep_expired(at(1_400), 300);
    let ids: Vec<&str> = swept.iter().map(|c| c.alert_id.as_str()).collect();
    assert_eq!(ids, vec!["first", "third", "fourth"]);
    for confirmation in &swept {
        assert_eq!(confirmation.confirmed_at, at(1_400));
        assert_eq!(confirmation.client_id, "client-1");
        assert_eq!(confirmation.hostname, "agent-host");
        assert_eq!(confirmation.username, "agent-user");
    }
    assert_eq!(registry.count(), 1);
    assert_eq!(registry.ids(), vec!["second".to_string()]);

    let swept = registry.sweep_expired(at(1_500), 300);
    assert_eq!(swept.len(), 1);
    assert_eq!(swept[0].alert_id, "second");
    assert_eq!(registry.count(), 0);
}

#[test]
fn registering_again_overwrites_in_place() {
    let mut registry = registry();
    registry.register(alert("a"), at(1_000));
    registry.register(alert("b"), at(1_000));
    let mut again = alert("a");
    again.title = "second delivery".to_string();
    registry.register(again, at(1_250));
    assert_eq!(registry.count(), 2);
    assert_eq!(registry.ids(), vec!["a".to_string(), "b".to_string()]);

    let swept = registry.sweep_expired(at(1_300), 300);
    assert_eq!(swept.len(), 1);
    assert_eq!(swept[0].alert_id, "b");
    assert!(registry.contains("a"));

    let swept = registry.sweep_expired(at(1_550), 300);
    assert_eq!(swept.len(), 1);
    assert_eq!(swept[0].alert_id, "a");
    assert_eq!(registry.count(), 0);
}

#[test]
fn confirm_first_then_sweep_finds_nothing() {
    let mut registry = registry();
    registry.register(alert("a"), at(1_000));
    registry.register(alert("b"), at(1_000));
    let confirmed = registry.confirm("a", &operator(), at(1_300));
    assert!(confirmed.is_some());
    let swept = registry.sweep_expired(at(1_300), 300);
    assert_eq!(swept.len(), 1);
    assert_eq!(swept[0].alert_id, "b");
    assert!(swept.iter().all(|c| c.alert_id != "a"));
}

#[test]
fn sweep_first_then_confirm_finds_nothing() {
    let mut registry = registry();
    registry.register(alert("a"), at(1_000));
    let swept = registry.sweep_expired(at(1_300), 300);
    assert_eq!(swept.iter().filter(|c| c.alert_id == "a").count(), 1);
    assert_eq!(registry.confirm("a", &operator(), at(1_300)), None);
}

#[test]
fn confirm_removes_only_its_own_entry() {
    let mut registry = registry();
    registry.register(alert("a"), at(1));
    registry.register(alert("b"), at(2));
    registry.register(alert("c"), at(3));
    assert!(registry.confirm("b", &operator(), at(4)).is_some());
    assert_eq!(registry.ids(), vec!["a".to_string(), "c".to_string()]);
    assert!(registry.confirm("a", &operator(), at(4)).is_some());
    assert_eq!(registry.ids(), vec!["c".to_string()]);
    assert!(registry.confirm("c", &operator(), at(4)).is_some());
    assert_eq!(registry.count(), 0);
}

#[test]
fn sweep_with_extreme_values_does_not_overflow() {
    let mut registry = registry();
    registry.register(alert("a"), Timestamp::new(i64::MAX, 999_999_999));
    registry.register(alert("b"), Timestamp::new(i64::MIN, 0));
    assert_eq!(registry.sweep_expired(Timestamp::new(i64::MIN, 0), u64::MAX), vec![]);
    let swept = registry.sweep_expired(Timestamp::new(i64::MAX, 999_999_999), 0);
    assert_eq!(swept.len(), 2);
    assert_eq!(registry.count(), 0);
}
