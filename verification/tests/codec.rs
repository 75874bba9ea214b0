use notification_agent::codec::{
    alert_document, confirmation_document, decode, decode_alert, decode_confirmation,
    decode_document, encode, encode_document, heartbeat_frame, level_name, parse_level,
    register_frame, DecodeError, EncodeError,
};
use notification_agent::messages::{Alert, AlertLevel, Confirmation, Message};
use notification_agent::time::Timestamp;

fn sample_alert() -> Alert {
    Alert {
        id: "u1".to_string(),
        title: "T".to_string(),
        message: "M".to_string(),
        level: AlertLevel::Warning,
        requires_confirmation: true,
        sound_file: None,
        timestamp: Timestamp::new(1_704_067_200, 0),
    }
}

fn sample_confirmation() -> Confirmation {
    Confirmation {
        alert_id: "u1".to_string(),
        client_id: "client-7".to_string(),
        confirmed_at: Timestamp::new(1_704_067_260, 500_000_000),
        hostname: "host".to_string(),
        username: "user".to_string(),
    }
}

const ALERT_FRAME: &str = "{\"type\":\"alert\",\"alert\":{\"id\":\"u1\",\"title\":\"T\",\"message\":\"M\",\"level\":\"warning\",\"requires_confirmation\":true,\"sound_file\":null,\"timestamp\":\"2024-01-01T00:00:00Z\"}}";

#[test]
fn decodes_an_alert_frame() {
    assert_eq!(decode(ALERT_FRAME), Ok(Message::Alert { alert: sample_alert() }));
}

#[test]
fn decodes_every_level() {
    for (name, level) in [
        ("info", AlertLevel::Info),
        ("warning", AlertLevel::Warning),
        ("critical", AlertLevel::Critical),
        ("emergency", AlertLevel::Emergency),
    ] {
        let frame = ALERT_FRAME.replace("warning", name);
        let mut expected = sample_alert();
        expected.level = level;
        assert_eq!(decode(&frame), Ok(Message::Alert { alert: expected }));
        assert_eq!(parse_level(name), Some(level));
        assert_eq!(level_name(level), name);
    }
    assert_eq!(parse_level("Warning"), None);
    assert_eq!(parse_level(""), None);
}

#[test]
fn decodes_a_named_sound_and_an_absent_one() {
    let named = ALERT_FRAME.replace("\"sound_file\":null", "\"sound_file\":\"siren.wav\"");
    let mut expected = sample_alert();
    expected.sound_file = Some("siren.wav".to_string());
    assert_eq!(decode(&named), Ok(Message::Alert { alert: expected }));

    let absent = ALERT_FRAME.replace("\"sound_file\":null,", "");
    assert_eq!(decode(&absent), Ok(Message::Alert { alert: sample_alert() }));
}

#[test]
fn decodes_the_other_messages() {
    assert_eq!(decode("{\"type\":\"heartbeat\"}"), Ok(Message::Heartbeat));
    assert_eq!(
        decode("{\"type\":\"register\",\"client_id\":\"c\",\"hostname\":\"h\"}"),
        Ok(Message::Register { client_id: "c".to_string(), hostname: "h".to_string() })
    );
    assert_eq!(
        decode(
            "{\"type\":\"confirmation\",\"confirmation\":{\"alert_id\":\"u1\",\"client_id\":\"client-7\",\"confirmed_at\":\"2024-01-01T00:01:00.500Z\",\"hostname\":\"host\",\"username\":\"user\"}}"
        ),
        Ok(Message::Confirmation { confirmation: sample_confirmation() })
    );
}

#[test]
fn ignores_members_it_does_not_know() {
    assert_eq!(decode("{\"type\":\"heartbeat\",\"seq\":4,\"extra\":[1,2]}"), Ok(Message::Heartbeat));
    let extra = ALERT_FRAME.replace("\"id\":\"u1\"", "\"id\":\"u1\",\"colour\":\"red\"");
    assert_eq!(decode(&extra), Ok(Message::Alert { alert: sample_alert() }));
}

#[test]
fn reads_an_unknown_type_as_unknown() {
    assert_eq!(decode("{\"type\":\"shutdown\"}"), Ok(Message::Unknown));
    assert_eq!(decode("{\"type\":\"\"}"), Ok(Message::Unknown));
    assert_eq!(decode("{\"type\":\"Alert\",\"alert\":5}"), Ok(Message::Unknown));
    assert_eq!(decode("{\"type\":\"unknown\"}"), Ok(Message::Unknown));
}

#[test]
fn rejects_what_is_not_json() {
    assert_eq!(decode(""), Err(DecodeError::Syntax));
    assert_eq!(decode("{\"type\":\"heartbeat\""), Err(DecodeError::Syntax));
    assert_eq!(decode("{\"type\":\"alert\",\"alert\":{\"id\":\"u1\",\"ti"), Err(DecodeError::Syntax));
    assert_eq!(decode("hello"), Err(DecodeError::Syntax));
    assert_eq!(decode("{\"type\":\"heartbeat\"} x"), Err(DecodeError::Syntax));
}

#[test]
fn rejects_a_missing_member() {
    assert_eq!(decode("{}"), Err(DecodeError::MissingField));
    assert_eq!(decode("{\"kind\":\"heartbeat\"}"), Err(DecodeError::MissingField));
    assert_eq!(decode("[]"), Err(DecodeError::MissingField));
    assert_eq!(decode("\"heartbeat\""), Err(DecodeError::MissingField));
    assert_eq!(decode("null"), Err(DecodeError::MissingField));
    assert_eq!(decode("{\"type\":\"alert\"}"), Err(DecodeError::MissingField));
    assert_eq!(decode("{\"type\":\"alert\",\"alert\":7}"), Err(DecodeError::MissingField));
    assert_eq!(decode("{\"type\":\"confirmation\"}"), Err(DecodeError::MissingField));
    assert_eq!(decode("{\"type\":\"register\",\"client_id\":\"c\"}"), Err(DecodeError::MissingField));
    assert_eq!(decode("{\"type\":\"register\",\"hostname\":\"h\"}"), Err(DecodeError::MissingField));
    for member in [
        "\"id\":\"u1\",",
        "\"title\":\"T\",",
        "\"message\":\"M\",",
        "\"level\":\"warning\",",
        "\"requires_confirmation\":true,",
        ",\"timestamp\":\"2024-01-01T00:00:00Z\"",
    ] {
        let frame = ALERT_FRAME.replace(member, "");
        assert_ne!(frame, ALERT_FRAME);
        assert_eq!(decode(&frame), Err(DecodeError::MissingField));
    }
}

#[test]
fn rejects_a_member_of_the_wrong_type() {
    assert_eq!(decode("{\"type\":5}"), Err(DecodeError::WrongType));
    assert_eq!(decode("{\"type\":null}"), Err(DecodeError::WrongType));
    assert_eq!(
        decode("{\"type\":\"register\",\"client_id\":1,\"hostname\":\"h\"}"),
        Err(DecodeError::WrongType)
    );
    for (good, bad) in [
        ("\"id\":\"u1\"", "\"id\":1"),
        ("\"title\":\"T\"", "\"title\":[\"T\"]"),
        ("\"message\":\"M\"", "\"message\":null"),
        ("\"level\":\"warning\"", "\"level\":2"),
        ("\"requires_confirmation\":true", "\"requires_confirmation\":\"true\""),
        ("\"requires_confirmation\":true", "\"requires_confirmation\":1"),
        ("\"sound_file\":null", "\"sound_file\":false"),
        ("\"timestamp\":\"2024-01-01T00:00:00Z\"", "\"timestamp\":1704067200"),
    ] {
        let frame = ALERT_FRAME.replace(good, bad);
        assert_ne!(frame, ALERT_FRAME);
        assert_eq!(decode(&frame), Err(DecodeError::WrongType));
    }
}

#[test]
fn rejects_a_value_that_means_nothing() {
    let level = ALERT_FRAME.replace("\"level\":\"warning\"", "\"level\":\"severe\"");
    assert_eq!(decode(&level), Err(DecodeError::InvalidValue));
    let upper = ALERT_FRAME.replace("\"level\":\"warning\"", "\"level\":\"WARNING\"");
    assert_eq!(decode(&upper), Err(DecodeError::InvalidValue));
    let instant = ALERT_FRAME.replace("2024-01-01T00:00:00Z", "soon");
    assert_eq!(decode(&instant), Err(DecodeError::InvalidValue));
}

#[test]
fn the_first_bad_member_decides_the_error() {
    let frame = ALERT_FRAME
        .replace("\"title\":\"T\"", "\"title\":3")
        .replace("\"level\":\"warning\"", "\"level\":\"severe\"")
        .replace(",\"timestamp\":\"2024-01-01T00:00:00Z\"", "");
    assert_eq!(decode(&frame), Err(DecodeError::WrongType));
    let frame = ALERT_FRAME
        .replace("\"level\":\"warning\"", "\"level\":\"severe\"")
        .replace(",\"timestamp\":\"2024-01-01T00:00:00Z\"", "");
    assert_eq!(decode(&frame), Err(DecodeError::InvalidValue));
}

#[test]
fn encodes_each_message() {
    assert_eq!(encode(&Message::Heartbeat), Ok("{\"type\":\"heartbeat\"}".to_string()));
    assert_eq!(encode(&Message::Unknown), Ok("{\"type\":\"unknown\"}".to_string()));
    assert_eq!(
        encode(&Message::Register { client_id: "c".to_string(), hostname: "h".to_string() }),
        Ok("{\"type\":\"register\",\"client_id\":\"c\",\"hostname\":\"h\"}".to_string())
    );
    assert_eq!(
        encode(&Message::Alert { alert: sample_alert() }),
        Ok(ALERT_FRAME.to_string())
    );
    assert_eq!(
        encode(&Message::Confirmation { confirmation: sample_confirmation() }),
        Ok(
            "{\"type\":\"confirmation\",\"confirmation\":{\"alert_id\":\"u1\",\"client_id\":\"client-7\",\"confirmed_at\":\"2024-01-01T00:01:00.500Z\",\"hostname\":\"host\",\"username\":\"user\"}}"
                .to_string()
        )
    );
}

#[test]
fn encodes_text_with_escapes() {
    let message = Message::Register {
        client_id: "a\"b\\c".to_string(),
        hostname: "line\nbreak \u{e9}".to_string(),
    };
    let frame = encode(&message).unwrap();
    assert_eq!(
        frame,
        "{\"type\":\"register\",\"client_id\":\"a\\\"b\\\\c\",\"hostname\":\"line\\nbreak \u{e9}\"}"
    );
    assert_eq!(decode(&frame), Ok(message));
}

#[test]
fn frames_for_session_use_match_encode() {
    assert_eq!(Ok(heartbeat_frame()), encode(&Message::Heartbeat));
    assert_eq!(
        Ok(register_frame("c-1", "box")),
        encode(&Message::Register { client_id: "c-1".to_string(), hostname: "box".to_string() })
    );
    assert_eq!(
        register_frame("c-1", "box"),
        "{\"type\":\"register\",\"client_id\":\"c-1\",\"hostname\":\"box\"}"
    );
}

#[test]
fn refuses_an_instant_without_text() {
    let mut alert = sample_alert();
    alert.timestamp = Timestamp::new(i64::MAX, 0);
    assert_eq!(encode(&Message::Alert { alert: alert.clone() }), Err(EncodeError::UnprintableTimestamp));
    assert_eq!(alert_document(&alert), Err(EncodeError::UnprintableTimestamp));
    let mut confirmation = sample_confirmation();
    confirmation.confirmed_at = Timestamp::new(0, 3_000_000_000);
    assert_eq!(
        encode(&Message::Confirmation { confirmation: confirmation.clone() }),
        Err(EncodeError::UnprintableTimestamp)
    );
    assert_eq!(confirmation_document(&confirmation), Err(EncodeError::UnprintableTimestamp));
}

#[test]
fn round_trips_every_variant() {
    let mut loud = sample_alert();
    loud.sound_file = Some("siren.wav".to_string());
    loud.level = AlertLevel::Emergency;
    loud.requires_confirmation = false;
    loud.timestamp = Timestamp::new(1_704_067_200, 123_456_789);
    loud.title = "<b>\"quoted\"</b> & more".to_string();
    let messages = vec![
        Message::Alert { alert: sample_alert() },
        Message::Alert { alert: loud },
        Message::Confirmation { confirmation: sample_confirmation() },
        Message::Heartbeat,
        Message::Register { client_id: "client".to_string(), hostname: "".to_string() },
        Message::Unknown,
    ];
    for message in messages {
        let frame = encode(&message).unwrap();
        assert_eq!(decode(&frame), Ok(message));
    }
}

#[test]
fn documents_and_frames_agree() {
    let message = Message::Alert { alert: sample_alert() };
    let document = encode_document(&message).unwrap();
    assert_eq!(document.to_string(), encode(&message).unwrap());
    assert_eq!(decode_document(&document), Ok(message));

    let parsed: serde_json::Value = serde_json::from_str(ALERT_FRAME).unwrap();
    assert_eq!(decode_document(&parsed), decode(ALERT_FRAME));
    assert_eq!(decode_alert(&parsed["alert"]), Ok(sample_alert()));
    assert_eq!(decode_alert(&parsed), Err(DecodeError::MissingField));

    let inner = confirmation_document(&sample_confirmation()).unwrap();
    assert_eq!(decode_confirmation(&inner), Ok(sample_confirmation()));
    assert_eq!(
        inner.to_string(),
        "{\"alert_id\":\"u1\",\"client_id\":\"client-7\",\"confirmed_at\":\"2024-01-01T00:01:00.500Z\",\"hostname\":\"host\",\"username\":\"user\"}"
    );
    let inner = alert_document(&sample_alert()).unwrap();
    assert_eq!(decode_alert(&inner), Ok(sample_alert()));
}

#[test]
fn members_keep_the_order_of_the_document() {
    let parsed: serde_json::Value =
        serde_json::from_str("{\"zeta\":1,\"type\":\"heartbeat\",\"alpha\":[true,null]}").unwrap();
    assert_eq!(parsed.to_string(), "{\"zeta\":1,\"type\":\"heartbeat\",\"alpha\":[true,null]}");
    assert_eq!(decode_document(&parsed), Ok(Message::Heartbeat));
}

#[test]
fn a_repeated_member_counts_once_with_its_last_value() {
    assert_eq!(
        decode("{\"type\":\"alert\",\"type\":\"heartbeat\"}"),
        Ok(Message::Heartbeat)
    );
    assert_eq!(
        decode("{\"type\":\"register\",\"client_id\":\"a\",\"hostname\":\"h\",\"client_id\":\"b\"}"),
        Ok(Message::Register { client_id: "b".to_string(), hostname: "h".to_string() })
    );
}
