//! The wire form of messages: one JSON object per frame, told apart by its
//! `type` member.
//!
//! | `type`         | other members                                  |
//! |----------------|------------------------------------------------|
//! | `register`     | `client_id`, `hostname`                        |
//! | `alert`        | `alert`: the alert as an object                |
//! | `confirmation` | `confirmation`: the confirmation as an object  |
//! | `heartbeat`    | none                                           |
//!
//! Any other `type` is read as [`Message::Unknown`]. Members that the shape
//! does not name are ignored.

use crate::json::{
    empty_object, flag_of, flag_value, is_null, json_parse, json_text, json_tree,
    lemma_members_with, member, null_value, parse_document, print_document, text_of, text_value,
    with_member, JsonTree,
};
use crate::messages::{
    Alert, AlertLevel, AlertView, Confirmation, ConfirmationView, Message, MessageView,
};
use crate::text::same_text;
use crate::time::Timestamp;
use vstd::prelude::*;

verus! {

/// Why a frame could not be read.
#[derive(Debug, Clone, Copy, PartialEq, Eq, Structural)]
pub enum DecodeError {
    /// The text is not JSON.
    Syntax,
    /// A member that the shape requires is absent, or the value that should
    /// hold it is no object.
    MissingField,
    /// A member holds a value of the wrong JSON type.
    WrongType,
    /// A member holds a string that is no level name or no RFC 3339 instant.
    InvalidValue,
}

/// Why a message could not be written.
#[derive(Debug, Clone, Copy, PartialEq, Eq, Structural)]
pub enum EncodeError {
    /// The message carries an instant that has no RFC 3339 text.
    UnprintableTimestamp,
}

/// The name of a level on the wire.
pub open spec fn level_tag(level: AlertLevel) -> Seq<char> {
    match level {
        AlertLevel::Info => "info"@,
        AlertLevel::Warning => "warning"@,
        AlertLevel::Critical => "critical"@,
        AlertLevel::Emergency => "emergency"@,
    }
}

/// The level that a wire name stands for.
pub open spec fn level_of_tag(tag: Seq<char>) -> Option<AlertLevel> {
    if tag == "info"@ {
        Some(AlertLevel::Info)
    } else if tag == "warning"@ {
        Some(AlertLevel::Warning)
    } else if tag == "critical"@ {
        Some(AlertLevel::Critical)
    } else if tag == "emergency"@ {
        Some(AlertLevel::Emergency)
    } else {
        None
    }
}

/// The string member `key` of `object`.
pub open spec fn required_text(object: JsonTree, key: Seq<char>) -> Result<
    Seq<char>,
    DecodeError,
> {
    match object.member(key) {
        None => Err(DecodeError::MissingField),
        Some(JsonTree::Text(text)) => Ok(text),
        Some(_) => Err(DecodeError::WrongType),
    }
}

/// The boolean member `key` of `object`.
pub open spec fn required_flag(object: JsonTree, key: Seq<char>) -> Result<bool, DecodeError> {
    match object.member(key) {
        None => Err(DecodeError::MissingField),
        Some(JsonTree::Bool(flag)) => Ok(flag),
        Some(_) => Err(DecodeError::WrongType),
    }
}

/// The string member `key` of `object`, where an absent member and `null`
/// both stand for "none".
pub open spec fn optional_text(object: JsonTree, key: Seq<char>) -> Result<
    Option<Seq<char>>,
    DecodeError,
> {
    match object.member(key) {
        None => Ok(None),
        Some(JsonTree::Null) => Ok(None),
        Some(JsonTree::Text(text)) => Ok(Some(text)),
        Some(_) => Err(DecodeError::WrongType),
    }
}

/// The member `key` of `object` as a level.
pub open spec fn required_level(object: JsonTree, key: Seq<char>) -> Result<
    AlertLevel,
    DecodeError,
> {
    match required_text(object, key) {
        Err(e) => Err(e),
        Ok(tag) => match level_of_tag(tag) {
            Some(level) => Ok(level),
            None => Err(DecodeError::InvalidValue),
        },
    }
}

/// The member `key` of `object` as an instant.
pub open spec fn required_instant(object: JsonTree, key: Seq<char>) -> Result<
    Timestamp,
    DecodeError,
> {
    match required_text(object, key) {
        Err(e) => Err(e),
        Ok(text) => match Timestamp::from_wire_text(text) {
            Some(instant) => Ok(instant),
            None => Err(DecodeError::InvalidValue),
        },
    }
}

/// The alert that a tree holds. Members are read in the order `id`, `title`,
/// `message`, `level`, `requires_confirmation`, `sound_file`, `timestamp`, and
/// the first that fails decides the error.
pub open spec fn alert_of_tree(tree: JsonTree) -> Result<AlertView, DecodeError> {
    match required_text(tree, "id"@) {
        Err(e) => Err(e),
        Ok(id) => match required_text(tree, "title"@) {
            Err(e) => Err(e),
            Ok(title) => match required_text(tree, "message"@) {
                Err(e) => Err(e),
                Ok(message) => match required_level(tree, "level"@) {
                    Err(e) => Err(e),
                    Ok(level) => match required_flag(tree, "requires_confirmation"@) {
                        Err(e) => Err(e),
                        Ok(requires_confirmation) => match optional_text(tree, "sound_file"@) {
                            Err(e) => Err(e),
                            Ok(sound_file) => match required_instant(tree, "timestamp"@) {
                                Err(e) => Err(e),
                                Ok(timestamp) => Ok(
                                    AlertView {
                                        id,
                                        title,
                                        message,
                                        level,
                                        requires_confirmation,
                                        sound_file,
                                        timestamp,
                                    },
                                ),
                            },
                        },
                    },
                },
            },
        },
    }
}

/// The confirmation that a tree holds. Members are read in the order
/// `alert_id`, `client_id`, `confirmed_at`, `hostname`, `username`.
pub open spec fn confirmation_of_tree(tree: JsonTree) -> Result<ConfirmationView, DecodeError> {
    match required_text(tree, "alert_id"@) {
        Err(e) => Err(e),
        Ok(alert_id) => match required_text(tree, "client_id"@) {
            Err(e) => Err(e),
            Ok(client_id) => match required_instant(tree, "confirmed_at"@) {
                Err(e) => Err(e),
                Ok(confirmed_at) => match required_text(tree, "hostname"@) {
                    Err(e) => Err(e),
                    Ok(hostname) => match required_text(tree, "username"@) {
                        Err(e) => Err(e),
                        Ok(username) => Ok(
                            ConfirmationView {
                                alert_id,
                                client_id,
                                confirmed_at,
                                hostname,
                                username,
                            },
                        ),
                    },
                },
            },
        },
    }
}

/// The message that a document holds.
pub open spec fn message_of_tree(tree: JsonTree) -> Result<MessageView, DecodeError> {
    match required_text(tree, "type"@) {
        Err(e) => Err(e),
        Ok(tag) => if tag == "alert"@ {
            match tree.member("alert"@) {
                None => Err(DecodeError::MissingField),
                Some(inner) => match alert_of_tree(inner) {
                    Err(e) => Err(e),
                    Ok(alert) => Ok(MessageView::Alert { alert }),
                },
            }
        } else if tag == "confirmation"@ {
            match tree.member("confirmation"@) {
                None => Err(DecodeError::MissingField),
                Some(inner) => match confirmation_of_tree(inner) {
                    Err(e) => Err(e),
                    Ok(confirmation) => Ok(MessageView::Confirmation { confirmation }),
                },
            }
        } else if tag == "heartbeat"@ {
            Ok(MessageView::Heartbeat)
        } else if tag == "register"@ {
            match required_text(tree, "client_id"@) {
                Err(e) => Err(e),
                Ok(client_id) => match required_text(tree, "hostname"@) {
                    Err(e) => Err(e),
                    Ok(hostname) => Ok(MessageView::Register { client_id, hostname }),
                },
            }
        } else {
            Ok(MessageView::Unknown)
        },
    }
}

/// The message that a frame holds.
pub open spec fn decode_spec(text: Seq<char>) -> Result<MessageView, DecodeError> {
    match json_parse(text) {
        None => Err(DecodeError::Syntax),
        Some(tree) => message_of_tree(tree),
    }
}

/// What [`decode`] hands back, with the message taken by its view.
pub open spec fn decoded_view(outcome: Result<Message, DecodeError>) -> Result<
    MessageView,
    DecodeError,
> {
    match outcome {
        Ok(message) => Ok(message@),
        Err(e) => Err(e),
    }
}

/// A string member, or none, as a tree.
pub open spec fn tree_of_optional_text(text: Option<Seq<char>>) -> JsonTree {
    match text {
        Some(t) => JsonTree::Text(t),
        None => JsonTree::Null,
    }
}

/// The object that stands for an alert, `None` where its timestamp has no
/// wire text.
pub open spec fn tree_of_alert(alert: AlertView) -> Option<JsonTree> {
    match alert.timestamp.wire_text() {
        None => None,
        Some(timestamp) => Some(
            JsonTree::empty_object().with("id"@, JsonTree::Text(alert.id)).with(
                "title"@,
                JsonTree::Text(alert.title),
            ).with("message"@, JsonTree::Text(alert.message)).with(
                "level"@,
                JsonTree::Text(level_tag(alert.level)),
            ).with("requires_confirmation"@, JsonTree::Bool(alert.requires_confirmation)).with(
                "sound_file"@,
                tree_of_optional_text(alert.sound_file),
            ).with("timestamp"@, JsonTree::Text(timestamp)),
        ),
    }
}

/// The object that stands for a confirmation, `None` where its instant has no
/// wire text.
pub open spec fn tree_of_confirmation(confirmation: ConfirmationView) -> Option<JsonTree> {
    match confirmation.confirmed_at.wire_text() {
        None => None,
        Some(confirmed_at) => Some(
            JsonTree::empty_object().with("alert_id"@, JsonTree::Text(confirmation.alert_id)).with(
                "client_id"@,
                JsonTree::Text(confirmation.client_id),
            ).with("confirmed_at"@, JsonTree::Text(confirmed_at)).with(
                "hostname"@,
                JsonTree::Text(confirmation.hostname),
            ).with("username"@, JsonTree::Text(confirmation.username)),
        ),
    }
}

/// The document that stands for a message, `None` where the message carries
/// an instant without wire text.
pub open spec fn tree_of_message(message: MessageView) -> Option<JsonTree> {
    match message {
        MessageView::Alert { alert } => match tree_of_alert(alert) {
            None => None,
            Some(inner) => Some(
                JsonTree::empty_object().with("type"@, JsonTree::Text("alert"@)).with(
                    "alert"@,
                    inner,
                ),
            ),
        },
        MessageView::Confirmation { confirmation } => match tree_of_confirmation(confirmation) {
            None => None,
            Some(inner) => Some(
                JsonTree::empty_object().with("type"@, JsonTree::Text("confirmation"@)).with(
                    "confirmation"@,
                    inner,
                ),
            ),
        },
        MessageView::Heartbeat => Some(
            JsonTree::empty_object().with("type"@, JsonTree::Text("heartbeat"@)),
        ),
        MessageView::Register { client_id, hostname } => Some(
            JsonTree::empty_object().with("type"@, JsonTree::Text("register"@)).with(
                "client_id"@,
                JsonTree::Text(client_id),
            ).with("hostname"@, JsonTree::Text(hostname)),
        ),
        MessageView::Unknown => Some(
            JsonTree::empty_object().with("type"@, JsonTree::Text("unknown"@)),
        ),
    }
}

/// The frame that carries a message, `None` where the message carries an
/// instant without wire text.
pub open spec fn encode_spec(message: MessageView) -> Option<Seq<char>> {
    match tree_of_message(message) {
        Some(tree) => Some(json_text(tree)),
        None => None,
    }
}

/// Whether every instant that the message carries lies in the years 0000 to
/// 9999, for which a wire text always exists.
pub open spec fn printable(message: MessageView) -> bool {
    match message {
        MessageView::Alert { alert } => alert.timestamp.in_rfc3339_years(),
        MessageView::Confirmation { confirmation } => confirmation.confirmed_at.in_rfc3339_years(),
        _ => true,
    }
}

/// Reads the string member `key` of `object`.
fn read_text(object: &serde_json::Value, key: &str) -> (outcome: Result<String, DecodeError>)
    ensures
        match outcome {
            Ok(text) => required_text(json_tree(*object), key@) == Ok::<Seq<char>, DecodeError>(
                text@,
            ),
            Err(e) => required_text(json_tree(*object), key@) == Err::<Seq<char>, DecodeError>(e),
        },
{
    match member(object, key) {
        None => Err(DecodeError::MissingField),
        Some(value) => match text_of(value) {
            Some(text) => Ok(text.to_owned()),
            None => Err(DecodeError::WrongType),
        },
    }
}

/// Reads the boolean member `key` of `object`.
fn read_flag(object: &serde_json::Value, key: &str) -> (outcome: Result<bool, DecodeError>)
    ensures
        outcome == required_flag(json_tree(*object), key@),
{
    match member(object, key) {
        None => Err(DecodeError::MissingField),
        Some(value) => match flag_of(value) {
            Some(flag) => Ok(flag),
            None => Err(DecodeError::WrongType),
        },
    }
}

/// Reads the optional string member `key` of `object`.
fn read_optional_text(object: &serde_json::Value, key: &str) -> (outcome: Result<
    Option<String>,
    DecodeError,
>)
    ensures
        match outcome {
            Ok(Some(text)) => optional_text(json_tree(*object), key@) == Ok::<
                Option<Seq<char>>,
                DecodeError,
            >(Some(text@)),
            Ok(None) => optional_text(json_tree(*object), key@) == Ok::<
                Option<Seq<char>>,
                DecodeError,
            >(None),
            Err(e) => optional_text(json_tree(*object), key@) == Err::<
                Option<Seq<char>>,
                DecodeError,
            >(e),
        },
{
    match member(object, key) {
        None => Ok(None),
        Some(value) => if is_null(value) {
            Ok(None)
        } else {
            match text_of(value) {
                Some(text) => Ok(Some(text.to_owned())),
                None => Err(DecodeError::WrongType),
            }
        },
    }
}

/// The level that a wire name stands for.
pub fn parse_level(tag: &str) -> (level: Option<AlertLevel>)
    ensures
        level == level_of_tag(tag@),
{
    if same_text(tag, "info") {
        Some(AlertLevel::Info)
    } else if same_text(tag, "warning") {
        Some(AlertLevel::Warning)
    } else if same_text(tag, "critical") {
        Some(AlertLevel::Critical)
    } else if same_text(tag, "emergency") {
        Some(AlertLevel::Emergency)
    } else {
        None
    }
}

/// The name of a level on the wire.
pub fn level_name(level: AlertLevel) -> (tag: &'static str)
    ensures
        tag@ == level_tag(level),
{
    match level {
        AlertLevel::Info => "info",
        AlertLevel::Warning => "warning",
        AlertLevel::Critical => "critical",
        AlertLevel::Emergency => "emergency",
    }
}

/// Reads the member `key` of `object` as a level.
fn read_level(object: &serde_json::Value, key: &str) -> (outcome: Result<AlertLevel, DecodeError>)
    ensures
        outcome == required_level(json_tree(*object), key@),
{
    match read_text(object, key) {
        Err(e) => Err(e),
        Ok(tag) => match parse_level(tag.as_str()) {
            Some(level) => Ok(level),
            None => Err(DecodeError::InvalidValue),
        },
    }
}

/// Reads the member `key` of `object` as an instant.
fn read_instant(object: &serde_json::Value, key: &str) -> (outcome: Result<Timestamp, DecodeError>)
    ensures
        outcome == required_instant(json_tree(*object), key@),
{
    match read_text(object, key) {
        Err(e) => Err(e),
        Ok(text) => match Timestamp::parse_rfc3339(text.as_str()) {
            Some(instant) => Ok(instant),
            None => Err(DecodeError::InvalidValue),
        },
    }
}

/// Reads an alert from the object that stands for it.
pub fn decode_alert(object: &serde_json::Value) -> (outcome: Result<Alert, DecodeError>)
    ensures
        match outcome {
            Ok(alert) => alert_of_tree(json_tree(*object)) == Ok::<AlertView, DecodeError>(alert@),
            Err(e) => alert_of_tree(json_tree(*object)) == Err::<AlertView, DecodeError>(e),
        },
{
    let id = match read_text(object, "id") {
        Ok(text) => text,
        Err(e) => { return Err(e); },
    };
    let title = match read_text(object, "title") {
        Ok(text) => text,
        Err(e) => { return Err(e); },
    };
    let message = match read_text(object, "message") {
        Ok(text) => text,
        Err(e) => { return Err(e); },
    };
    let level = match read_level(object, "level") {
        Ok(level) => level,
        Err(e) => { return Err(e); },
    };
    let requires_confirmation = match read_flag(object, "requires_confirmation") {
        Ok(flag) => flag,
        Err(e) => { return Err(e); },
    };
    let sound_file = match read_optional_text(object, "sound_file") {
        Ok(name) => name,
        Err(e) => { return Err(e); },
    };
    let timestamp = match read_instant(object, "timestamp") {
        Ok(instant) => instant,
        Err(e) => { return Err(e); },
    };
    Ok(Alert { id, title, message, level, requires_confirmation, sound_file, timestamp })
}

/// Reads a confirmation from the object that stands for it.
pub fn decode_confirmation(object: &serde_json::Value) -> (outcome: Result<
    Confirmation,
    DecodeError,
>)
    ensures
        match outcome {
            Ok(confirmation) => confirmation_of_tree(json_tree(*object)) == Ok::<
                ConfirmationView,
                DecodeError,
            >(confirmation@),
            Err(e) => confirmation_of_tree(json_tree(*object)) == Err::<
                ConfirmationView,
                DecodeError,
            >(e),
        },
{
    let alert_id = match read_text(object, "alert_id") {
        Ok(text) => text,
        Err(e) => { return Err(e); },
    };
    let client_id = match read_text(object, "client_id") {
        Ok(text) => text,
        Err(e) => { return Err(e); },
    };
    let confirmed_at = match read_instant(object, "confirmed_at") {
        Ok(instant) => instant,
        Err(e) => { return Err(e); },
    };
    let hostname = match read_text(object, "hostname") {
        Ok(text) => text,
        Err(e) => { return Err(e); },
    };
    let username = match read_text(object, "username") {
        Ok(text) => text,
        Err(e) => { return Err(e); },
    };
    Ok(Confirmation { alert_id, client_id, confirmed_at, hostname, username })
}

/// Reads a message from a parsed document.
pub fn decode_document(document: &serde_json::Value) -> (outcome: Result<Message, DecodeError>)
    ensures
        decoded_view(outcome) == message_of_tree(json_tree(*document)),
{
    let tag = match read_text(document, "type") {
        Ok(text) => text,
        Err(e) => { return Err(e); },
    };
    if same_text(tag.as_str(), "alert") {
        match member(document, "alert") {
            None => Err(DecodeError::MissingField),
            Some(inner) => match decode_alert(inner) {
                Ok(alert) => Ok(Message::Alert { alert }),
                Err(e) => Err(e),
            },
        }
    } else if same_text(tag.as_str(), "confirmation") {
        match member(document, "confirmation") {
            None => Err(DecodeError::MissingField),
            Some(inner) => match decode_confirmation(inner) {
                Ok(confirmation) => Ok(Message::Confirmation { confirmation }),
                Err(e) => Err(e),
            },
        }
    } else if same_text(tag.as_str(), "heartbeat") {
        Ok(Message::Heartbeat)
    } else if same_text(tag.as_str(), "register") {
        let client_id = match read_text(document, "client_id") {
            Ok(text) => text,
            Err(e) => { return Err(e); },
        };
        let hostname = match read_text(document, "hostname") {
            Ok(text) => text,
            Err(e) => { return Err(e); },
        };
        Ok(Message::Register { client_id, hostname })
    } else {
        Ok(Message::Unknown)
    }
}

/// Reads the message that a frame holds.
///
/// Fails with [`DecodeError::Syntax`] exactly when the text is not JSON, and
/// otherwise with the error of the first member that is absent or ill-formed;
/// a well-formed frame with an unknown `type` is read as
/// [`Message::Unknown`].
pub fn decode(text: &str) -> (outcome: Result<Message, DecodeError>)
    ensures
        decoded_view(outcome) == decode_spec(text@),
{
    match parse_document(text) {
        None => Err(DecodeError::Syntax),
        Some(document) => decode_document(&document),
    }
}

/// Builds the object that stands for an alert.
pub fn alert_document(alert: &Alert) -> (outcome: Result<serde_json::Value, EncodeError>)
    ensures
        match outcome {
            Ok(document) => tree_of_alert(alert@) == Some(json_tree(document)),
            Err(_) => tree_of_alert(alert@) is None,
        },
        alert.timestamp.in_rfc3339_years() ==> outcome is Ok,
{
    let timestamp = match alert.timestamp.to_rfc3339() {
        Some(text) => text,
        None => { return Err(EncodeError::UnprintableTimestamp); },
    };
    let sound_file = match &alert.sound_file {
        Some(name) => text_value(name.clone()),
        None => null_value(),
    };
    let document = empty_object();
    let document = with_member(document, "id", text_value(alert.id.clone()));
    let document = with_member(document, "title", text_value(alert.title.clone()));
    let document = with_member(document, "message", text_value(alert.message.clone()));
    let document = with_member(
        document,
        "level",
        text_value(level_name(alert.level).to_owned()),
    );
    let document = with_member(
        document,
        "requires_confirmation",
        flag_value(alert.requires_confirmation),
    );
    let document = with_member(document, "sound_file", sound_file);
    let document = with_member(document, "timestamp", text_value(timestamp));
    Ok(document)
}

/// Builds the object that stands for a confirmation.
pub fn confirmation_document(confirmation: &Confirmation) -> (outcome: Result<
    serde_json::Value,
    EncodeError,
>)
    ensures
        match outcome {
            Ok(document) => tree_of_confirmation(confirmation@) == Some(json_tree(document)),
            Err(_) => tree_of_confirmation(confirmation@) is None,
        },
        confirmation.confirmed_at.in_rfc3339_years() ==> outcome is Ok,
{
    let confirmed_at = match confirmation.confirmed_at.to_rfc3339() {
        Some(text) => text,
        None => { return Err(EncodeError::UnprintableTimestamp); },
    };
    let document = empty_object();
    let document = with_member(document, "alert_id", text_value(confirmation.alert_id.clone()));
    let document = with_member(document, "client_id", text_value(confirmation.client_id.clone()));
    let document = with_member(document, "confirmed_at", text_value(confirmed_at));
    let document = with_member(document, "hostname", text_value(confirmation.hostname.clone()));
    let document = with_member(document, "username", text_value(confirmation.username.clone()));
    Ok(document)
}

/// Builds the document that stands for a message.
pub fn encode_document(message: &Message) -> (outcome: Result<serde_json::Value, EncodeError>)
    ensures
        match outcome {
            Ok(document) => tree_of_message(message@) == Some(json_tree(document)),
            Err(_) => tree_of_message(message@) is None,
        },
        printable(message@) ==> outcome is Ok,
{
    let tagged = empty_object();
    match message {
        Message::Alert { alert } => match alert_document(alert) {
            Err(e) => Err(e),
            Ok(inner) => {
                let tagged = with_member(tagged, "type", text_value("alert".to_owned()));
                Ok(with_member(tagged, "alert", inner))
            },
        },
        Message::Confirmation { confirmation } => match confirmation_document(confirmation) {
            Err(e) => Err(e),
            Ok(inner) => {
                let tagged = with_member(tagged, "type", text_value("confirmation".to_owned()));
                Ok(with_member(tagged, "confirmation", inner))
            },
        },
        Message::Heartbeat => Ok(with_member(tagged, "type", text_value("heartbeat".to_owned()))),
        Message::Register { client_id, hostname } => {
            let tagged = with_member(tagged, "type", text_value("register".to_owned()));
            let tagged = with_member(tagged, "client_id", text_value(client_id.clone()));
            Ok(with_member(tagged, "hostname", text_value(hostname.clone())))
        },
        Message::Unknown => Ok(with_member(tagged, "type", text_value("unknown".to_owned()))),
    }
}

/// The frame that registers the client `client_id` on `hostname`.
pub open spec fn register_frame_spec(client_id: Seq<char>, hostname: Seq<char>) -> Seq<char> {
    json_text(
        JsonTree::empty_object().with("type"@, JsonTree::Text("register"@)).with(
            "client_id"@,
            JsonTree::Text(client_id),
        ).with("hostname"@, JsonTree::Text(hostname)),
    )
}

/// The heartbeat frame.
pub open spec fn heartbeat_frame_spec() -> Seq<char> {
    json_text(JsonTree::empty_object().with("type"@, JsonTree::Text("heartbeat"@)))
}

/// Writes the frame that opens a session: it registers the client
/// `client_id` on `hostname`.
pub fn register_frame(client_id: &str, hostname: &str) -> (frame: String)
    ensures
        frame@ == register_frame_spec(client_id@, hostname@),
        encode_spec(MessageView::Register { client_id: client_id@, hostname: hostname@ }) == Some(
            frame@,
        ),
{
    let tagged = with_member(empty_object(), "type", text_value("register".to_owned()));
    let tagged = with_member(tagged, "client_id", text_value(client_id.to_owned()));
    let tagged = with_member(tagged, "hostname", text_value(hostname.to_owned()));
    print_document(&tagged)
}

/// Writes the heartbeat frame.
pub fn heartbeat_frame() -> (frame: String)
    ensures
        frame@ == heartbeat_frame_spec(),
        encode_spec(MessageView::Heartbeat) == Some(frame@),
{
    let tagged = with_member(empty_object(), "type", text_value("heartbeat".to_owned()));
    print_document(&tagged)
}

/// Writes the frame that carries a message.
///
/// Fails exactly when the message carries an instant that has no RFC 3339
/// text, which no instant of the years 0000 to 9999 does.
pub fn encode(message: &Message) -> (outcome: Result<String, EncodeError>)
    ensures
        match outcome {
            Ok(text) => encode_spec(message@) == Some(text@),
            Err(_) => encode_spec(message@) is None,
        },
        printable(message@) ==> outcome is Ok,
{
    match encode_document(message) {
        Ok(document) => Ok(print_document(&document)),
        Err(e) => Err(e),
    }
}

/// Whether chrono reads the instant back from the text that it prints for it.
pub open spec fn survives_wire(instant: Timestamp) -> bool {
    match instant.wire_text() {
        Some(text) => Timestamp::from_wire_text(text) == Some(instant),
        None => false,
    }
}

/// Whether every instant that the message carries survives the wire.
pub open spec fn instants_survive_wire(message: MessageView) -> bool {
    match message {
        MessageView::Alert { alert } => survives_wire(alert.timestamp),
        MessageView::Confirmation { confirmation } => survives_wire(confirmation.confirmed_at),
        _ => true,
    }
}

/// The names that one object of the wire form uses are pairwise different,
/// and so are the tags and the level names: any two of them differ in length
/// or in their first character.
proof fn lemma_wire_names_differ()
    ensures
        "title"@ != "level"@,
        "alert_id"@ != "hostname"@,
        "alert_id"@ != "username"@,
        "hostname"@ != "username"@,
        "id"@.len() == 2,
        "title"@.len() == 5,
        "message"@.len() == 7,
        "level"@.len() == 5,
        "requires_confirmation"@.len() == 21,
        "sound_file"@.len() == 10,
        "timestamp"@.len() == 9,
        "alert_id"@.len() == 8,
        "client_id"@.len() == 9,
        "confirmed_at"@.len() == 12,
        "hostname"@.len() == 8,
        "username"@.len() == 8,
        "type"@.len() == 4,
        "alert"@.len() == 5,
        "confirmation"@.len() == 12,
        "heartbeat"@.len() == 9,
        "register"@.len() == 8,
        "unknown"@.len() == 7,
        "info"@.len() == 4,
        "warning"@.len() == 7,
        "critical"@.len() == 8,
        "emergency"@.len() == 9,
{
    reveal_strlit("type");
    reveal_strlit("alert");
    reveal_strlit("confirmation");
    reveal_strlit("heartbeat");
    reveal_strlit("register");
    reveal_strlit("unknown");
    reveal_strlit("client_id");
    reveal_strlit("hostname");
    reveal_strlit("id");
    reveal_strlit("title");
    reveal_strlit("message");
    reveal_strlit("level");
    reveal_strlit("requires_confirmation");
    reveal_strlit("sound_file");
    reveal_strlit("timestamp");
    reveal_strlit("alert_id");
    reveal_strlit("confirmed_at");
    reveal_strlit("username");
    reveal_strlit("info");
    reveal_strlit("warning");
    reveal_strlit("critical");
    reveal_strlit("emergency");
    assert("title"@[0] != "level"@[0]);
    assert("alert_id"@[0] != "hostname"@[0]);
    assert("alert_id"@[0] != "username"@[0]);
    assert("hostname"@[0] != "username"@[0]);
}

/// Reading the object of an alert gives the alert back.
proof fn lemma_alert_round_trip(alert: AlertView)
    requires
        survives_wire(alert.timestamp),
    ensures
        tree_of_alert(alert) is Some,
        alert_of_tree(tree_of_alert(alert)->0) == Ok::<AlertView, DecodeError>(alert),
{
    lemma_wire_names_differ();
    let tree = tree_of_alert(alert)->0;
    let t0 = JsonTree::empty_object();
    let t1 = t0.with("id"@, JsonTree::Text(alert.id));
    let t2 = t1.with("title"@, JsonTree::Text(alert.title));
    let t3 = t2.with("message"@, JsonTree::Text(alert.message));
    let t4 = t3.with("level"@, JsonTree::Text(level_tag(alert.level)));
    let t5 = t4.with("requires_confirmation"@, JsonTree::Bool(alert.requires_confirmation));
    let t6 = t5.with("sound_file"@, tree_of_optional_text(alert.sound_file));
    lemma_members_with(t0, "id"@, JsonTree::Text(alert.id));
    lemma_members_with(t1, "title"@, JsonTree::Text(alert.title));
    lemma_members_with(t2, "message"@, JsonTree::Text(alert.message));
    lemma_members_with(t3, "level"@, JsonTree::Text(level_tag(alert.level)));
    lemma_members_with(t4, "requires_confirmation"@, JsonTree::Bool(alert.requires_confirmation));
    lemma_members_with(t5, "sound_file"@, tree_of_optional_text(alert.sound_file));
    lemma_members_with(t6, "timestamp"@, JsonTree::Text(alert.timestamp.wire_text()->0));
    assert(tree == t6.with("timestamp"@, JsonTree::Text(alert.timestamp.wire_text()->0)));
    assert(required_text(tree, "id"@) == Ok::<Seq<char>, DecodeError>(alert.id));
    assert(required_text(tree, "title"@) == Ok::<Seq<char>, DecodeError>(alert.title));
    assert(required_text(tree, "message"@) == Ok::<Seq<char>, DecodeError>(alert.message));
    assert(level_of_tag(level_tag(alert.level)) == Some(alert.level));
    assert(required_level(tree, "level"@) == Ok::<AlertLevel, DecodeError>(alert.level));
    assert(required_flag(tree, "requires_confirmation"@) == Ok::<bool, DecodeError>(
        alert.requires_confirmation,
    ));
    assert(optional_text(tree, "sound_file"@) == Ok::<Option<Seq<char>>, DecodeError>(
        alert.sound_file,
    ));
    assert(required_instant(tree, "timestamp"@) == Ok::<Timestamp, DecodeError>(alert.timestamp));
}

/// Reading the object of a confirmation gives the confirmation back.
proof fn lemma_confirmation_round_trip(confirmation: ConfirmationView)
    requires
        survives_wire(confirmation.confirmed_at),
    ensures
        tree_of_confirmation(confirmation) is Some,
        confirmation_of_tree(tree_of_confirmation(confirmation)->0) == Ok::<
            ConfirmationView,
            DecodeError,
        >(confirmation),
{
    lemma_wire_names_differ();
    let tree = tree_of_confirmation(confirmation)->0;
    let t0 = JsonTree::empty_object();
    let t1 = t0.with("alert_id"@, JsonTree::Text(confirmation.alert_id));
    let t2 = t1.with("client_id"@, JsonTree::Text(confirmation.client_id));
    let t3 = t2.with("confirmed_at"@, JsonTree::Text(confirmation.confirmed_at.wire_text()->0));
    let t4 = t3.with("hostname"@, JsonTree::Text(confirmation.hostname));
    lemma_members_with(t0, "alert_id"@, JsonTree::Text(confirmation.alert_id));
    lemma_members_with(t1, "client_id"@, JsonTree::Text(confirmation.client_id));
    lemma_members_with(
        t2,
        "confirmed_at"@,
        JsonTree::Text(confirmation.confirmed_at.wire_text()->0),
    );
    lemma_members_with(t3, "hostname"@, JsonTree::Text(confirmation.hostname));
    lemma_members_with(t4, "username"@, JsonTree::Text(confirmation.username));
    assert(tree == t4.with("username"@, JsonTree::Text(confirmation.username)));
    assert(required_text(tree, "alert_id"@) == Ok::<Seq<char>, DecodeError>(
        confirmation.alert_id,
    ));
    assert(required_text(tree, "client_id"@) == Ok::<Seq<char>, DecodeError>(
        confirmation.client_id,
    ));
    assert(required_instant(tree, "confirmed_at"@) == Ok::<Timestamp, DecodeError>(
        confirmation.confirmed_at,
    ));
    assert(required_text(tree, "hostname"@) == Ok::<Seq<char>, DecodeError>(
        confirmation.hostname,
    ));
    assert(required_text(tree, "username"@) == Ok::<Seq<char>, DecodeError>(
        confirmation.username,
    ));
}

/// Reading the document of a message gives the message back: the shapes that
/// [`encode`] writes and [`decode`] reads agree, member by member, for every
/// message whose instants survive the wire.
pub proof fn lemma_document_round_trip(message: MessageView)
    requires
        instants_survive_wire(message),
    ensures
        tree_of_message(message) is Some,
        message_of_tree(tree_of_message(message)->0) == Ok::<MessageView, DecodeError>(message),
{
    lemma_wire_names_differ();
    let empty = JsonTree::empty_object();
    match message {
        MessageView::Alert { alert } => {
            lemma_alert_round_trip(alert);
            let tree = tree_of_message(message)->0;
            let tagged = empty.with("type"@, JsonTree::Text("alert"@));
            lemma_members_with(empty, "type"@, JsonTree::Text("alert"@));
            lemma_members_with(tagged, "alert"@, tree_of_alert(alert)->0);
            assert(required_text(tree, "type"@) == Ok::<Seq<char>, DecodeError>("alert"@));
            assert(tree.member("alert"@) == tree_of_alert(alert));
        },
        MessageView::Confirmation { confirmation } => {
            lemma_confirmation_round_trip(confirmation);
            let tree = tree_of_message(message)->0;
            let tagged = empty.with("type"@, JsonTree::Text("confirmation"@));
            lemma_members_with(empty, "type"@, JsonTree::Text("confirmation"@));
            lemma_members_with(tagged, "confirmation"@, tree_of_confirmation(confirmation)->0);
            assert(required_text(tree, "type"@) == Ok::<Seq<char>, DecodeError>(
                "confirmation"@,
            ));
            assert(tree.member("confirmation"@) == tree_of_confirmation(confirmation));
        },
        MessageView::Heartbeat => {
            let tree = tree_of_message(message)->0;
            lemma_members_with(empty, "type"@, JsonTree::Text("heartbeat"@));
            assert(required_text(tree, "type"@) == Ok::<Seq<char>, DecodeError>("heartbeat"@));
        },
        MessageView::Register { client_id, hostname } => {
            let tree = tree_of_message(message)->0;
            let tagged = empty.with("type"@, JsonTree::Text("register"@));
            let named = tagged.with("client_id"@, JsonTree::Text(client_id));
            lemma_members_with(empty, "type"@, JsonTree::Text("register"@));
            lemma_members_with(tagged, "client_id"@, JsonTree::Text(client_id));
            lemma_members_with(named, "hostname"@, JsonTree::Text(hostname));
            assert(required_text(tree, "type"@) == Ok::<Seq<char>, DecodeError>("register"@));
            assert(required_text(tree, "client_id"@) == Ok::<Seq<char>, DecodeError>(client_id));
            assert(required_text(tree, "hostname"@) == Ok::<Seq<char>, DecodeError>(hostname));
        },
        MessageView::Unknown => {
            let tree = tree_of_message(message)->0;
            lemma_members_with(empty, "type"@, JsonTree::Text("unknown"@));
            assert(required_text(tree, "type"@) == Ok::<Seq<char>, DecodeError>("unknown"@));
        },
    }
}

/// Whether `serde_json` reads a document back from the text that it prints
/// for it.
pub open spec fn reads_back(tree: JsonTree) -> bool {
    json_parse(json_text(tree)) == Some(tree)
}

/// Decoding the frame of a message gives the message back, for every message
/// that the two outside crates carry faithfully: chrono reads its instants
/// back from their texts, and `serde_json` reads its document back from its
/// frame.
pub proof fn lemma_round_trip(message: MessageView)
    requires
        instants_survive_wire(message),
        tree_of_message(message) matches Some(tree) ==> reads_back(tree),
    ensures
        encode_spec(message) is Some,
        decode_spec(encode_spec(message)->0) == Ok::<MessageView, DecodeError>(message),
{
    lemma_document_round_trip(message);
}

} // verus!
