//! The server's side of the protocol, as a small test server needs it: what
//! a client's frame asks for, which client a connection belongs to, and the
//! alerts that the test server sends round.

use crate::json::{
    json_parse, json_text, json_tree, member, null_value, parse_document, print_document, text_of,
    JsonTree,
};
use crate::messages::{Alert, AlertLevel, AlertView};
use crate::text::same_text;
use crate::time::Timestamp;
use vstd::prelude::*;

verus! {

/// Milliseconds that the test server waits before its first alert.
pub const FIRST_ALERT_DELAY_MS: u64 = 5_000;

/// Milliseconds that the test server waits before each alert.
pub const ALERT_SPACING_MS: u64 = 10_000;

/// How many alerts the test server sends.
pub const TEST_ALERT_COUNT: usize = 4;

/// What a frame from a client asks of the server.
#[derive(Debug, PartialEq, Eq)]
pub enum ServerAction {
    /// Nothing: the frame is no JSON, or lacks what its type needs.
    Ignore,
    /// Enter the connection under this client identifier.
    RegisterClient { client_id: String },
    /// Log the confirmation; `alert_id` is the JSON text of its `alert_id`
    /// member, `null` where it has none.
    LogConfirmation { alert_id: String },
    /// Log the heartbeat.
    LogHeartbeat,
    /// Log a message of unknown type.
    LogUnknown,
}

/// What a [`ServerAction`] holds.
pub enum ServerActionView {
    Ignore,
    RegisterClient { client_id: Seq<char> },
    LogConfirmation { alert_id: Seq<char> },
    LogHeartbeat,
    LogUnknown,
}

impl View for ServerAction {
    type V = ServerActionView;

    open spec fn view(&self) -> ServerActionView {
        match self {
            ServerAction::Ignore => ServerActionView::Ignore,
            ServerAction::RegisterClient { client_id } => ServerActionView::RegisterClient {
                client_id: client_id@,
            },
            ServerAction::LogConfirmation { alert_id } => ServerActionView::LogConfirmation {
                alert_id: alert_id@,
            },
            ServerAction::LogHeartbeat => ServerActionView::LogHeartbeat,
            ServerAction::LogUnknown => ServerActionView::LogUnknown,
        }
    }
}

/// What a document from a client asks for. A document whose `type` is no
/// string, or none that the server knows, is logged as unknown.
pub open spec fn action_of_tree(tree: JsonTree) -> ServerActionView {
    match tree.member("type"@) {
        Some(JsonTree::Text(tag)) => if tag == "register"@ {
            match tree.member("client_id"@) {
                Some(JsonTree::Text(client_id)) => ServerActionView::RegisterClient { client_id },
                _ => ServerActionView::Ignore,
            }
        } else if tag == "confirmation"@ {
            match tree.member("confirmation"@) {
                Some(confirmation) => ServerActionView::LogConfirmation {
                    alert_id: match confirmation.member("alert_id"@) {
                        Some(alert_id) => json_text(alert_id),
                        None => json_text(JsonTree::Null),
                    },
                },
                None => ServerActionView::Ignore,
            }
        } else if tag == "heartbeat"@ {
            ServerActionView::LogHeartbeat
        } else {
            ServerActionView::LogUnknown
        },
        _ => ServerActionView::LogUnknown,
    }
}

/// What a text frame from a client asks for.
pub open spec fn action_of_frame(text: Seq<char>) -> ServerActionView {
    match json_parse(text) {
        Some(tree) => action_of_tree(tree),
        None => ServerActionView::Ignore,
    }
}

/// Decides what a parsed document from a client asks for.
pub fn handle_client_document(document: &serde_json::Value) -> (action: ServerAction)
    ensures
        action@ == action_of_tree(json_tree(*document)),
{
    let tag = match member(document, "type") {
        Some(value) => match text_of(value) {
            Some(tag) => tag,
            None => { return ServerAction::LogUnknown; },
        },
        None => { return ServerAction::LogUnknown; },
    };
    if same_text(tag, "register") {
        match member(document, "client_id") {
            Some(value) => match text_of(value) {
                Some(client_id) => ServerAction::RegisterClient { client_id: client_id.to_owned() },
                None => ServerAction::Ignore,
            },
            None => ServerAction::Ignore,
        }
    } else if same_text(tag, "confirmation") {
        match member(document, "confirmation") {
            Some(confirmation) => match member(confirmation, "alert_id") {
                Some(alert_id) => ServerAction::LogConfirmation {
                    alert_id: print_document(alert_id),
                },
                None => ServerAction::LogConfirmation {
                    alert_id: print_document(&null_value()),
                },
            },
            None => ServerAction::Ignore,
        }
    } else if same_text(tag, "heartbeat") {
        ServerAction::LogHeartbeat
    } else {
        ServerAction::LogUnknown
    }
}

/// One client connection, as the server sees it.
#[derive(Debug)]
pub struct ServerConnection {
    client_id: Option<String>,
}

impl ServerConnection {
    /// The identifier under which the connection was entered last.
    pub closed spec fn registered(&self) -> Option<Seq<char>> {
        match self.client_id {
            Some(id) => Some(id@),
            None => None,
        }
    }

    /// A connection that no client has registered on yet.
    pub fn new() -> (connection: ServerConnection)
        ensures
            connection.registered() is None,
    {
        ServerConnection { client_id: None }
    }

    /// Takes a text frame from the client and says what to do about it. A
    /// register frame makes its client the one that the connection belongs
    /// to.
    pub fn handle_frame(&mut self, text: &str) -> (action: ServerAction)
        ensures
            action@ == action_of_frame(text@),
            final(self).registered() == match action_of_frame(text@) {
                ServerActionView::RegisterClient { client_id } => Some(client_id),
                _ => old(self).registered(),
            },
    {
        let action = match parse_document(text) {
            Some(document) => handle_client_document(&document),
            None => ServerAction::Ignore,
        };
        match &action {
            ServerAction::RegisterClient { client_id } => {
                self.client_id = Some(client_id.clone());
            },
            _ => {},
        }
        action
    }

    /// Ends the connection: the client to strike from the list, if one had
    /// registered.
    pub fn disconnect(self) -> (client_id: Option<String>)
        ensures
            match client_id {
                Some(id) => self.registered() == Some(id@),
                None => self.registered() is None,
            },
    {
        self.client_id
    }
}

/// The alerts that the test server sends, by their place in the round, but
/// for identifier and timestamp. The first asks for no confirmation, the
/// others do; none names a sound.
pub open spec fn test_alert_spec(index: int, id: Seq<char>, now: Timestamp) -> Option<AlertView> {
    if index == 0 {
        Some(
            AlertView {
                id,
                title: "Info Alert"@,
                message: "This is an informational message"@,
                level: AlertLevel::Info,
                requires_confirmation: false,
                sound_file: None,
                timestamp: now,
            },
        )
    } else if index == 1 {
        Some(
            AlertView {
                id,
                title: "Warning Alert"@,
                message: "This requires your attention"@,
                level: AlertLevel::Warning,
                requires_confirmation: true,
                sound_file: None,
                timestamp: now,
            },
        )
    } else if index == 2 {
        Some(
            AlertView {
                id,
                title: "Critical Alert"@,
                message: "Critical system event detected!"@,
                level: AlertLevel::Critical,
                requires_confirmation: true,
                sound_file: None,
                timestamp: now,
            },
        )
    } else if index == 3 {
        Some(
            AlertView {
                id,
                title: "Emergency Alert"@,
                message: "IMMEDIATE ACTION REQUIRED"@,
                level: AlertLevel::Emergency,
                requires_confirmation: true,
                sound_file: None,
                timestamp: now,
            },
        )
    } else {
        None
    }
}

/// The test alert at place `index` of the round, with the identifier and the
/// timestamp given; `None` past the end of the round.
pub fn test_alert(index: usize, id: String, now: Timestamp) -> (alert: Option<Alert>)
    ensures
        match alert {
            Some(a) => test_alert_spec(index as int, id@, now) == Some(a@),
            None => test_alert_spec(index as int, id@, now) is None,
        },
        alert is Some <==> index < TEST_ALERT_COUNT,
{
    let (title, message, level, requires_confirmation) = if index == 0 {
        ("Info Alert", "This is an informational message", AlertLevel::Info, false)
    } else if index == 1 {
        ("Warning Alert", "This requires your attention", AlertLevel::Warning, true)
    } else if index == 2 {
        ("Critical Alert", "Critical system event detected!", AlertLevel::Critical, true)
    } else if index == 3 {
        ("Emergency Alert", "IMMEDIATE ACTION REQUIRED", AlertLevel::Emergency, true)
    } else {
        return None;
    };
    Some(
        Alert {
            id,
            title: String::from_str(title),
            message: String::from_str(message),
            level,
            requires_confirmation,
            sound_file: None,
            timestamp: now,
        },
    )
}

} // verus!
