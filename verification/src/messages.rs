//! Wire data model: alerts, confirmations and the envelope that carries them.

use crate::time::Timestamp;
use vstd::prelude::*;

verus! {

/// Alert severity levels.
#[derive(Debug, Clone, Copy, PartialEq, Eq, Structural)]
pub enum AlertLevel {
    Info,
    Warning,
    Critical,
    Emergency,
}

impl AlertLevel {
    /// The capitalised name of the level, as written to logs.
    pub open spec fn name(self) -> Seq<char> {
        match self {
            AlertLevel::Info => "Info"@,
            AlertLevel::Warning => "Warning"@,
            AlertLevel::Critical => "Critical"@,
            AlertLevel::Emergency => "Emergency"@,
        }
    }

    /// The sound that announces an alert of this level when the alert names
    /// none itself.
    pub open spec fn default_sound(self) -> Seq<char> {
        match self {
            AlertLevel::Emergency | AlertLevel::Critical => "alarm_critical.wav"@,
            AlertLevel::Warning => "alarm_warning.wav"@,
            AlertLevel::Info => "notification.wav"@,
        }
    }

    pub fn as_str(&self) -> (name: &'static str)
        ensures
            name@ == self.name(),
    {
        match self {
            AlertLevel::Info => "Info",
            AlertLevel::Warning => "Warning",
            AlertLevel::Critical => "Critical",
            AlertLevel::Emergency => "Emergency",
        }
    }
}

/// Alert message sent from server to client.
#[derive(Debug, PartialEq, Eq)]
pub struct Alert {
    pub id: String,
    pub title: String,
    pub message: String,
    pub level: AlertLevel,
    pub requires_confirmation: bool,
    pub sound_file: Option<String>,
    pub timestamp: Timestamp,
}

/// What an [`Alert`] holds.
pub struct AlertView {
    pub id: Seq<char>,
    pub title: Seq<char>,
    pub message: Seq<char>,
    pub level: AlertLevel,
    pub requires_confirmation: bool,
    pub sound_file: Option<Seq<char>>,
    pub timestamp: Timestamp,
}

impl AlertView {
    /// The sound to play for the alert: the one it names, else the default of
    /// its level.
    pub open spec fn sound(self) -> Seq<char> {
        match self.sound_file {
            Some(name) => name,
            None => self.level.default_sound(),
        }
    }
}

impl View for Alert {
    type V = AlertView;

    open spec fn view(&self) -> AlertView {
        AlertView {
            id: self.id@,
            title: self.title@,
            message: self.message@,
            level: self.level,
            requires_confirmation: self.requires_confirmation,
            sound_file: match self.sound_file {
                Some(name) => Some(name@),
                None => None,
            },
            timestamp: self.timestamp,
        }
    }
}

impl Clone for Alert {
    fn clone(&self) -> (copy: Alert)
        ensures
            copy@ == self@,
    {
        Alert {
            id: self.id.clone(),
            title: self.title.clone(),
            message: self.message.clone(),
            level: self.level,
            requires_confirmation: self.requires_confirmation,
            sound_file: match &self.sound_file {
                Some(name) => Some(name.clone()),
                None => None,
            },
            timestamp: self.timestamp,
        }
    }
}

impl Alert {
    /// Get the sound file name, or the default based on level.
    pub fn get_sound_file(&self) -> (name: String)
        ensures
            name@ == self@.sound(),
    {
        match &self.sound_file {
            Some(name) => name.clone(),
            None => match self.level {
                AlertLevel::Emergency | AlertLevel::Critical => String::from_str(
                    "alarm_critical.wav",
                ),
                AlertLevel::Warning => String::from_str("alarm_warning.wav"),
                AlertLevel::Info => String::from_str("notification.wav"),
            },
        }
    }
}

/// Confirmation sent from client to server.
#[derive(Debug, PartialEq, Eq)]
pub struct Confirmation {
    pub alert_id: String,
    pub client_id: String,
    pub confirmed_at: Timestamp,
    pub hostname: String,
    pub username: String,
}

/// What a [`Confirmation`] holds.
pub struct ConfirmationView {
    pub alert_id: Seq<char>,
    pub client_id: Seq<char>,
    pub confirmed_at: Timestamp,
    pub hostname: Seq<char>,
    pub username: Seq<char>,
}

impl View for Confirmation {
    type V = ConfirmationView;

    open spec fn view(&self) -> ConfirmationView {
        ConfirmationView {
            alert_id: self.alert_id@,
            client_id: self.client_id@,
            confirmed_at: self.confirmed_at,
            hostname: self.hostname@,
            username: self.username@,
        }
    }
}

impl Clone for Confirmation {
    fn clone(&self) -> (copy: Confirmation)
        ensures
            copy@ == self@,
    {
        Confirmation {
            alert_id: self.alert_id.clone(),
            client_id: self.client_id.clone(),
            confirmed_at: self.confirmed_at,
            hostname: self.hostname.clone(),
            username: self.username.clone(),
        }
    }
}

/// Message types exchanged over the connection.
///
/// `Unknown` stands for a frame whose tag is none of the four that the
/// protocol defines: it is read without error and carries nothing.
#[derive(Debug, PartialEq, Eq)]
pub enum Message {
    Alert { alert: Alert },
    Confirmation { confirmation: Confirmation },
    Heartbeat,
    Register { client_id: String, hostname: String },
    Unknown,
}

/// What a [`Message`] holds.
pub enum MessageView {
    Alert { alert: AlertView },
    Confirmation { confirmation: ConfirmationView },
    Heartbeat,
    Register { client_id: Seq<char>, hostname: Seq<char> },
    Unknown,
}

impl View for Message {
    type V = MessageView;

    open spec fn view(&self) -> MessageView {
        match self {
            Message::Alert { alert } => MessageView::Alert { alert: alert@ },
            Message::Confirmation { confirmation } => MessageView::Confirmation {
                confirmation: confirmation@,
            },
            Message::Heartbeat => MessageView::Heartbeat,
            Message::Register { client_id, hostname } => MessageView::Register {
                client_id: client_id@,
                hostname: hostname@,
            },
            Message::Unknown => MessageView::Unknown,
        }
    }
}

impl Clone for Message {
    fn clone(&self) -> (copy: Message)
        ensures
            copy@ == self@,
    {
        match self {
            Message::Alert { alert } => Message::Alert { alert: alert.clone() },
            Message::Confirmation { confirmation } => Message::Confirmation {
                confirmation: confirmation.clone(),
            },
            Message::Heartbeat => Message::Heartbeat,
            Message::Register { client_id, hostname } => Message::Register {
                client_id: client_id.clone(),
                hostname: hostname.clone(),
            },
            Message::Unknown => Message::Unknown,
        }
    }
}

} // verus!
