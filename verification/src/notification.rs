//! The toast that shows an alert on the desktop.
//!
//! The toast is described by an XML document. This module writes the
//! document; showing it is up to the caller.

use crate::messages::{Alert, AlertLevel, AlertView};
use crate::text::push_char;
use vstd::prelude::*;

verus! {

/// What stands for one character in XML text.
pub open spec fn escaped_char(c: char) -> Seq<char> {
    if c == '&' {
        "&amp;"@
    } else if c == '<' {
        "&lt;"@
    } else if c == '>' {
        "&gt;"@
    } else if c == '"' {
        "&quot;"@
    } else if c == '\'' {
        "&apos;"@
    } else {
        seq![c]
    }
}

/// A text with each of the five XML special characters replaced by its
/// entity.
pub open spec fn escaped(text: Seq<char>) -> Seq<char>
    decreases text.len(),
{
    if text.len() == 0 {
        Seq::empty()
    } else {
        escaped(text.drop_last()) + escaped_char(text.last())
    }
}

/// The toast document up to the scenario.
pub const TOAST_OPEN: &'static str = "<?xml version=\"1.0\" encoding=\"utf-8\"?>\n<toast scenario=\"";

/// From the scenario to the duration.
pub const TOAST_DURATION: &'static str = "\" duration=\"";

/// From the duration to the first line of text.
pub const TOAST_VISUAL: &'static str = "\">\n    <visual>\n        <binding template=\"ToastGeneric\">\n            <text>";

/// Between two lines of text.
pub const TOAST_NEXT_LINE: &'static str = "</text>\n            <text>";

/// The label of the third line of text.
pub const TOAST_ID_LABEL: &'static str = "Alert ID: ";

/// From the last line of text to the actions.
pub const TOAST_ACTIONS: &'static str = "</text>\n        </binding>\n    </visual>\n    <audio src=\"ms-winsoundevent:Notification.Default\" loop=\"false\"/>\n    <actions>\n        ";

/// The action that confirms receipt.
pub const TOAST_CONFIRM: &'static str = "<action content=\"Confirm Receipt\" arguments=\"confirm\" activationType=\"background\"/>";

/// The action that dismisses the toast, and the end of the document.
pub const TOAST_CLOSE: &'static str = "\n        <action content=\"Dismiss\" arguments=\"dismiss\" activationType=\"background\"/>\n    </actions>\n</toast>";

/// How urgently a toast of the level is presented.
pub open spec fn scenario(level: AlertLevel) -> Seq<char> {
    match level {
        AlertLevel::Emergency | AlertLevel::Critical => "urgent"@,
        AlertLevel::Warning => "reminder"@,
        AlertLevel::Info => "default"@,
    }
}

/// How long a toast of the level stays.
pub open spec fn duration(level: AlertLevel) -> Seq<char> {
    match level {
        AlertLevel::Info => "short"@,
        _ => "long"@,
    }
}

/// The sign that opens the title of a toast of the level.
pub open spec fn icon(level: AlertLevel) -> Seq<char> {
    match level {
        AlertLevel::Emergency => "\u{26a0}\u{fe0f}"@,
        AlertLevel::Critical => "\u{1f534}"@,
        AlertLevel::Warning => "\u{26a1}"@,
        AlertLevel::Info => "\u{2139}\u{fe0f}"@,
    }
}

/// The action offered besides dismissal: confirming receipt, for an alert
/// that asks for it.
pub open spec fn confirmation_button(requires_confirmation: bool) -> Seq<char> {
    if requires_confirmation {
        TOAST_CONFIRM@
    } else {
        Seq::empty()
    }
}

/// The toast document of an alert: scenario and duration by level; the title
/// behind the sign of the level, the message and the identifier as three
/// lines of escaped text; the default notification sound; the confirm action
/// where the alert asks for confirmation, and the dismiss action.
pub open spec fn toast_xml(alert: AlertView) -> Seq<char> {
    TOAST_OPEN@ + scenario(alert.level) + TOAST_DURATION@ + duration(alert.level) + TOAST_VISUAL@
        + icon(alert.level) + " "@ + escaped(alert.title) + TOAST_NEXT_LINE@ + escaped(
        alert.message,
    ) + TOAST_NEXT_LINE@ + TOAST_ID_LABEL@ + escaped(alert.id) + TOAST_ACTIONS@
        + confirmation_button(alert.requires_confirmation) + TOAST_CLOSE@
}

/// Shows alerts as toasts of the application `app_id`.
#[derive(Debug)]
pub struct NotificationManager {
    app_id: String,
}

impl NotificationManager {
    /// The application under whose name toasts are shown.
    pub closed spec fn app(&self) -> Seq<char> {
        self.app_id@
    }

    pub fn new(app_id: &str) -> (manager: NotificationManager)
        ensures
            manager.app() == app_id@,
    {
        NotificationManager { app_id: app_id.to_owned() }
    }

    pub fn app_id(&self) -> (app_id: &str)
        ensures
            app_id@ == self.app(),
    {
        self.app_id.as_str()
    }

    /// Create the XML document of the toast for an alert.
    pub fn create_toast_xml(&self, alert: &Alert) -> (xml: String)
        ensures
            xml@ == toast_xml(alert@),
    {
        let scenario = match alert.level {
            AlertLevel::Emergency | AlertLevel::Critical => "urgent",
            AlertLevel::Warning => "reminder",
            AlertLevel::Info => "default",
        };
        let duration = match alert.level {
            AlertLevel::Info => "short",
            _ => "long",
        };
        let icon = match alert.level {
            AlertLevel::Emergency => "\u{26a0}\u{fe0f}",
            AlertLevel::Critical => "\u{1f534}",
            AlertLevel::Warning => "\u{26a1}",
            AlertLevel::Info => "\u{2139}\u{fe0f}",
        };
        let title = Self::escape_xml(alert.title.as_str());
        let message = Self::escape_xml(alert.message.as_str());
        let id = Self::escape_xml(alert.id.as_str());
        let mut xml = String::from_str(TOAST_OPEN);
        xml.append(scenario);
        xml.append(TOAST_DURATION);
        xml.append(duration);
        xml.append(TOAST_VISUAL);
        xml.append(icon);
        xml.append(" ");
        xml.append(title.as_str());
        xml.append(TOAST_NEXT_LINE);
        xml.append(message.as_str());
        xml.append(TOAST_NEXT_LINE);
        xml.append(TOAST_ID_LABEL);
        xml.append(id.as_str());
        xml.append(TOAST_ACTIONS);
        if alert.requires_confirmation {
            xml.append(TOAST_CONFIRM);
        }
        xml.append(TOAST_CLOSE);
        xml
    }

    /// Escape XML special characters.
    pub fn escape_xml(s: &str) -> (out: String)
        ensures
            out@ == escaped(s@),
    {
        let mut out = String::new();
        for c in iter: s.chars()
            invariant
                iter.seq() == s@,
                out@ == escaped(s@.take(iter.index())),
        {
            proof {
                assert(s@.take(iter.index() + 1).drop_last() =~= s@.take(iter.index()));
            }
            if c == '&' {
                out.append("&amp;");
            } else if c == '<' {
                out.append("&lt;");
            } else if c == '>' {
                out.append("&gt;");
            } else if c == '"' {
                out.append("&quot;");
            } else if c == '\'' {
                out.append("&apos;");
            } else {
                push_char(&mut out, c);
            }
        }
        proof {
            assert(s@.take(s@.len() as int) =~= s@);
        }
        out
    }
}

} // verus!
