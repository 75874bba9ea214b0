//! One connection attempt, as a state machine.
//!
//! ```text
//! Connecting --connected--> Registered --written--> Active
//!      |                        |                     |
//!      +------------------------+---------------------+--close frame, stream end--> Closed
//!      +------------------------+---------------------+--transport error----------> Failed
//! ```
//!
//! The machine decides; its caller does the transport work. The caller hands
//! in what happened as a [`SessionEvent`] and carries out the
//! [`SessionAction`] that comes back. `Closed` and `Failed` end the attempt:
//! the machine does nothing more, and a new attempt is a new [`Session`].

use crate::codec::{
    decode, decode_spec, encode, encode_spec, heartbeat_frame, heartbeat_frame_spec,
    register_frame, register_frame_spec, DecodeError,
};
use crate::messages::{Alert, AlertView, Confirmation, ConfirmationView, Message, MessageView};
use vstd::prelude::*;

verus! {

/// Milliseconds between two heartbeats of an active session.
pub const HEARTBEAT_INTERVAL_MS: u64 = 30_000;

/// Where a connection attempt stands.
#[derive(Debug, Clone, Copy, PartialEq, Eq, Structural)]
pub enum SessionState {
    /// The transport handshake is under way.
    Connecting,
    /// The handshake succeeded and the register frame is being written.
    Registered,
    /// Frames flow both ways and heartbeats are due.
    Active,
    /// The peer closed the connection or the inbound stream ended.
    Closed,
    /// The transport failed.
    Failed,
}

/// How a connection attempt ended.
#[derive(Debug, PartialEq, Eq)]
pub enum SessionOutcome {
    /// Normal termination.
    Closed,
    /// Abnormal termination, with the cause as the transport gave it.
    Failed { cause: String },
}

/// What a [`SessionOutcome`] holds.
pub enum SessionOutcomeView {
    Closed,
    Failed { cause: Seq<char> },
}

impl View for SessionOutcome {
    type V = SessionOutcomeView;

    open spec fn view(&self) -> SessionOutcomeView {
        match self {
            SessionOutcome::Closed => SessionOutcomeView::Closed,
            SessionOutcome::Failed { cause } => SessionOutcomeView::Failed { cause: cause@ },
        }
    }
}

/// What happened on the transport, on the outbound queue or on the clock.
#[derive(Debug, PartialEq, Eq)]
pub enum SessionEvent {
    /// The transport handshake succeeded.
    Connected,
    /// A frame that the session asked to send was written; `now_ms` is the
    /// reading of a monotonic clock in milliseconds.
    Written { now_ms: u64 },
    /// A text frame arrived.
    Text { text: String },
    /// A frame that is neither text nor close arrived.
    OtherFrame,
    /// The peer sent a close frame.
    CloseFrame,
    /// The inbound stream ended.
    StreamEnded,
    /// Connecting, reading or writing failed.
    TransportError { cause: String },
    /// A confirmation was taken from the outbound queue.
    Outbound { confirmation: Confirmation },
    /// The clock was read: `now_ms` on the clock of `Written`.
    Tick { now_ms: u64 },
}

/// What a [`SessionEvent`] holds.
pub enum SessionEventView {
    Connected,
    Written { now_ms: u64 },
    Text { text: Seq<char> },
    OtherFrame,
    CloseFrame,
    StreamEnded,
    TransportError { cause: Seq<char> },
    Outbound { confirmation: ConfirmationView },
    Tick { now_ms: u64 },
}

impl View for SessionEvent {
    type V = SessionEventView;

    open spec fn view(&self) -> SessionEventView {
        match self {
            SessionEvent::Connected => SessionEventView::Connected,
            SessionEvent::Written { now_ms } => SessionEventView::Written { now_ms: *now_ms },
            SessionEvent::Text { text } => SessionEventView::Text { text: text@ },
            SessionEvent::OtherFrame => SessionEventView::OtherFrame,
            SessionEvent::CloseFrame => SessionEventView::CloseFrame,
            SessionEvent::StreamEnded => SessionEventView::StreamEnded,
            SessionEvent::TransportError { cause } => SessionEventView::TransportError {
                cause: cause@,
            },
            SessionEvent::Outbound { confirmation } => SessionEventView::Outbound {
                confirmation: confirmation@,
            },
            SessionEvent::Tick { now_ms } => SessionEventView::Tick { now_ms: *now_ms },
        }
    }
}

/// Something worth a line in the log that changes nothing.
#[derive(Debug, Clone, Copy, PartialEq, Eq, Structural)]
pub enum SessionNote {
    /// The server sent a heartbeat.
    HeartbeatReceived,
    /// The server sent a message that only a client sends.
    UnexpectedMessage,
    /// The server sent a message of a type that the protocol does not know.
    UnknownMessage,
    /// An inbound frame could not be read and was dropped.
    MalformedFrame { error: DecodeError },
    /// A confirmation carries an instant without wire text and was not sent.
    UnsendableConfirmation,
}

/// What the caller is to do next.
#[derive(Debug, PartialEq, Eq)]
pub enum SessionAction {
    /// Nothing: wait for the next event.
    Wait,
    /// Write this text frame.
    Send { frame: String },
    /// Hand this alert to the dispatcher.
    Deliver { alert: Alert },
    /// Log this.
    Note { note: SessionNote },
    /// The attempt is over: hand control back to the supervisor.
    End { outcome: SessionOutcome },
}

/// What a [`SessionAction`] holds.
pub enum SessionActionView {
    Wait,
    Send { frame: Seq<char> },
    Deliver { alert: AlertView },
    Note { note: SessionNote },
    End { outcome: SessionOutcomeView },
}

impl View for SessionAction {
    type V = SessionActionView;

    open spec fn view(&self) -> SessionActionView {
        match self {
            SessionAction::Wait => SessionActionView::Wait,
            SessionAction::Send { frame } => SessionActionView::Send { frame: frame@ },
            SessionAction::Deliver { alert } => SessionActionView::Deliver { alert: alert@ },
            SessionAction::Note { note } => SessionActionView::Note { note: *note },
            SessionAction::End { outcome } => SessionActionView::End { outcome: outcome@ },
        }
    }
}

/// A session as the transition function sees it.
pub struct SessionModel {
    pub state: SessionState,
    pub client_id: Seq<char>,
    pub hostname: Seq<char>,
    /// The clock reading at which the session became active.
    pub active_since_ms: u64,
    /// Heartbeats sent since then.
    pub heartbeats_sent: u64,
}

/// Heartbeats that an active session owes once `elapsed_ms` have passed since
/// it became active: one for every full interval.
pub open spec fn heartbeats_due(elapsed_ms: int) -> int {
    elapsed_ms / (HEARTBEAT_INTERVAL_MS as int)
}

/// Milliseconds from `since_ms` to `now_ms`, none if the clock reads earlier.
pub open spec fn elapsed_ms(since_ms: u64, now_ms: u64) -> int {
    if now_ms >= since_ms {
        now_ms - since_ms
    } else {
        0
    }
}

/// What an inbound text frame asks for: an alert is delivered, everything
/// else is noted, and a frame that cannot be read is noted and dropped.
pub open spec fn inbound_action(text: Seq<char>) -> SessionActionView {
    match decode_spec(text) {
        Ok(MessageView::Alert { alert }) => SessionActionView::Deliver { alert },
        Ok(MessageView::Heartbeat) => SessionActionView::Note {
            note: SessionNote::HeartbeatReceived,
        },
        Ok(MessageView::Register { .. }) => SessionActionView::Note {
            note: SessionNote::UnexpectedMessage,
        },
        Ok(MessageView::Confirmation { .. }) => SessionActionView::Note {
            note: SessionNote::UnexpectedMessage,
        },
        Ok(MessageView::Unknown) => SessionActionView::Note { note: SessionNote::UnknownMessage },
        Err(error) => SessionActionView::Note { note: SessionNote::MalformedFrame { error } },
    }
}

/// What a confirmation from the outbound queue asks for: its frame is sent,
/// unless it has none.
pub open spec fn outbound_action(confirmation: ConfirmationView) -> SessionActionView {
    match encode_spec(MessageView::Confirmation { confirmation }) {
        Some(frame) => SessionActionView::Send { frame },
        None => SessionActionView::Note { note: SessionNote::UnsendableConfirmation },
    }
}

impl SessionModel {
    /// Whether the attempt is over.
    pub open spec fn finished(self) -> bool {
        self.state == SessionState::Closed || self.state == SessionState::Failed
    }

    /// The session in another state.
    pub open spec fn in_state(self, state: SessionState) -> SessionModel {
        SessionModel { state, ..self }
    }

    /// The session and the action after an event.
    pub open spec fn next(self, event: SessionEventView) -> (SessionModel, SessionActionView) {
        if self.finished() {
            (self, SessionActionView::Wait)
        } else {
            match event {
                SessionEventView::TransportError { cause } => (
                    self.in_state(SessionState::Failed),
                    SessionActionView::End { outcome: SessionOutcomeView::Failed { cause } },
                ),
                SessionEventView::CloseFrame | SessionEventView::StreamEnded => (
                    self.in_state(SessionState::Closed),
                    SessionActionView::End { outcome: SessionOutcomeView::Closed },
                ),
                SessionEventView::Connected => if self.state == SessionState::Connecting {
                    (
                        self.in_state(SessionState::Registered),
                        SessionActionView::Send {
                            frame: register_frame_spec(self.client_id, self.hostname),
                        },
                    )
                } else {
                    (self, SessionActionView::Wait)
                },
                SessionEventView::Written { now_ms } => if self.state == SessionState::Registered {
                    (
                        SessionModel {
                            state: SessionState::Active,
                            active_since_ms: now_ms,
                            heartbeats_sent: 0,
                            ..self
                        },
                        SessionActionView::Wait,
                    )
                } else {
                    (self, SessionActionView::Wait)
                },
                SessionEventView::Text { text } => if self.state == SessionState::Active {
                    (self, inbound_action(text))
                } else {
                    (self, SessionActionView::Wait)
                },
                SessionEventView::OtherFrame => (self, SessionActionView::Wait),
                SessionEventView::Outbound { confirmation } => if self.state
                    == SessionState::Active {
                    (self, outbound_action(confirmation))
                } else {
                    (self, SessionActionView::Wait)
                },
                SessionEventView::Tick { now_ms } => if self.state == SessionState::Active
                    && self.heartbeats_sent < heartbeats_due(
                    elapsed_ms(self.active_since_ms, now_ms),
                ) {
                    (
                        SessionModel {
                            heartbeats_sent: (self.heartbeats_sent + 1) as u64,
                            ..self
                        },
                        SessionActionView::Send { frame: heartbeat_frame_spec() },
                    )
                } else {
                    (self, SessionActionView::Wait)
                },
            }
        }
    }
}

/// One connection attempt.
#[derive(Debug)]
pub struct Session {
    state: SessionState,
    client_id: String,
    hostname: String,
    active_since_ms: u64,
    heartbeats_sent: u64,
}

impl View for Session {
    type V = SessionModel;

    closed spec fn view(&self) -> SessionModel {
        SessionModel {
            state: self.state,
            client_id: self.client_id@,
            hostname: self.hostname@,
            active_since_ms: self.active_since_ms,
            heartbeats_sent: self.heartbeats_sent,
        }
    }
}

/// Decides what an inbound text frame asks for.
pub fn handle_server_message(text: &str) -> (action: SessionAction)
    ensures
        action@ == inbound_action(text@),
{
    match decode(text) {
        Ok(Message::Alert { alert }) => SessionAction::Deliver { alert },
        Ok(Message::Heartbeat) => SessionAction::Note { note: SessionNote::HeartbeatReceived },
        Ok(Message::Register { .. }) => SessionAction::Note {
            note: SessionNote::UnexpectedMessage,
        },
        Ok(Message::Confirmation { .. }) => SessionAction::Note {
            note: SessionNote::UnexpectedMessage,
        },
        Ok(Message::Unknown) => SessionAction::Note { note: SessionNote::UnknownMessage },
        Err(error) => SessionAction::Note { note: SessionNote::MalformedFrame { error } },
    }
}

/// Decides what a confirmation from the outbound queue asks for.
pub fn handle_outbound(confirmation: Confirmation) -> (action: SessionAction)
    ensures
        action@ == outbound_action(confirmation@),
{
    let message = Message::Confirmation { confirmation };
    match encode(&message) {
        Ok(frame) => SessionAction::Send { frame },
        Err(_) => SessionAction::Note { note: SessionNote::UnsendableConfirmation },
    }
}

impl Session {
    /// A new attempt for the client `client_id` on `hostname`, about to
    /// connect.
    pub fn new(client_id: String, hostname: String) -> (session: Session)
        ensures
            session@ == (SessionModel {
                state: SessionState::Connecting,
                client_id: client_id@,
                hostname: hostname@,
                active_since_ms: 0,
                heartbeats_sent: 0,
            }),
    {
        Session {
            state: SessionState::Connecting,
            client_id,
            hostname,
            active_since_ms: 0,
            heartbeats_sent: 0,
        }
    }

    pub fn state(&self) -> (state: SessionState)
        ensures
            state == self@.state,
    {
        self.state
    }

    /// Whether the attempt is over.
    pub fn is_finished(&self) -> (finished: bool)
        ensures
            finished == self@.finished(),
    {
        match self.state {
            SessionState::Closed | SessionState::Failed => true,
            _ => false,
        }
    }

    /// Heartbeats sent since the session became active.
    pub fn heartbeats_sent(&self) -> (sent: u64)
        ensures
            sent == self@.heartbeats_sent,
    {
        self.heartbeats_sent
    }

    /// Whether a heartbeat is owed at `now_ms`.
    pub fn heartbeat_due(&self, now_ms: u64) -> (due: bool)
        ensures
            due == (self@.state == SessionState::Active && self@.heartbeats_sent < heartbeats_due(
                elapsed_ms(self@.active_since_ms, now_ms),
            )),
    {
        match self.state {
            SessionState::Active => {
                let elapsed: u64 = if now_ms >= self.active_since_ms {
                    now_ms - self.active_since_ms
                } else {
                    0
                };
                self.heartbeats_sent < elapsed / HEARTBEAT_INTERVAL_MS
            },
            _ => false,
        }
    }

    /// The first clock reading at which the next heartbeat is owed: the end
    /// of the next full interval. `None` while the session is not active, and
    /// where that reading lies beyond what the clock can show.
    pub fn next_heartbeat_ms(&self) -> (at: Option<u64>)
        ensures
            match at {
                Some(ms) => {
                    &&& self@.state == SessionState::Active
                    &&& ms == self@.active_since_ms + (self@.heartbeats_sent + 1)
                        * HEARTBEAT_INTERVAL_MS
                    &&& forall|now_ms: u64|
                        now_ms >= ms <==> self@.heartbeats_sent < #[trigger] heartbeats_due(
                            elapsed_ms(self@.active_since_ms, now_ms),
                        )
                },
                None => self@.state != SessionState::Active || self@.active_since_ms + (
                self@.heartbeats_sent + 1) * HEARTBEAT_INTERVAL_MS > u64::MAX,
            },
    {
        match self.state {
            SessionState::Active => {
                let intervals = match self.heartbeats_sent.checked_add(1) {
                    Some(n) => n,
                    None => { return None; },
                };
                let wait = match intervals.checked_mul(HEARTBEAT_INTERVAL_MS) {
                    Some(ms) => ms,
                    None => { return None; },
                };
                let at = self.active_since_ms.checked_add(wait);
                proof {
                    if at is Some {
                        let since = self.active_since_ms;
                        let sent = self.heartbeats_sent;
                        assert forall|now_ms: u64|
                            now_ms >= at->0 <==> sent < #[trigger] heartbeats_due(
                                elapsed_ms(since, now_ms),
                            ) by {
                            lemma_due_after(sent as int, elapsed_ms(since, now_ms));
                        }
                    }
                }
                at
            },
            _ => None,
        }
    }

    /// Takes one event and says what to do about it.
    pub fn step(&mut self, event: SessionEvent) -> (action: SessionAction)
        ensures
            (final(self)@, action@) == old(self)@.next(event@),
    {
        if self.is_finished() {
            return SessionAction::Wait;
        }
        match event {
            SessionEvent::TransportError { cause } => {
                self.state = SessionState::Failed;
                SessionAction::End { outcome: SessionOutcome::Failed { cause } }
            },
            SessionEvent::CloseFrame | SessionEvent::StreamEnded => {
                self.state = SessionState::Closed;
                SessionAction::End { outcome: SessionOutcome::Closed }
            },
            SessionEvent::Connected => match self.state {
                SessionState::Connecting => {
                    self.state = SessionState::Registered;
                    SessionAction::Send {
                        frame: register_frame(self.client_id.as_str(), self.hostname.as_str()),
                    }
                },
                _ => SessionAction::Wait,
            },
            SessionEvent::Written { now_ms } => match self.state {
                SessionState::Registered => {
                    self.state = SessionState::Active;
                    self.active_since_ms = now_ms;
                    self.heartbeats_sent = 0;
                    SessionAction::Wait
                },
                _ => SessionAction::Wait,
            },
            SessionEvent::Text { text } => match self.state {
                SessionState::Active => handle_server_message(text.as_str()),
                _ => SessionAction::Wait,
            },
            SessionEvent::OtherFrame => SessionAction::Wait,
            SessionEvent::Outbound { confirmation } => match self.state {
                SessionState::Active => handle_outbound(confirmation),
                _ => SessionAction::Wait,
            },
            SessionEvent::Tick { now_ms } => {
                if self.heartbeat_due(now_ms) {
                    self.heartbeats_sent = self.heartbeats_sent + 1;
                    SessionAction::Send { frame: heartbeat_frame() }
                } else {
                    SessionAction::Wait
                }
            },
        }
    }
}

/// More than `sent` heartbeats are due exactly when `sent + 1` full
/// intervals have passed.
proof fn lemma_due_after(sent: int, elapsed: int)
    requires
        0 <= sent,
        0 <= elapsed,
    ensures
        sent < heartbeats_due(elapsed) <==> (sent + 1) * HEARTBEAT_INTERVAL_MS <= elapsed,
{
    let interval = HEARTBEAT_INTERVAL_MS as int;
    let due = elapsed / interval;
    assert(elapsed == interval * due + elapsed % interval && 0 <= elapsed % interval < interval)
        by (nonlinear_arith)
        requires
            interval == 30_000,
            due == elapsed / interval,
    ;
    if sent < due {
        assert((sent + 1) * interval <= due * interval) by (nonlinear_arith)
            requires
                sent + 1 <= due,
                interval > 0,
        ;
    } else {
        assert(due * interval <= sent * interval) by (nonlinear_arith)
            requires
                due <= sent,
                interval > 0,
        ;
    }
}

/// The session after `count` clock readings of `now_ms` in a row.
pub open spec fn after_ticks(model: SessionModel, now_ms: u64, count: nat) -> SessionModel
    decreases count,
{
    if count == 0 {
        model
    } else {
        after_ticks(model, now_ms, (count - 1) as nat).next(SessionEventView::Tick { now_ms }).0
    }
}

/// An inbound text frame never ends an active session, whatever it holds: the
/// session is the same afterwards, so the frames that follow are handled as
/// if the frame had not come. A frame that cannot be read is noted with its
/// error and nothing else happens.
pub proof fn lemma_inbound_frame_keeps_session(model: SessionModel, text: Seq<char>)
    requires
        model.state == SessionState::Active,
    ensures
        model.next(SessionEventView::Text { text }).0 == model,
        model.next(SessionEventView::Text { text }).1 == inbound_action(text),
        decode_spec(text) is Err ==> model.next(SessionEventView::Text { text }).1
            == (SessionActionView::Note {
            note: SessionNote::MalformedFrame { error: decode_spec(text)->Err_0 },
        }),
        forall|following: SessionEventView|
            model.next(SessionEventView::Text { text }).0.next(following) == model.next(following),
{
}

/// Heartbeats are strictly periodic: an active session that reads the clock
/// `count` times at `now_ms` sends one heartbeat per reading until it has
/// sent one for every full interval since it became active, and none after
/// that. Nothing else about the session changes.
pub proof fn lemma_heartbeats_follow_the_clock(model: SessionModel, now_ms: u64, count: nat)
    requires
        model.state == SessionState::Active,
    ensures
        ({
            let due = heartbeats_due(elapsed_ms(model.active_since_ms, now_ms));
            let after = after_ticks(model, now_ms, count);
            &&& after.state == SessionState::Active
            &&& after.active_since_ms == model.active_since_ms
            &&& after.client_id == model.client_id
            &&& after.hostname == model.hostname
            &&& after.heartbeats_sent == if model.heartbeats_sent + count <= due {
                model.heartbeats_sent + count
            } else if model.heartbeats_sent <= due {
                due
            } else {
                model.heartbeats_sent as int
            }
        }),
    decreases count,
{
    if count > 0 {
        lemma_heartbeats_follow_the_clock(model, now_ms, (count - 1) as nat);
    }
}

} // verus!
