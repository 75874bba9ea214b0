//! The supervisor that keeps one connection attempt running, forever.
//!
//! ```text
//! Idle --wake--> Connecting --connected--> Running
//!   ^                 |                       |
//!   `---- ended ------+------- ended ---------'
//! ```
//!
//! After every attempt, however it ended, the supervisor waits the same fixed
//! delay and starts another. There is no growth of the delay and no last
//! attempt.

use crate::session::{SessionOutcome, SessionOutcomeView};
use vstd::prelude::*;

verus! {

/// Milliseconds between the end of one attempt and the start of the next.
pub const RECONNECT_DELAY_MS: u64 = 5_000;

/// Where the supervisor stands.
#[derive(Debug, Clone, Copy, PartialEq, Eq, Structural)]
pub enum SupervisorState {
    /// No attempt is running: the first has not begun, or the delay after the
    /// last one is running.
    Idle,
    /// An attempt is connecting.
    Connecting,
    /// An attempt is connected and its session loop is running.
    Running,
}

/// What happened to the current attempt, or to the delay.
#[derive(Debug, PartialEq, Eq)]
pub enum SupervisorEvent {
    /// It is time to start an attempt: at startup, or when the delay is over.
    Wake,
    /// The attempt is connected.
    Connected,
    /// The attempt is over.
    Ended { outcome: SessionOutcome },
}

/// What a [`SupervisorEvent`] holds.
pub enum SupervisorEventView {
    Wake,
    Connected,
    Ended { outcome: SessionOutcomeView },
}

impl View for SupervisorEvent {
    type V = SupervisorEventView;

    open spec fn view(&self) -> SupervisorEventView {
        match self {
            SupervisorEvent::Wake => SupervisorEventView::Wake,
            SupervisorEvent::Connected => SupervisorEventView::Connected,
            SupervisorEvent::Ended { outcome } => SupervisorEventView::Ended { outcome: outcome@ },
        }
    }
}

/// What the caller is to do next.
#[derive(Debug, PartialEq, Eq)]
pub enum SupervisorAction {
    /// Nothing.
    Wait,
    /// Start a new attempt: make a session and connect.
    Connect,
    /// Log how the attempt ended, wait `delay_ms`, then wake the supervisor.
    Retry { outcome: SessionOutcome, delay_ms: u64 },
}

/// What a [`SupervisorAction`] holds.
pub enum SupervisorActionView {
    Wait,
    Connect,
    Retry { outcome: SessionOutcomeView, delay_ms: u64 },
}

impl View for SupervisorAction {
    type V = SupervisorActionView;

    open spec fn view(&self) -> SupervisorActionView {
        match self {
            SupervisorAction::Wait => SupervisorActionView::Wait,
            SupervisorAction::Connect => SupervisorActionView::Connect,
            SupervisorAction::Retry { outcome, delay_ms } => SupervisorActionView::Retry {
                outcome: outcome@,
                delay_ms: *delay_ms,
            },
        }
    }
}

/// The supervisor as the transition function sees it.
pub struct SupervisorModel {
    pub state: SupervisorState,
    /// Attempts started so far; the count stops at the largest number it can
    /// hold.
    pub attempts: u64,
}

impl SupervisorModel {
    /// The supervisor and the action after an event.
    pub open spec fn next(self, event: SupervisorEventView) -> (
        SupervisorModel,
        SupervisorActionView,
    ) {
        match (self.state, event) {
            (SupervisorState::Idle, SupervisorEventView::Wake) => (
                SupervisorModel {
                    state: SupervisorState::Connecting,
                    attempts: if self.attempts < u64::MAX {
                        (self.attempts + 1) as u64
                    } else {
                        self.attempts
                    },
                },
                SupervisorActionView::Connect,
            ),
            (SupervisorState::Connecting, SupervisorEventView::Connected) => (
                SupervisorModel { state: SupervisorState::Running, ..self },
                SupervisorActionView::Wait,
            ),
            (SupervisorState::Connecting, SupervisorEventView::Ended { outcome }) => (
                SupervisorModel { state: SupervisorState::Idle, ..self },
                SupervisorActionView::Retry { outcome, delay_ms: RECONNECT_DELAY_MS },
            ),
            (SupervisorState::Running, SupervisorEventView::Ended { outcome }) => (
                SupervisorModel { state: SupervisorState::Idle, ..self },
                SupervisorActionView::Retry { outcome, delay_ms: RECONNECT_DELAY_MS },
            ),
            _ => (self, SupervisorActionView::Wait),
        }
    }
}

/// Supervises connection attempts.
#[derive(Debug)]
pub struct Reconnector {
    state: SupervisorState,
    attempts: u64,
}

impl View for Reconnector {
    type V = SupervisorModel;

    closed spec fn view(&self) -> SupervisorModel {
        SupervisorModel { state: self.state, attempts: self.attempts }
    }
}

impl Reconnector {
    /// A supervisor that has not started an attempt yet.
    pub fn new() -> (supervisor: Reconnector)
        ensures
            supervisor@ == (SupervisorModel { state: SupervisorState::Idle, attempts: 0 }),
    {
        Reconnector { state: SupervisorState::Idle, attempts: 0 }
    }

    pub fn state(&self) -> (state: SupervisorState)
        ensures
            state == self@.state,
    {
        self.state
    }

    /// Attempts started so far.
    pub fn attempts(&self) -> (attempts: u64)
        ensures
            attempts == self@.attempts,
    {
        self.attempts
    }

    /// Takes one event and says what to do about it.
    pub fn step(&mut self, event: SupervisorEvent) -> (action: SupervisorAction)
        ensures
            (final(self)@, action@) == old(self)@.next(event@),
    {
        match event {
            SupervisorEvent::Wake => match self.state {
                SupervisorState::Idle => {
                    self.state = SupervisorState::Connecting;
                    if self.attempts < u64::MAX {
                        self.attempts = self.attempts + 1;
                    }
                    SupervisorAction::Connect
                },
                _ => SupervisorAction::Wait,
            },
            SupervisorEvent::Connected => match self.state {
                SupervisorState::Connecting => {
                    self.state = SupervisorState::Running;
                    SupervisorAction::Wait
                },
                _ => SupervisorAction::Wait,
            },
            SupervisorEvent::Ended { outcome } => match self.state {
                SupervisorState::Idle => SupervisorAction::Wait,
                _ => {
                    self.state = SupervisorState::Idle;
                    SupervisorAction::Retry { outcome, delay_ms: RECONNECT_DELAY_MS }
                },
            },
        }
    }
}

/// The supervisor never gives up: when an attempt ends, however it ended and
/// however many came before, the supervisor asks for the same fixed delay,
/// and when woken after it asks for a new attempt.
pub proof fn lemma_always_reconnects(model: SupervisorModel, outcome: SessionOutcomeView)
    requires
        model.state != SupervisorState::Idle,
    ensures
        model.next(SupervisorEventView::Ended { outcome }).1 == (SupervisorActionView::Retry {
            outcome,
            delay_ms: RECONNECT_DELAY_MS,
        }),
        model.next(SupervisorEventView::Ended { outcome }).0.next(SupervisorEventView::Wake).1
            == SupervisorActionView::Connect,
        model.next(SupervisorEventView::Ended { outcome }).0.next(
            SupervisorEventView::Wake,
        ).0.state == SupervisorState::Connecting,
{
}

} // verus!
