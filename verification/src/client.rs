//! The client's identity towards the server, and the attempts it makes.

use crate::codec::register_frame_spec;
use crate::session::{
    Session, SessionActionView, SessionEventView, SessionModel, SessionState,
};
use vstd::prelude::*;

verus! {

/// The name that stands for a host or user that could not be looked up.
pub const UNKNOWN_NAME: &'static str = "unknown";

/// Connects to one server as one client.
#[derive(Debug)]
pub struct WebSocketClient {
    server_url: String,
    client_id: String,
    hostname: String,
}

/// What a [`WebSocketClient`] holds.
pub struct WebSocketClientView {
    pub server_url: Seq<char>,
    pub client_id: Seq<char>,
    pub hostname: Seq<char>,
}

impl View for WebSocketClient {
    type V = WebSocketClientView;

    closed spec fn view(&self) -> WebSocketClientView {
        WebSocketClientView {
            server_url: self.server_url@,
            client_id: self.client_id@,
            hostname: self.hostname@,
        }
    }
}

impl WebSocketClientView {
    /// A fresh attempt of this client.
    pub open spec fn attempt(self) -> SessionModel {
        SessionModel {
            state: SessionState::Connecting,
            client_id: self.client_id,
            hostname: self.hostname,
            active_since_ms: 0,
            heartbeats_sent: 0,
        }
    }
}

impl WebSocketClient {
    pub fn new(server_url: String, client_id: String, hostname: String) -> (client:
        WebSocketClient)
        ensures
            client@ == (WebSocketClientView {
                server_url: server_url@,
                client_id: client_id@,
                hostname: hostname@,
            }),
    {
        WebSocketClient { server_url, client_id, hostname }
    }

    pub fn server_url(&self) -> (url: &str)
        ensures
            url@ == self@.server_url,
    {
        self.server_url.as_str()
    }

    pub fn client_id(&self) -> (id: &str)
        ensures
            id@ == self@.client_id,
    {
        self.client_id.as_str()
    }

    pub fn hostname(&self) -> (name: &str)
        ensures
            name@ == self@.hostname,
    {
        self.hostname.as_str()
    }

    /// A new connection attempt. Nothing of an earlier attempt lives on in
    /// it but the client's identity.
    pub fn session(&self) -> (session: Session)
        ensures
            session@ == self@.attempt(),
    {
        Session::new(self.client_id.clone(), self.hostname.clone())
    }
}

/// `hostname::get`, with the name as text where it is valid Unicode.
///
/// Trusted: nothing. The name is the machine's.
#[verifier::external_body]
fn system_hostname() -> (name: Option<String>) {
    hostname::get().ok().and_then(|name| name.into_string().ok())
}

/// A name that was looked up, or `unknown` where the lookup failed.
pub fn name_or_unknown(looked_up: Option<String>) -> (name: String)
    ensures
        name@ == match looked_up {
            Some(found) => found@,
            None => UNKNOWN_NAME@,
        },
{
    match looked_up {
        Some(found) => found,
        None => String::from_str(UNKNOWN_NAME),
    }
}

/// Get the hostname of the machine, `unknown` where it cannot be had.
pub fn get_hostname() -> (name: String) {
    name_or_unknown(system_hostname())
}

/// Every attempt of a client opens in the same way: once connected, the
/// first thing it does is to send the register frame with the client's own
/// identifier and host name, whatever happened to the attempts before it.
pub proof fn lemma_every_attempt_registers(client: WebSocketClientView)
    ensures
        client.attempt().next(SessionEventView::Connected).1 == (SessionActionView::Send {
            frame: register_frame_spec(client.client_id, client.hostname),
        }),
        client.attempt().next(SessionEventView::Connected).0.state == SessionState::Registered,
{
}

} // verus!
