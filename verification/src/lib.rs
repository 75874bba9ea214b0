//! Connection-resilience and confirmation-tracking core of a resident alert
//! agent.
//!
//! The agent keeps a connection to an alert server, presents the alerts that
//! arrive and reports back their confirmation. This library holds what the
//! agent decides; the program around it does the work on the network, the
//! clock, the sound card and the desktop.
//!
//! - [`messages`], [`time`]: the data that travels.
//! - [`codec`], [`json`]: its wire form.
//! - [`registry`]: the alerts that await confirmation, with their timeout.
//! - [`handler`]: what to present for an alert, and its bookkeeping.
//! - [`session`]: one connection attempt, with its heartbeats.
//! - [`reconnect`], [`client`]: the attempts that follow one another, forever.
//! - [`notification`], [`audio`], [`config`]: what the presentation and the
//!   startup need to know.
//! - [`server`]: the other side of the protocol, for a test server.

pub mod audio;
pub mod client;
pub mod codec;
pub mod config;
pub mod handler;
pub mod json;
pub mod messages;
pub mod notification;
pub mod reconnect;
pub mod registry;
pub mod server;
pub mod session;
pub mod text;
pub mod time;
