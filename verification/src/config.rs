//! Process configuration and its defaults.

use vstd::prelude::*;

verus! {

/// The server to connect to where none is configured.
pub const DEFAULT_SERVER_URL: &'static str = "ws://localhost:8080/ws";

/// The directory of sound files where none is configured.
pub const DEFAULT_SOUNDS_DIR: &'static str = "./sounds";

/// What the agent is configured with.
#[derive(Debug, PartialEq, Eq)]
pub struct Config {
    pub server_url: String,
    pub client_id: String,
    pub sounds_dir: String,
}

/// What a [`Config`] holds.
pub struct ConfigView {
    pub server_url: Seq<char>,
    pub client_id: Seq<char>,
    pub sounds_dir: Seq<char>,
}

impl View for Config {
    type V = ConfigView;

    open spec fn view(&self) -> ConfigView {
        ConfigView {
            server_url: self.server_url@,
            client_id: self.client_id@,
            sounds_dir: self.sounds_dir@,
        }
    }
}

/// A configured value, or its default.
pub open spec fn value_or(configured: Option<String>, default: Seq<char>) -> Seq<char> {
    match configured {
        Some(value) => value@,
        None => default,
    }
}

impl Config {
    /// The configuration that results from what the environment sets: each
    /// value as set, else its default. `fresh_id` is the client identifier to
    /// use where none is set; the caller generates it.
    pub fn from_values(
        server_url: Option<String>,
        client_id: Option<String>,
        sounds_dir: Option<String>,
        fresh_id: String,
    ) -> (config: Config)
        ensures
            config@ == (ConfigView {
                server_url: value_or(server_url, DEFAULT_SERVER_URL@),
                client_id: value_or(client_id, fresh_id@),
                sounds_dir: value_or(sounds_dir, DEFAULT_SOUNDS_DIR@),
            }),
    {
        Config {
            server_url: match server_url {
                Some(url) => url,
                None => String::from_str(DEFAULT_SERVER_URL),
            },
            client_id: match client_id {
                Some(id) => id,
                None => fresh_id,
            },
            sounds_dir: match sounds_dir {
                Some(dir) => dir,
                None => String::from_str(DEFAULT_SOUNDS_DIR),
            },
        }
    }
}

} // verus!
