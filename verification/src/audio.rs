//! The sound that announces an alert.
//!
//! Playing a sound is up to the caller. This module holds where the sounds
//! are and decides what to play when a sound file is missing.

use std::path::PathBuf;
use vstd::prelude::*;

verus! {

#[verifier::external_type_specification]
#[verifier::external_body]
pub struct ExPathBuf(std::path::PathBuf);

/// What to play for a sound name.
#[derive(Debug, Clone, Copy, PartialEq, Eq, Structural)]
pub enum Playback {
    /// The file of that name in the sounds directory.
    File,
    /// The beep of the system, in place of a file that is not there.
    SystemBeep,
}

/// Plays the sound files of one directory.
pub struct AudioPlayer {
    sounds_dir: PathBuf,
}

impl AudioPlayer {
    /// The directory that holds the sound files.
    pub closed spec fn directory(&self) -> PathBuf {
        self.sounds_dir
    }

    pub fn new(sounds_dir: PathBuf) -> (player: AudioPlayer)
        ensures
            player.directory() == sounds_dir,
    {
        AudioPlayer { sounds_dir }
    }

    pub fn sounds_dir(&self) -> (dir: &PathBuf)
        ensures
            *dir == self.directory(),
    {
        &self.sounds_dir
    }

    /// Decides what to play for a sound name, given whether its file was
    /// found in the sounds directory: the file if it is there, else the
    /// system beep.
    pub fn playback(&self, file_found: bool) -> (playback: Playback)
        ensures
            playback == if file_found {
                Playback::File
            } else {
                Playback::SystemBeep
            },
    {
        if file_found {
            Playback::File
        } else {
            Playback::SystemBeep
        }
    }
}

} // verus!
