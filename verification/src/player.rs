//! What the session observes of the player.

use vstd::prelude::*;

verus! {

/// The state that the player reports.
#[derive(Debug)]
pub enum PlaybackState {
    Idle,
    Loading,
    Playing,
    Paused,
    Stopped,
    /// The player failed; the message is the player's own.
    Error(String),
}

impl PlaybackState {
    /// Whether the state ends the monitoring of a session.
    pub open spec fn is_terminal(&self) -> bool {
        self is Stopped || self is Error
    }

    /// Whether the tracks of the stream can be discovered in this state: the
    /// player has a stream playing, or holds one paused.
    pub open spec fn tracks_discoverable(&self) -> bool {
        self is Playing || self is Paused
    }

    pub fn terminal(&self) -> (terminal: bool)
        ensures
            terminal == self.is_terminal(),
    {
        match self {
            PlaybackState::Stopped => true,
            PlaybackState::Error(_) => true,
            _ => false,
        }
    }

    pub fn can_discover_tracks(&self) -> (ready: bool)
        ensures
            ready == self.tracks_discoverable(),
    {
        match self {
            PlaybackState::Playing => true,
            PlaybackState::Paused => true,
            _ => false,
        }
    }
}

/// The two commands of the play button.
#[derive(Clone, Copy, Debug, PartialEq, Eq, Structural)]
pub enum TransportCommand {
    Play,
    Pause,
}

/// How a command to the player ended.
#[derive(Clone, Copy, Debug, PartialEq, Eq, Structural)]
pub enum CommandOutcome {
    Succeeded,
    Failed,
}

} // verus!
