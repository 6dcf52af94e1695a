//! Playback orchestration for a streaming music client: the queue model,
//! the cache layout, the position clock and the player's state machine.

pub mod cache;
pub mod download;
pub mod player;
pub mod simple_cache;
pub mod sink;
pub mod text;
pub mod timer;
pub mod track;
pub mod tracklist;

use vstd::prelude::*;

verus! {

/// The status that the user intends playback to have.
#[derive(Debug, Clone, Copy, PartialEq, Eq, Structural)]
pub enum Status {
    Playing,
    Buffering,
    Paused,
}

impl Default for Status {
    fn default() -> (r: Status)
        ensures
            r == Status::Paused,
    {
        Status::Paused
    }
}

/// A user-visible message sent to every subscriber.
#[derive(Debug, Clone)]
pub enum Notification {
    Error(String),
    Warning(String),
    Success(String),
    Info(String),
}

} // verus!
