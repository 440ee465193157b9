//! Per-guild playback state: what is playing now, whether playback is
//! paused, the volume last requested, and the FIFO queue of pending tracks.

use vstd::prelude::*;
use crate::track::QueuedTrack;

verus! {

/// The playback state of one guild on one node. An entry exists only while
/// a session is established for the guild.
#[derive(Debug)]
pub struct Player {
    pub guild: u64,
    pub now_playing: Option<QueuedTrack>,
    pub paused: bool,
    pub volume: u16,
    pub queue: Vec<QueuedTrack>,
}

impl Player {
    /// A guild with a fresh player is idle: nothing playing, an empty
    /// queue, not paused, and the default volume.
    pub open spec fn is_idle(&self) -> bool {
        self.now_playing is None && self.queue@.len() == 0
    }
}

impl Default for Player {
    /// A fresh player: idle, unpaused, at the default volume of 100.
    fn default() -> (r: Self)
        ensures
            r.guild == 0,
            r.now_playing is None,
            !r.paused,
            r.volume == 100,
            r.queue@.len() == 0,
    {
        Player { guild: 0, now_playing: None, paused: false, volume: 100, queue: Vec::new() }
    }
}

} // verus!
