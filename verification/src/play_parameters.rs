//! Builder for playing or enqueuing one track on a guild: the track, its
//! start and finish offsets, whether to replace the playing track, and
//! who asked for it.

use vstd::prelude::*;
use crate::codec::{play_chars, Codes, Play};
use crate::error::{AndelinkError, AndelinkResult};
use crate::node::UniversalNode;
use crate::track::{QueuedTrack, Track, TrackRequester};

verus! {

broadcast use vstd::std_specs::hash::group_hash_axioms;

/// Parameters of one play or enqueue request. A finish offset of 0 means
/// the track's natural end.
#[derive(Debug)]
pub struct PlayParameters {
    pub track: Track,
    pub replace: bool,
    pub start: u64,
    pub finish: u64,
    pub guild_id: u64,
    pub requester: Option<TrackRequester>,
    pub channel: Option<u64>,
}

impl PlayParameters {
    /// The queue entry these parameters describe.
    pub open spec fn queued_track_spec(self) -> QueuedTrack {
        QueuedTrack {
            track: self.track,
            start_time: self.start,
            end_time: if self.finish == 0 {
                None
            } else {
                Some(self.finish)
            },
            requester: self.requester,
            channel: self.channel,
        }
    }

    /// Sets the requester of the track.
    pub fn requester(self, requester: TrackRequester) -> (r: Self)
        ensures
            r == (PlayParameters { requester: Some(requester), ..self }),
    {
        PlayParameters { requester: Some(requester), ..self }
    }

    /// Sets whether the playing track is replaced by this one.
    pub fn replace(self, replace: bool) -> (r: Self)
        ensures
            r == (PlayParameters { replace, ..self }),
    {
        PlayParameters { replace, ..self }
    }

    /// Sets the offset the track starts at, in milliseconds.
    pub fn start_time(self, start_ms: u64) -> (r: Self)
        ensures
            r == (PlayParameters { start: start_ms, ..self }),
    {
        PlayParameters { start: start_ms, ..self }
    }

    /// Sets the offset the track finishes at, in milliseconds.
    pub fn finish_time(self, finish_ms: u64) -> (r: Self)
        ensures
            r == (PlayParameters { finish: finish_ms, ..self }),
    {
        PlayParameters { finish: finish_ms, ..self }
    }

    /// Sets the channel the track was requested from.
    pub fn channel(self, channel: u64) -> (r: Self)
        ensures
            r == (PlayParameters { channel: Some(channel), ..self }),
    {
        PlayParameters { channel: Some(channel), ..self }
    }

    /// Sets the requester of the track, through a mutable reference.
    pub fn requester_ref(&mut self, requester: TrackRequester) -> (ret: &mut Self)
        ensures
            *ret == (PlayParameters { requester: Some(requester), ..*old(self) }),
            *final(self) == *final(ret),
    {
        self.requester = Some(requester);
        self
    }

    /// Sets whether the playing track is replaced, through a mutable
    /// reference.
    pub fn replace_ref(&mut self, replace: bool) -> (ret: &mut Self)
        ensures
            *ret == (PlayParameters { replace, ..*old(self) }),
            *final(self) == *final(ret),
    {
        self.replace = replace;
        self
    }

    /// Sets the start offset in milliseconds, through a mutable reference.
    pub fn start_time_ref(&mut self, start_ms: u64) -> (ret: &mut Self)
        ensures
            *ret == (PlayParameters { start: start_ms, ..*old(self) }),
            *final(self) == *final(ret),
    {
        self.start = start_ms;
        self
    }

    /// Sets the finish offset in milliseconds, through a mutable
    /// reference.
    pub fn finish_time_ref(&mut self, finish_ms: u64) -> (ret: &mut Self)
        ensures
            *ret == (PlayParameters { finish: finish_ms, ..*old(self) }),
            *final(self) == *final(ret),
    {
        self.finish = finish_ms;
        self
    }

    /// Sets the requesting channel, through a mutable reference.
    pub fn channel_ref(&mut self, channel: u64) -> (ret: &mut Self)
        ensures
            *ret == (PlayParameters { channel: Some(channel), ..*old(self) }),
            *final(self) == *final(ret),
    {
        self.channel = Some(channel);
        self
    }

    /// The play command for these parameters, bypassing the queue and
    /// touching no state.
    pub fn start(self, node: &UniversalNode) -> (r: AndelinkResult<String>)
        ensures
            node.connected() ==> (r matches Ok(f) && f@ == play_chars(
                self.guild_id,
                self.track.track@,
                !self.replace,
                self.start,
                if self.finish == 0 {
                    None
                } else {
                    Some(self.finish)
                },
            )),
            !node.connected() ==> r == Err::<String, AndelinkError>(AndelinkError::NoWebsocket),
    {
        if !node.is_connected() {
            return Err(AndelinkError::NoWebsocket);
        }
        let end_time = if self.finish == 0 {
            None
        } else {
            Some(self.finish)
        };
        let payload = Play {
            track: self.track.track,
            no_replace: !self.replace,
            start_time: self.start,
            end_time,
        };
        Ok(Codes::Play(payload).encode(self.guild_id))
    }

    /// Appends the track to its guild's queue. If the guild was idle --
    /// nothing playing and an empty queue at this moment -- the track is
    /// played at once and its play frame returned; onto a busy guild the
    /// track is only queued and no frame is owed.
    pub fn queue(self, node: &mut UniversalNode) -> (r: AndelinkResult<Option<String>>)
        ensures
            final(node).same_identity(old(node)),
            final(node).same_lifecycle(old(node)),
            final(node).waiting@ == old(node).waiting@,
            final(node).stats == old(node).stats,
            !old(node).players@.contains_key(self.guild_id) ==> {
                &&& r == Err::<Option<String>, AndelinkError>(AndelinkError::PlayerNotFound)
                &&& final(node).players@ == old(node).players@
            },
            old(node).players@.contains_key(self.guild_id) ==> {
                let p = old(node).players@[self.guild_id];
                let qt = self.queued_track_spec();
                let started = p.now_playing is None && p.queue@.len() == 0;
                &&& final(node).players@.contains_key(self.guild_id)
                &&& final(node).players@.remove(self.guild_id) == old(node).players@.remove(
                    self.guild_id,
                )
                &&& final(node).players@[self.guild_id].queue@ == p.queue@.push(qt)
                &&& final(node).players@[self.guild_id].guild == p.guild
                &&& final(node).players@[self.guild_id].paused == p.paused
                &&& final(node).players@[self.guild_id].volume == p.volume
                &&& !started ==> {
                    &&& final(node).players@[self.guild_id].now_playing == p.now_playing
                    &&& r == Ok::<Option<String>, AndelinkError>(None)
                }
                &&& started ==> {
                    &&& final(node).players@[self.guild_id].now_playing == Some(qt)
                    &&& old(node).connected() ==> (r matches Ok(Some(f)) && f@ == play_chars(
                        self.guild_id,
                        qt.track.track@,
                        false,
                        qt.start_time,
                        qt.end_time,
                    ))
                    &&& !old(node).connected() ==> r == Err::<Option<String>, AndelinkError>(
                        AndelinkError::NoWebsocket,
                    )
                }
            },
    {
        let guild_id = self.guild_id;
        match node.players.remove(&guild_id) {
            None => Err(AndelinkError::PlayerNotFound),
            Some(mut p) => {
                let should_start = p.now_playing.is_none() && p.queue.len() == 0;
                let end_time = if self.finish == 0 {
                    None
                } else {
                    Some(self.finish)
                };
                let qt = QueuedTrack {
                    track: self.track,
                    start_time: self.start,
                    end_time,
                    requester: self.requester,
                    channel: self.channel,
                };
                p.queue.push(qt);
                node.players.insert(guild_id, p);
                proof {
                    assert(node.players@.remove(guild_id) =~= old(node).players@.remove(guild_id));
                }
                if should_start {
                    match node.play_next(guild_id) {
                        Ok(f) => Ok(Some(f)),
                        Err(e) => Err(e),
                    }
                } else {
                    Ok(None)
                }
            },
        }
    }
}

impl Default for PlayParameters {
    /// Parameters with everything unset: no track, no offsets, no
    /// requester, aimed at no guild.
    fn default() -> (r: Self)
        ensures
            r.track.track@.len() == 0,
            r.track.info is None,
            !r.replace,
            r.start == 0,
            r.finish == 0,
            r.guild_id == 0,
            r.requester is None,
            r.channel is None,
    {
        PlayParameters {
            track: Track { track: String::new(), info: None },
            replace: false,
            start: 0,
            finish: 0,
            guild_id: 0,
            requester: None,
            channel: None,
        }
    }
}

} // verus!
