//! Inbound event model and classification.
//!
//! Every inbound text frame carries a top-level `op`; frames with op
//! `event` carry a further `type` discriminant. `classify` turns the plain
//! fields extracted from a frame into one of the recognized event kinds,
//! or `None` for unrecognized or incomplete frames, which the
//! forward-compatibility policy silently drops.

use vstd::prelude::*;
use crate::text::str_eq;

verus! {

/// The classification header of an inbound frame.
#[derive(Debug)]
pub struct GatewayEvent {
    pub op: String,
    pub event_type: Option<String>,
}

/// Memory section of a stats frame.
#[derive(Debug, Clone, Copy, PartialEq, Eq, Structural)]
pub struct Memory {
    pub reservable: i64,
    pub used: i64,
    pub free: i64,
    pub allocated: i64,
}

/// Audio frame counters of a stats frame.
#[derive(Debug, Clone, Copy, PartialEq, Eq, Structural)]
pub struct FrameStats {
    pub sent: i64,
    pub deficit: i64,
    pub nulled: i64,
}

/// Processor section of a stats frame. The wire form also carries two
/// floating-point load factors, which this model leaves to the transport
/// layer.
#[derive(Debug, Clone, Copy, PartialEq, Eq, Structural)]
pub struct Cpu {
    pub cores: i64,
}

/// Playback position report inside a player update.
#[derive(Debug, Clone, Copy, PartialEq, Eq, Structural)]
pub struct State {
    pub position: u64,
    pub time: i64,
}

/// Periodic server statistics snapshot.
#[derive(Debug)]
pub struct Stats {
    pub playing_players: i64,
    pub op: String,
    pub memory: Memory,
    pub frame_stats: Option<FrameStats>,
    pub players: i64,
    pub cpu: Cpu,
    pub uptime: i64,
}

/// Per-guild playback position update.
#[derive(Debug)]
pub struct PlayerUpdate {
    pub op: String,
    pub state: State,
    pub guild_id: u64,
}

/// A track began playing on the server.
#[derive(Debug)]
pub struct TrackStart {
    pub op: String,
    pub track_start_type: String,
    pub track: String,
    pub guild_id: u64,
}

/// A track stopped playing on the server, with the reason.
#[derive(Debug)]
pub struct TrackFinish {
    pub op: String,
    pub reason: String,
    pub track_finish_type: String,
    pub track: String,
    pub guild_id: u64,
}

/// The audio websocket between server and voice gateway closed.
#[derive(Debug)]
pub struct WebSocketClosed {
    pub op: String,
    pub event_type: Option<String>,
    pub guild_id: Option<u64>,
    pub code: u16,
    pub reason: String,
    pub by_remote: bool,
}

/// One classified inbound event, ready for state update and dispatch.
#[derive(Debug)]
pub enum EventType {
    Stats(Stats),
    PlayerUpdate(PlayerUpdate),
    TrackStart(TrackStart),
    TrackFinish(TrackFinish),
    WebSocketClosed(WebSocketClosed),
}

/// The plain fields extracted from one inbound frame, before
/// classification. Absent or ill-typed fields are `None`.
#[derive(Debug)]
pub struct RawEvent {
    pub playing_players: Option<i64>,
    pub op: String,
    pub memory: Option<Memory>,
    pub frame_stats: Option<FrameStats>,
    pub players: Option<i64>,
    pub cpu: Option<Cpu>,
    pub uptime: Option<i64>,
    pub state: Option<State>,
    pub guild_id: Option<u64>,
    pub raw_event_type: Option<String>,
    pub track: Option<String>,
    pub reason: Option<String>,
    pub code: Option<u64>,
    pub by_remote: Option<bool>,
}

impl Clone for Stats {
    fn clone(&self) -> (r: Self)
        ensures
            r == *self,
    {
        Stats {
            playing_players: self.playing_players,
            op: self.op.clone(),
            memory: self.memory,
            frame_stats: self.frame_stats,
            players: self.players,
            cpu: self.cpu,
            uptime: self.uptime,
        }
    }
}

/// What `classify` recognizes: the exact case analysis over op, event
/// type, and the fields each event kind requires.
pub open spec fn classify_spec(raw: RawEvent) -> Option<EventType> {
    if raw.op@ == "stats"@ {
        match (raw.memory, raw.cpu, raw.players, raw.playing_players, raw.uptime) {
            (Some(m), Some(c), Some(p), Some(pp), Some(u)) => Some(
                EventType::Stats(
                    Stats {
                        playing_players: pp,
                        op: raw.op,
                        memory: m,
                        frame_stats: raw.frame_stats,
                        players: p,
                        cpu: c,
                        uptime: u,
                    },
                ),
            ),
            _ => None,
        }
    } else if raw.op@ == "playerUpdate"@ {
        match (raw.state, raw.guild_id) {
            (Some(st), Some(g)) => Some(
                EventType::PlayerUpdate(PlayerUpdate { op: raw.op, state: st, guild_id: g }),
            ),
            _ => None,
        }
    } else if raw.op@ == "event"@ {
        match raw.raw_event_type {
            Some(t) => {
                if t@ == "TrackStartEvent"@ {
                    match (raw.track, raw.guild_id) {
                        (Some(tr), Some(g)) => Some(
                            EventType::TrackStart(
                                TrackStart {
                                    op: raw.op,
                                    track_start_type: t,
                                    track: tr,
                                    guild_id: g,
                                },
                            ),
                        ),
                        _ => None,
                    }
                } else if t@ == "TrackEndEvent"@ {
                    match (raw.track, raw.reason, raw.guild_id) {
                        (Some(tr), Some(re), Some(g)) => Some(
                            EventType::TrackFinish(
                                TrackFinish {
                                    op: raw.op,
                                    reason: re,
                                    track_finish_type: t,
                                    track: tr,
                                    guild_id: g,
                                },
                            ),
                        ),
                        _ => None,
                    }
                } else if t@ == "WebSocketClosedEvent"@ {
                    match (raw.code, raw.reason, raw.by_remote) {
                        (Some(co), Some(re), Some(br)) => if co <= u16::MAX {
                            Some(
                                EventType::WebSocketClosed(
                                    WebSocketClosed {
                                        op: raw.op,
                                        event_type: Some(t),
                                        guild_id: raw.guild_id,
                                        code: co as u16,
                                        reason: re,
                                        by_remote: br,
                                    },
                                ),
                            )
                        } else {
                            None
                        },
                        _ => None,
                    }
                } else {
                    None
                }
            },
            None => None,
        }
    } else {
        None
    }
}

/// Classifies the extracted fields of one inbound frame by operation code.
/// Frames of an unrecognized kind, or recognized frames missing a required
/// field, yield `None` and are dropped.
pub fn classify(raw: RawEvent) -> (r: Option<EventType>)
    ensures
        r == classify_spec(raw),
{
    if str_eq(raw.op.as_str(), "stats") {
        match (raw.memory, raw.cpu, raw.players, raw.playing_players, raw.uptime) {
            (Some(m), Some(c), Some(p), Some(pp), Some(u)) => Some(
                EventType::Stats(
                    Stats {
                        playing_players: pp,
                        op: raw.op,
                        memory: m,
                        frame_stats: raw.frame_stats,
                        players: p,
                        cpu: c,
                        uptime: u,
                    },
                ),
            ),
            _ => None,
        }
    } else if str_eq(raw.op.as_str(), "playerUpdate") {
        match (raw.state, raw.guild_id) {
            (Some(st), Some(g)) => Some(
                EventType::PlayerUpdate(PlayerUpdate { op: raw.op, state: st, guild_id: g }),
            ),
            _ => None,
        }
    } else if str_eq(raw.op.as_str(), "event") {
        match raw.raw_event_type {
            Some(t) => {
                if str_eq(t.as_str(), "TrackStartEvent") {
                    match (raw.track, raw.guild_id) {
                        (Some(tr), Some(g)) => Some(
                            EventType::TrackStart(
                                TrackStart {
                                    op: raw.op,
                                    track_start_type: t,
                                    track: tr,
                                    guild_id: g,
                                },
                            ),
                        ),
                        _ => None,
                    }
                } else if str_eq(t.as_str(), "TrackEndEvent") {
                    match (raw.track, raw.reason, raw.guild_id) {
                        (Some(tr), Some(re), Some(g)) => Some(
                            EventType::TrackFinish(
                                TrackFinish {
                                    op: raw.op,
                                    reason: re,
                                    track_finish_type: t,
                                    track: tr,
                                    guild_id: g,
                                },
                            ),
                        ),
                        _ => None,
                    }
                } else if str_eq(t.as_str(), "WebSocketClosedEvent") {
                    match (raw.code, raw.reason, raw.by_remote) {
                        (Some(co), Some(re), Some(br)) => {
                            if co <= 65535 {
                                Some(
                                    EventType::WebSocketClosed(
                                        WebSocketClosed {
                                            op: raw.op,
                                            event_type: Some(t),
                                            guild_id: raw.guild_id,
                                            code: co as u16,
                                            reason: re,
                                            by_remote: br,
                                        },
                                    ),
                                )
                            } else {
                                None
                            }
                        },
                        _ => None,
                    }
                } else {
                    None
                }
            },
            None => None,
        }
    } else {
        None
    }
}

} // verus!
