//! One backend node: fixed identity and connection target, the connection
//! lifecycle state machine with bounded reconnection, the per-guild player
//! and pending-handshake maps, the last stats snapshot, and the command
//! API. Commands and lifecycle steps are pure state transitions; each
//! command returns the encoded frame for the caller to write to the
//! node's connection.

use vstd::prelude::*;
use std::collections::HashMap;
use crate::builder::NodeBuilder;
use crate::codec::{
    destroy_frame, equalizer_frame, pause_chars, play_chars, seek_chars, stop_frame,
    voice_update_chars, volume_chars, Band, Codes, Equalize, Event, Pause, Play, Seek,
    VoiceUpdate, Volume,
};
use crate::error::{AndelinkError, AndelinkResult};
use crate::gateway::{EventType, Stats};
use crate::half_update::HalfVoiceUpdate;
use crate::play_parameters::PlayParameters;
use crate::player::Player;
use crate::text::{dec_digits, dec_u64, push_dec_u64, str_eq};
use crate::track::{QueuedTrack, Track, TrackInfo};

verus! {

broadcast use vstd::std_specs::hash::group_hash_axioms;

/// How many seconds the lifecycle waits between connection attempts.
pub const RECONNECT_BACKOFF_SECS: u64 = 5;

/// The connection lifecycle state of a node.
///
/// `Disconnected -> Connecting -> Connected -> Disconnected` loops for the
/// node's whole lifetime; `Terminated` is final and reached only when the
/// maximum number of consecutive connection attempts fails.
#[derive(Clone, Copy, PartialEq, Eq, Structural, Debug)]
pub enum ConnState {
    Disconnected,
    Connecting,
    Connected,
    Terminated,
}

/// What the lifecycle should do after a failed connection attempt: wait
/// and try again, or give the node up for good.
#[derive(Clone, Copy, PartialEq, Eq, Structural, Debug)]
pub enum ConnectStep {
    Retry { backoff_secs: u64 },
    GiveUp,
}

/// The three pieces a voice session needs before it can be established;
/// an empty string stands for a missing piece.
#[derive(Debug)]
pub struct ConnectionInfo {
    pub token: String,
    pub endpoint: String,
    pub session_id: String,
}

/// One backend node.
#[derive(Debug)]
pub struct UniversalNode {
    /// Base URL of the node's REST endpoint.
    pub rest: String,
    /// URL of the node's streaming control channel.
    pub socket: String,
    /// Shared secret sent on the connection upgrade and on REST calls.
    pub pass: String,
    /// Shard count announced to the node.
    pub shards: u64,
    /// The client's own identity id.
    pub id: u64,
    /// Registry id assigned by the cluster.
    pub node_id: u8,
    /// Where in the connection lifecycle this node stands. A writable
    /// connection exists exactly while this is `Connected`.
    pub conn_state: ConnState,
    /// Number of the current connection attempt, starting at 1; reset to 1
    /// by every successful connection.
    pub attempt: u8,
    /// Per-guild playback state; an entry exists only for guilds with an
    /// active session.
    pub players: HashMap<u64, Player>,
    /// Per-guild pending half of the voice handshake.
    pub waiting: HashMap<u64, HalfVoiceUpdate>,
    /// The most recent stats snapshot, once one arrived.
    pub stats: Option<Stats>,
}

/// The REST base URL for a node configuration.
pub open spec fn rest_url_chars(ssl: bool, host: Seq<char>, port: u16) -> Seq<char> {
    (if ssl {
        "https://"@
    } else {
        "http://"@
    }) + host + ":"@ + dec_digits(port as nat)
}

/// The streaming-channel URL for a node configuration.
pub open spec fn socket_url_chars(ssl: bool, host: Seq<char>, port: u16) -> Seq<char> {
    (if ssl {
        "wss://"@
    } else {
        "ws://"@
    }) + host + ":"@ + dec_digits(port as nat)
}

/// What the lifecycle decides after one failed connection attempt with
/// the given (1-based) attempt number: once the counter passes the
/// ceiling, the node terminates, otherwise it goes back to `Disconnected`
/// to retry.
pub open spec fn retry_decision(attempt: int, max_attempts: int) -> ConnState {
    if attempt + 1 > max_attempts {
        ConnState::Terminated
    } else {
        ConnState::Disconnected
    }
}

/// The (state, attempt-number) pair after `k` further consecutive failed
/// attempts, starting from a node about to make attempt `s.1`.
pub open spec fn after_failures(s: (ConnState, int), k: nat, max_attempts: int) -> (ConnState, int)
    decreases k,
{
    if k == 0 {
        s
    } else {
        let prev = after_failures(s, (k - 1) as nat, max_attempts);
        (retry_decision(prev.1, max_attempts), prev.1 + 1)
    }
}

/// A node that starts its first attempt with a full retry budget and
/// fails `max_attempts` times in a row is terminated -- and only then:
/// every earlier failure leaves it in `Disconnected`, ready to retry.
/// Termination removes it from every registry view, since a terminated
/// node is never `Connected`.
pub proof fn lemma_reconnect_exhaustion(k: nat, max_attempts: int)
    requires
        1 <= k,
        k <= max_attempts,
    ensures
        after_failures((ConnState::Connecting, 1), k, max_attempts).1 == 1 + k,
        k == max_attempts ==> after_failures(
            (ConnState::Connecting, 1),
            k,
            max_attempts,
        ).0 is Terminated,
        k < max_attempts ==> after_failures(
            (ConnState::Connecting, 1),
            k,
            max_attempts,
        ).0 is Disconnected,
        !(after_failures((ConnState::Connecting, 1), k, max_attempts).0 is Connected),
    decreases k,
{
    reveal_with_fuel(after_failures, 2);
    if k > 1 {
        lemma_reconnect_exhaustion((k - 1) as nat, max_attempts);
    }
}

impl UniversalNode {
    /// Whether this node currently holds a live, writable connection.
    pub open spec fn connected(&self) -> bool {
        self.conn_state is Connected
    }

    /// The executable counterpart of `connected`.
    pub fn is_connected(&self) -> (r: bool)
        ensures
            r == self.connected(),
    {
        self.conn_state == ConnState::Connected
    }

    /// The fixed identity and configuration of a node, which no operation
    /// changes.
    pub open spec fn same_identity(&self, other: &UniversalNode) -> bool {
        &&& self.rest == other.rest
        &&& self.socket == other.socket
        &&& self.pass == other.pass
        &&& self.shards == other.shards
        &&& self.id == other.id
        &&& self.node_id == other.node_id
    }

    /// The per-guild session state of a node: players, pending handshake
    /// halves, and the stats snapshot.
    pub open spec fn same_sessions(&self, other: &UniversalNode) -> bool {
        &&& self.players@ == other.players@
        &&& self.waiting@ == other.waiting@
        &&& self.stats == other.stats
    }

    /// The connection lifecycle position of a node.
    pub open spec fn same_lifecycle(&self, other: &UniversalNode) -> bool {
        &&& self.conn_state == other.conn_state
        &&& self.attempt == other.attempt
    }

    /// Whether this node is a fresh build of the given configuration:
    /// disconnected with a full retry budget, no sessions, no pending
    /// handshakes, no stats.
    pub open spec fn fresh_from(&self, b: NodeBuilder, node_id: u8) -> bool {
        &&& self.rest@ == rest_url_chars(b.ssl, b.host@, b.port)
        &&& self.socket@ == socket_url_chars(b.ssl, b.host@, b.port)
        &&& self.pass == b.pass
        &&& self.shards == b.shards
        &&& self.id == b.id->0
        &&& self.node_id == node_id
        &&& self.conn_state is Disconnected
        &&& self.attempt == 1
        &&& self.players@ == Map::<u64, Player>::empty()
        &&& self.waiting@ == Map::<u64, HalfVoiceUpdate>::empty()
        &&& self.stats is None
    }

    /// Builds a node from its configuration, in the disconnected state.
    pub fn new(builder: NodeBuilder, node_id: u8) -> (r: UniversalNode)
        requires
            builder.id is Some,
        ensures
            r.fresh_from(builder, node_id),
    {
        let mut rest = String::new();
        let mut socket = String::new();
        if builder.ssl {
            rest.append("https://");
            socket.append("wss://");
        } else {
            rest.append("http://");
            socket.append("ws://");
        }
        rest.append(builder.host.as_str());
        rest.append(":");
        push_dec_u64(&mut rest, builder.port as u64);
        socket.append(builder.host.as_str());
        socket.append(":");
        push_dec_u64(&mut socket, builder.port as u64);
        proof {
            assert(rest@ =~= rest_url_chars(builder.ssl, builder.host@, builder.port));
            assert(socket@ =~= socket_url_chars(builder.ssl, builder.host@, builder.port));
        }
        let id = match builder.id {
            Some(id) => id,
            None => 0,
        };
        UniversalNode {
            rest,
            socket,
            pass: builder.pass,
            shards: builder.shards,
            id,
            node_id,
            conn_state: ConnState::Disconnected,
            attempt: 1,
            players: HashMap::new(),
            waiting: HashMap::new(),
            stats: None,
        }
    }

    /// Starts one connection attempt: `Disconnected -> Connecting`. The
    /// caller performs the transport connect and reports the outcome
    /// through `connect_succeeded` or `connect_failed`.
    pub fn begin_connect(&mut self)
        requires
            old(self).conn_state is Disconnected,
        ensures
            final(self).conn_state is Connecting,
            final(self).attempt == old(self).attempt,
            final(self).same_identity(old(self)),
            final(self).same_sessions(old(self)),
    {
        self.conn_state = ConnState::Connecting;
    }

    /// Records a successful connection handshake: `Connecting ->
    /// Connected`, and the attempt counter returns to 1, so only
    /// consecutive failures ever count toward the ceiling.
    pub fn connect_succeeded(&mut self)
        requires
            old(self).conn_state is Connecting,
        ensures
            final(self).conn_state is Connected,
            final(self).attempt == 1,
            final(self).same_identity(old(self)),
            final(self).same_sessions(old(self)),
    {
        self.conn_state = ConnState::Connected;
        self.attempt = 1;
    }

    /// Records a failed connection handshake. The attempt counter grows by
    /// one; once it passes the ceiling the node is terminated for good,
    /// otherwise the caller should wait the backoff interval and retry.
    pub fn connect_failed(&mut self, max_attempts: u8) -> (step: ConnectStep)
        requires
            old(self).conn_state is Connecting,
            old(self).attempt <= max_attempts,
            old(self).attempt < u8::MAX,
        ensures
            final(self).conn_state == retry_decision(
                old(self).attempt as int,
                max_attempts as int,
            ),
            final(self).attempt == old(self).attempt + 1,
            (final(self).conn_state, final(self).attempt as int) == after_failures(
                (old(self).conn_state, old(self).attempt as int),
                1,
                max_attempts as int,
            ),
            step == if final(self).conn_state is Terminated {
                ConnectStep::GiveUp
            } else {
                ConnectStep::Retry { backoff_secs: RECONNECT_BACKOFF_SECS }
            },
            final(self).same_identity(old(self)),
            final(self).same_sessions(old(self)),
    {
        proof {
            reveal_with_fuel(after_failures, 2);
        }
        self.attempt = self.attempt + 1;
        if self.attempt > max_attempts {
            self.conn_state = ConnState::Terminated;
            ConnectStep::GiveUp
        } else {
            self.conn_state = ConnState::Disconnected;
            ConnectStep::Retry { backoff_secs: RECONNECT_BACKOFF_SECS }
        }
    }

    /// Records that the read side of an established connection ended:
    /// `Connected -> Disconnected`, with the retry budget restored. The
    /// session state stays; only the registry stops routing to this node
    /// while it reconnects.
    pub fn connection_lost(&mut self)
        requires
            old(self).conn_state is Connected,
        ensures
            final(self).conn_state is Disconnected,
            final(self).attempt == 1,
            final(self).same_identity(old(self)),
            final(self).same_sessions(old(self)),
    {
        self.conn_state = ConnState::Disconnected;
        self.attempt = 1;
    }

    /// The volume a request is clamped to: the range 0 to 1000.
    pub open spec fn clamped_volume(v: u16) -> u16 {
        if v > 1000 {
            1000
        } else {
            v
        }
    }

    /// Takes the head of the guild's queue -- without removing it; only a
    /// completed track removes its entry -- makes it the playing track,
    /// and returns the play command for it.
    ///
    /// The head is made the playing track even when the frame cannot be
    /// sent for want of a connection.
    pub fn play_next(&mut self, guild_id: u64) -> (r: AndelinkResult<String>)
        requires
            old(self).players@.contains_key(guild_id) ==> old(self).players@[guild_id].queue@.len()
                > 0,
        ensures
            final(self).same_identity(old(self)),
            final(self).same_lifecycle(old(self)),
            final(self).waiting@ == old(self).waiting@,
            final(self).stats == old(self).stats,
            !old(self).players@.contains_key(guild_id) ==> {
                &&& r == Err::<String, AndelinkError>(AndelinkError::PlayerNotFound)
                &&& final(self).players@ == old(self).players@
            },
            old(self).players@.contains_key(guild_id) ==> {
                let p = old(self).players@[guild_id];
                &&& final(self).players@ == old(self).players@.insert(
                    guild_id,
                    Player {
                        guild: p.guild,
                        now_playing: Some(p.queue@[0]),
                        paused: p.paused,
                        volume: p.volume,
                        queue: p.queue,
                    },
                )
                &&& old(self).connected() ==> (r matches Ok(f) && f@ == play_chars(
                    guild_id,
                    p.queue@[0].track.track@,
                    false,
                    p.queue@[0].start_time,
                    p.queue@[0].end_time,
                ))
                &&& !old(self).connected() ==> r == Err::<String, AndelinkError>(
                    AndelinkError::NoWebsocket,
                )
            },
    {
        match self.players.remove(&guild_id) {
            Some(mut p) => {
                let head = p.queue[0].clone();
                let track_str = head.track.track.clone();
                let start_time = head.start_time;
                let end_time = head.end_time;
                p.now_playing = Some(head);
                self.players.insert(guild_id, p);
                proof {
                    let q = old(self).players@[guild_id];
                    assert(self.players@ =~= old(self).players@.insert(
                        guild_id,
                        Player {
                            guild: q.guild,
                            now_playing: Some(q.queue@[0]),
                            paused: q.paused,
                            volume: q.volume,
                            queue: q.queue,
                        },
                    ));
                }
                if self.conn_state == ConnState::Connected {
                    let payload = Play {
                        track: track_str,
                        no_replace: false,
                        start_time,
                        end_time,
                    };
                    Ok(Codes::Play(payload).encode(guild_id))
                } else {
                    Err(AndelinkError::NoWebsocket)
                }
            },
            None => Err(AndelinkError::PlayerNotFound),
        }
    }

    /// Establishes a voice session for the guild from a completed
    /// handshake: inserts a fresh, idle player for the guild (replacing
    /// any previous one) and returns the session-establish frame. A
    /// missing connection or an empty handshake field fails, in that
    /// order of checks, and changes nothing.
    pub fn create_session(&mut self, guild_id: u64, conn_info: &ConnectionInfo) -> (r:
        AndelinkResult<String>)
        ensures
            final(self).same_identity(old(self)),
            final(self).same_lifecycle(old(self)),
            final(self).waiting@ == old(self).waiting@,
            final(self).stats == old(self).stats,
            !old(self).connected() ==> {
                &&& r == Err::<String, AndelinkError>(AndelinkError::NoWebsocket)
                &&& final(self).players@ == old(self).players@
            },
            old(self).connected() && conn_info.token@.len() == 0 ==> {
                &&& r == Err::<String, AndelinkError>(AndelinkError::MissingHandlerToken)
                &&& final(self).players@ == old(self).players@
            },
            old(self).connected() && conn_info.token@.len() > 0 && conn_info.endpoint@.len() == 0
                ==> {
                &&& r == Err::<String, AndelinkError>(AndelinkError::MissingHandlerEndpoint)
                &&& final(self).players@ == old(self).players@
            },
            old(self).connected() && conn_info.token@.len() > 0 && conn_info.endpoint@.len() > 0
                && conn_info.session_id@.len() == 0 ==> {
                &&& r == Err::<String, AndelinkError>(AndelinkError::MissingHandlerSessionId)
                &&& final(self).players@ == old(self).players@
            },
            old(self).connected() && conn_info.token@.len() > 0 && conn_info.endpoint@.len() > 0
                && conn_info.session_id@.len() > 0 ==> {
                &&& final(self).players@.contains_key(guild_id)
                &&& final(self).players@[guild_id].is_idle()
                &&& !final(self).players@[guild_id].paused
                &&& final(self).players@[guild_id].volume == 100
                &&& final(self).players@.remove(guild_id) == old(self).players@.remove(guild_id)
                &&& (r matches Ok(f) && f@ == voice_update_chars(
                    guild_id,
                    conn_info.session_id@,
                    conn_info.token@,
                    conn_info.endpoint@,
                    dec_digits(guild_id as nat),
                ))
            },
    {
        if !(self.conn_state == ConnState::Connected) {
            return Err(AndelinkError::NoWebsocket);
        }
        if conn_info.token.as_str().is_empty() {
            return Err(AndelinkError::MissingHandlerToken);
        }
        if conn_info.endpoint.as_str().is_empty() {
            return Err(AndelinkError::MissingHandlerEndpoint);
        }
        if conn_info.session_id.as_str().is_empty() {
            return Err(AndelinkError::MissingHandlerSessionId);
        }
        self.players.insert(guild_id, Player::default());
        proof {
            assert(self.players@.remove(guild_id) =~= old(self).players@.remove(guild_id));
        }
        let payload = VoiceUpdate {
            session_id: conn_info.session_id.clone(),
            event: Event {
                token: conn_info.token.clone(),
                endpoint: conn_info.endpoint.clone(),
                guild_id: dec_u64(guild_id),
            },
        };
        Ok(Codes::VoiceUpdate(payload).encode(guild_id))
    }

    /// Tears the guild's session down: deletes the player entry, if any,
    /// and returns the destroy frame. Without a connection nothing
    /// changes.
    pub fn destroy(&mut self, guild_id: u64) -> (r: AndelinkResult<String>)
        ensures
            final(self).same_identity(old(self)),
            final(self).same_lifecycle(old(self)),
            final(self).waiting@ == old(self).waiting@,
            final(self).stats == old(self).stats,
            !old(self).connected() ==> {
                &&& r == Err::<String, AndelinkError>(AndelinkError::NoWebsocket)
                &&& final(self).players@ == old(self).players@
            },
            old(self).connected() ==> {
                &&& final(self).players@ == old(self).players@.remove(guild_id)
                &&& (r matches Ok(f) && f@ == destroy_frame(guild_id))
            },
    {
        if !(self.conn_state == ConnState::Connected) {
            return Err(AndelinkError::NoWebsocket);
        }
        let _ = self.players.remove(&guild_id);
        Ok(Codes::Destroy.encode(guild_id))
    }

    /// The stop command for a guild, touching no state.
    pub fn stop(&self, guild_id: u64) -> (r: AndelinkResult<String>)
        ensures
            self.connected() ==> (r matches Ok(f) && f@ == stop_frame(guild_id)),
            !self.connected() ==> r == Err::<String, AndelinkError>(AndelinkError::NoWebsocket),
    {
        if !(self.conn_state == ConnState::Connected) {
            return Err(AndelinkError::NoWebsocket);
        }
        Ok(Codes::Stop.encode(guild_id))
    }

    /// Skips the playing track. With an empty queue there is nothing to
    /// skip; with exactly one queued track it is removed and a stop
    /// command issued; with more, the head is removed and the new head is
    /// played. Returns the removed track together with the frame to send.
    pub fn skip(&mut self, guild_id: u64) -> (r: AndelinkResult<Option<(QueuedTrack, String)>>)
        ensures
            final(self).same_identity(old(self)),
            final(self).same_lifecycle(old(self)),
            final(self).waiting@ == old(self).waiting@,
            final(self).stats == old(self).stats,
            !old(self).players@.contains_key(guild_id) ==> {
                &&& r == Err::<Option<(QueuedTrack, String)>, AndelinkError>(
                    AndelinkError::PlayerNotFound,
                )
                &&& final(self).players@ == old(self).players@
            },
            old(self).players@.contains_key(guild_id) ==> {
                let p = old(self).players@[guild_id];
                &&& final(self).players@.contains_key(guild_id)
                &&& final(self).players@.remove(guild_id) == old(self).players@.remove(guild_id)
                &&& final(self).players@[guild_id].guild == p.guild
                &&& final(self).players@[guild_id].paused == p.paused
                &&& final(self).players@[guild_id].volume == p.volume
                &&& p.queue@.len() == 0 ==> {
                    &&& final(self).players@[guild_id].now_playing is None
                    &&& final(self).players@[guild_id].queue@ == p.queue@
                    &&& r == Ok::<Option<(QueuedTrack, String)>, AndelinkError>(None)
                }
                &&& p.queue@.len() > 0 ==> {
                    &&& final(self).players@[guild_id].queue@ == p.queue@.drop_first()
                    &&& final(self).players@[guild_id].now_playing == (if p.queue@.len() >= 2 {
                        Some(p.queue@[1])
                    } else {
                        None::<QueuedTrack>
                    })
                    &&& !old(self).connected() ==> r == Err::<
                        Option<(QueuedTrack, String)>,
                        AndelinkError,
                    >(AndelinkError::NoWebsocket)
                    &&& (old(self).connected() && p.queue@.len() == 1) ==> (r matches Ok(
                        Some((q, f)),
                    ) && q == p.queue@[0] && f@ == stop_frame(guild_id))
                    &&& (old(self).connected() && p.queue@.len() >= 2) ==> (r matches Ok(
                        Some((q, f)),
                    ) && q == p.queue@[0] && f@ == play_chars(
                        guild_id,
                        p.queue@[1].track.track@,
                        false,
                        p.queue@[1].start_time,
                        p.queue@[1].end_time,
                    ))
                }
            },
    {
        match self.players.remove(&guild_id) {
            None => Err(AndelinkError::PlayerNotFound),
            Some(mut p) => {
                p.now_playing = None;
                if p.queue.len() == 0 {
                    self.players.insert(guild_id, p);
                    proof {
                        assert(self.players@.remove(guild_id) =~= old(self).players@.remove(
                            guild_id,
                        ));
                    }
                    Ok(None)
                } else if p.queue.len() == 1 {
                    let removed = p.queue.remove(0);
                    self.players.insert(guild_id, p);
                    proof {
                        assert(self.players@.remove(guild_id) =~= old(self).players@.remove(
                            guild_id,
                        ));
                    }
                    if self.conn_state == ConnState::Connected {
                        Ok(Some((removed, Codes::Stop.encode(guild_id))))
                    } else {
                        Err(AndelinkError::NoWebsocket)
                    }
                } else {
                    let removed = p.queue.remove(0);
                    self.players.insert(guild_id, p);
                    let next = self.play_next(guild_id);
                    proof {
                        assert(self.players@.remove(guild_id) =~= old(self).players@.remove(
                            guild_id,
                        ));
                    }
                    match next {
                        Ok(f) => Ok(Some((removed, f))),
                        Err(e) => Err(e),
                    }
                }
            },
        }
    }

    /// The pause (or resume) command for a guild, touching no state: the
    /// server is the source of truth for the pause flag once it
    /// acknowledges.
    pub fn set_pause(&self, guild_id: u64, pause: bool) -> (r: AndelinkResult<String>)
        ensures
            self.connected() ==> (r matches Ok(f) && f@ == pause_chars(guild_id, pause)),
            !self.connected() ==> r == Err::<String, AndelinkError>(AndelinkError::NoWebsocket),
    {
        if !(self.conn_state == ConnState::Connected) {
            return Err(AndelinkError::NoWebsocket);
        }
        Ok(Codes::Pause(Pause { pause }).encode(guild_id))
    }

    /// The pause command for a guild.
    pub fn pause(&self, guild_id: u64) -> (r: AndelinkResult<String>)
        ensures
            self.connected() ==> (r matches Ok(f) && f@ == pause_chars(guild_id, true)),
            !self.connected() ==> r == Err::<String, AndelinkError>(AndelinkError::NoWebsocket),
    {
        self.set_pause(guild_id, true)
    }

    /// The resume command for a guild.
    pub fn resume(&self, guild_id: u64) -> (r: AndelinkResult<String>)
        ensures
            self.connected() ==> (r matches Ok(f) && f@ == pause_chars(guild_id, false)),
            !self.connected() ==> r == Err::<String, AndelinkError>(AndelinkError::NoWebsocket),
    {
        self.set_pause(guild_id, false)
    }

    /// The seek command for a guild, to a position in milliseconds,
    /// touching no state.
    pub fn seek(&self, guild_id: u64, position_ms: u64) -> (r: AndelinkResult<String>)
        ensures
            self.connected() ==> (r matches Ok(f) && f@ == seek_chars(guild_id, position_ms)),
            !self.connected() ==> r == Err::<String, AndelinkError>(AndelinkError::NoWebsocket),
    {
        if !(self.conn_state == ConnState::Connected) {
            return Err(AndelinkError::NoWebsocket);
        }
        Ok(Codes::Seek(Seek { position: position_ms }).encode(guild_id))
    }

    /// The volume command for a guild. Whatever is requested, the frame
    /// carries a volume clamped to the range 0 to 1000.
    pub fn volume(&self, guild_id: u64, volume: u16) -> (r: AndelinkResult<String>)
        ensures
            self.connected() ==> (r matches Ok(f) && f@ == volume_chars(
                guild_id,
                Self::clamped_volume(volume),
            )),
            !self.connected() ==> r == Err::<String, AndelinkError>(AndelinkError::NoWebsocket),
    {
        if !(self.conn_state == ConnState::Connected) {
            return Err(AndelinkError::NoWebsocket);
        }
        let good_volume = if volume > 1000 {
            1000
        } else {
            volume
        };
        Ok(Codes::Volume(Volume { volume: good_volume }).encode(guild_id))
    }

    /// The equalizer command setting all fifteen bands, gains given in
    /// thousandths, touching no state.
    pub fn equalize_all(&self, guild_id: u64, gains_milli: [i32; 15]) -> (r: AndelinkResult<
        String,
    >)
        ensures
            self.connected() ==> (r matches Ok(f) && f@ == equalizer_frame(
                guild_id,
                Seq::new(15, |i: int| Band { band: i as u8, gain_milli: gains_milli@[i] }),
            )),
            !self.connected() ==> r == Err::<String, AndelinkError>(AndelinkError::NoWebsocket),
    {
        if !(self.conn_state == ConnState::Connected) {
            return Err(AndelinkError::NoWebsocket);
        }
        let ghost target = Seq::new(
            15,
            |i: int| Band { band: i as u8, gain_milli: gains_milli@[i] },
        );
        let mut bands: Vec<Band> = Vec::new();
        let mut i: usize = 0;
        while i < 15
            invariant
                target == Seq::new(
                    15,
                    |j: int| Band { band: j as u8, gain_milli: gains_milli@[j] },
                ),
                i <= 15,
                bands@ == target.subrange(0, i as int),
            decreases 15 - i,
        {
            bands.push(Band { band: i as u8, gain_milli: gains_milli[i] });
            proof {
                assert(target[i as int] == Band {
                    band: i as u8,
                    gain_milli: gains_milli@[i as int],
                });
                assert(bands@ =~= target.subrange(0, i as int + 1));
            }
            i = i + 1;
        }
        proof {
            assert(bands@ =~= target);
        }
        Ok(Codes::Equalize(Equalize { bands }).encode(guild_id))
    }

    /// The equalizer command for one band, touching no state.
    pub fn equalize_band(&self, guild_id: u64, band: Band) -> (r: AndelinkResult<String>)
        ensures
            self.connected() ==> (r matches Ok(f) && f@ == equalizer_frame(guild_id, seq![band])),
            !self.connected() ==> r == Err::<String, AndelinkError>(AndelinkError::NoWebsocket),
    {
        if !(self.conn_state == ConnState::Connected) {
            return Err(AndelinkError::NoWebsocket);
        }
        let mut bands: Vec<Band> = Vec::new();
        bands.push(band);
        proof {
            assert(bands@ =~= seq![band]);
        }
        Ok(Codes::Equalize(Equalize { bands }).encode(guild_id))
    }

    /// The equalizer command restoring every band to a gain of zero,
    /// touching no state.
    pub fn equalize_reset(&self, guild_id: u64) -> (r: AndelinkResult<String>)
        ensures
            self.connected() ==> (r matches Ok(f) && f@ == equalizer_frame(
                guild_id,
                Seq::new(15, |i: int| Band { band: i as u8, gain_milli: 0 }),
            )),
            !self.connected() ==> r == Err::<String, AndelinkError>(AndelinkError::NoWebsocket),
    {
        if !(self.conn_state == ConnState::Connected) {
            return Err(AndelinkError::NoWebsocket);
        }
        let ghost target = Seq::new(15, |i: int| Band { band: i as u8, gain_milli: 0 });
        let mut bands: Vec<Band> = Vec::new();
        let mut i: usize = 0;
        while i < 15
            invariant
                target == Seq::new(15, |j: int| Band { band: j as u8, gain_milli: 0 }),
                i <= 15,
                bands@ == target.subrange(0, i as int),
            decreases 15 - i,
        {
            bands.push(Band { band: i as u8, gain_milli: 0 });
            proof {
                assert(target[i as int] == Band { band: i as u8, gain_milli: 0 });
                assert(bands@ =~= target.subrange(0, i as int + 1));
            }
            i = i + 1;
        }
        proof {
            assert(bands@ =~= target);
        }
        Ok(Codes::Equalize(Equalize { bands }).encode(guild_id))
    }
}

/// The player as a reported playback position leaves it: when a track is
/// playing and carries metadata, its position is overwritten; otherwise
/// nothing changes.
pub open spec fn player_with_position(p: Player, position: u64) -> Player {
    match p.now_playing {
        Some(qt) => match qt.track.info {
            Some(info) => Player {
                guild: p.guild,
                now_playing: Some(
                    QueuedTrack {
                        track: Track {
                            track: qt.track.track,
                            info: Some(
                                TrackInfo {
                                    identifier: info.identifier,
                                    is_seekable: info.is_seekable,
                                    author: info.author,
                                    length: info.length,
                                    is_stream: info.is_stream,
                                    position,
                                    title: info.title,
                                    uri: info.uri,
                                },
                            ),
                        },
                        start_time: qt.start_time,
                        end_time: qt.end_time,
                        requester: qt.requester,
                        channel: qt.channel,
                    },
                ),
                paused: p.paused,
                volume: p.volume,
                queue: p.queue,
            },
            None => p,
        },
        None => p,
    }
}

impl UniversalNode {
    /// Applies one classified inbound event to the node's state, before
    /// the event is dispatched to the handler, and returns the play frame
    /// for the queue advance when one is owed.
    ///
    /// Stats frames replace the snapshot. Player updates overwrite the
    /// playing track's reported position. A track end with reason
    /// `FINISHED` removes the head of that guild's queue and, if the
    /// queue stays nonempty, advances to the new head; any other reason
    /// leaves the queue untouched. Track starts and socket closures pass
    /// through untouched. A failure to send the advance (no connection)
    /// is swallowed, as the read loop's resilience demands.
    pub fn apply_event(&mut self, event: &EventType) -> (r: Option<String>)
        requires
            match *event {
                EventType::TrackFinish(ref tf) => (tf.reason@ == "FINISHED"@ && old(
                    self,
                ).players@.contains_key(tf.guild_id)) ==> old(self).players@[tf.guild_id].queue@.len()
                    > 0,
                _ => true,
            },
        ensures
            final(self).same_identity(old(self)),
            final(self).same_lifecycle(old(self)),
            final(self).waiting@ == old(self).waiting@,
            match *event {
                EventType::Stats(ref s) => {
                    &&& final(self).stats == Some(*s)
                    &&& final(self).players@ == old(self).players@
                    &&& r is None
                },
                EventType::PlayerUpdate(ref u) => {
                    &&& final(self).stats == old(self).stats
                    &&& final(self).players@ == (if old(self).players@.contains_key(u.guild_id) {
                        old(self).players@.insert(
                            u.guild_id,
                            player_with_position(
                                old(self).players@[u.guild_id],
                                u.state.position,
                            ),
                        )
                    } else {
                        old(self).players@
                    })
                    &&& r is None
                },
                EventType::TrackFinish(ref tf) => {
                    &&& final(self).stats == old(self).stats
                    &&& (tf.reason@ != "FINISHED"@ || !old(self).players@.contains_key(
                        tf.guild_id,
                    )) ==> {
                        &&& final(self).players@ == old(self).players@
                        &&& r is None
                    }
                    &&& (tf.reason@ == "FINISHED"@ && old(self).players@.contains_key(tf.guild_id))
                        ==> {
                        let p = old(self).players@[tf.guild_id];
                        &&& final(self).players@.contains_key(tf.guild_id)
                        &&& final(self).players@.remove(tf.guild_id) == old(
                            self,
                        ).players@.remove(tf.guild_id)
                        &&& final(self).players@[tf.guild_id].guild == p.guild
                        &&& final(self).players@[tf.guild_id].paused == p.paused
                        &&& final(self).players@[tf.guild_id].volume == p.volume
                        &&& final(self).players@[tf.guild_id].queue@ == p.queue@.drop_first()
                        &&& final(self).players@[tf.guild_id].now_playing == (if p.queue@.len()
                            >= 2 {
                            Some(p.queue@[1])
                        } else {
                            None::<QueuedTrack>
                        })
                        &&& (p.queue@.len() >= 2 && old(self).connected()) ==> (r matches Some(f)
                            && f@ == play_chars(
                            tf.guild_id,
                            p.queue@[1].track.track@,
                            false,
                            p.queue@[1].start_time,
                            p.queue@[1].end_time,
                        ))
                        &&& !(p.queue@.len() >= 2 && old(self).connected()) ==> r is None
                    }
                },
                EventType::TrackStart(_) => {
                    &&& final(self).same_sessions(old(self))
                    &&& r is None
                },
                EventType::WebSocketClosed(_) => {
                    &&& final(self).same_sessions(old(self))
                    &&& r is None
                },
            },
    {
        match event {
            EventType::Stats(s) => {
                self.stats = Some(s.clone());
                None
            },
            EventType::PlayerUpdate(u) => {
                match self.players.remove(&u.guild_id) {
                    Some(mut p) => {
                        if let Some(qt) = &mut p.now_playing {
                            if let Some(info) = &mut qt.track.info {
                                info.position = u.state.position;
                            }
                        }
                        self.players.insert(u.guild_id, p);
                        proof {
                            assert(self.players@ =~= old(self).players@.insert(
                                u.guild_id,
                                player_with_position(
                                    old(self).players@[u.guild_id],
                                    u.state.position,
                                ),
                            ));
                        }
                    },
                    None => {},
                }
                None
            },
            EventType::TrackFinish(tf) => {
                if !str_eq(tf.reason.as_str(), "FINISHED") {
                    return None;
                }
                match self.players.remove(&tf.guild_id) {
                    Some(mut p) => {
                        let _ = p.queue.remove(0);
                        p.now_playing = None;
                        let should_play_next = p.queue.len() >= 1;
                        self.players.insert(tf.guild_id, p);
                        if should_play_next {
                            match self.play_next(tf.guild_id) {
                                Ok(f) => {
                                    proof {
                                        assert(self.players@.remove(tf.guild_id)
                                            =~= old(self).players@.remove(tf.guild_id));
                                    }
                                    Some(f)
                                },
                                Err(_) => {
                                    // the advance could not be sent; the read
                                    // loop swallows this and carries on
                                    proof {
                                        assert(self.players@.remove(tf.guild_id)
                                            =~= old(self).players@.remove(tf.guild_id));
                                    }
                                    None
                                },
                            }
                        } else {
                            proof {
                                assert(self.players@.remove(tf.guild_id) =~= old(
                                    self,
                                ).players@.remove(tf.guild_id));
                            }
                            None
                        }
                    },
                    None => None,
                }
            },
            EventType::TrackStart(_) => None,
            EventType::WebSocketClosed(_) => None,
        }
    }

    /// Starts building a play request for one track on one guild.
    pub fn play(&self, guild_id: u64, track: Track) -> (r: PlayParameters)
        ensures
            r == (PlayParameters {
                track,
                replace: false,
                start: 0,
                finish: 0,
                guild_id,
                requester: None,
                channel: None,
            }),
    {
        PlayParameters {
            track,
            replace: false,
            start: 0,
            finish: 0,
            guild_id,
            requester: None,
            channel: None,
        }
    }

    /// Builds one play request per track of a playlist, all aimed at the
    /// same guild, in playlist order.
    pub fn play_playlist(&self, guild: u64, tracks: Vec<Track>) -> (r: Vec<PlayParameters>)
        ensures
            r@.len() == tracks@.len(),
            forall|i: int|
                0 <= i < tracks@.len() ==> r@[i] == (PlayParameters {
                    track: tracks@[i],
                    replace: false,
                    start: 0,
                    finish: 0,
                    guild_id: guild,
                    requester: None,
                    channel: None,
                }),
    {
        let ghost all = tracks@;
        let mut remaining = tracks;
        let mut playlist: Vec<PlayParameters> = Vec::new();
        while remaining.len() > 0
            invariant
                playlist@.len() + remaining@.len() == all.len(),
                remaining@ == all.subrange(playlist@.len() as int, all.len() as int),
                forall|i: int|
                    0 <= i < playlist@.len() ==> playlist@[i] == (PlayParameters {
                        track: all[i],
                        replace: false,
                        start: 0,
                        finish: 0,
                        guild_id: guild,
                        requester: None,
                        channel: None,
                    }),
            decreases remaining@.len(),
        {
            let track = remaining.remove(0);
            playlist.push(self.play(guild, track));
            proof {
                assert(remaining@ =~= all.subrange(playlist@.len() as int, all.len() as int));
            }
        }
        playlist
    }
}

} // verus!
