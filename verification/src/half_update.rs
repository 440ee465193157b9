//! Pairing of the two halves of a voice-session handshake.
//!
//! The two halves -- the server half (token and endpoint) and the state
//! half (session id) -- arrive from two independent, unordered upstream
//! sources. Per guild, the first half to arrive waits; a duplicate of the
//! same variant replaces it (last write wins); the opposite variant
//! completes the pair, clears the pending entry, and produces the
//! session-establish command.

use vstd::prelude::*;
use crate::codec::{voice_update_chars, Codes, Event, VoiceUpdate};
use crate::error::{AndelinkError, ClusterError, ClusterResult};
use crate::node::{ConnState, UniversalNode};
use crate::text::{dec_digits, dec_u64};

verus! {

broadcast use vstd::std_specs::hash::group_hash_axioms;

/// The server half of a voice session: where to connect and with what
/// token. The guild id or the endpoint may be missing.
#[derive(Debug)]
pub struct VoiceServerUpdate {
    pub guild_id: Option<u64>,
    pub token: String,
    pub endpoint: Option<String>,
}

/// The state half of a voice session: which user's session, under which
/// session id.
#[derive(Debug)]
pub struct VoiceState {
    pub guild_id: Option<u64>,
    pub user_id: u64,
    pub session_id: String,
}

/// One half of the voice handshake, as delivered by the upstream gateway.
#[derive(Debug)]
pub enum HalfVoiceUpdate {
    Server(VoiceServerUpdate),
    State(VoiceState),
}

/// The guild a half belongs to, when it names one.
pub open spec fn half_guild(h: HalfVoiceUpdate) -> Option<u64> {
    match h {
        HalfVoiceUpdate::Server(e) => e.guild_id,
        HalfVoiceUpdate::State(e) => e.guild_id,
    }
}

/// Whether user-id filtering drops this half: a state half about some
/// other user's session is not ours to pair.
pub open spec fn half_filtered(h: HalfVoiceUpdate, client_id: u64) -> bool {
    match h {
        HalfVoiceUpdate::Server(_) => false,
        HalfVoiceUpdate::State(e) => e.user_id != client_id,
    }
}

/// Whether two halves are the same variant.
pub open spec fn same_variant(a: HalfVoiceUpdate, b: HalfVoiceUpdate) -> bool {
    (a is Server && b is Server) || (a is State && b is State)
}

/// One step of the per-guild pairing state machine, for a half that
/// passed filtering and names a guild: given the pending entry, returns
/// the new pending entry and whether the pair completed.
pub open spec fn pairing_step(pending: Option<HalfVoiceUpdate>, h: HalfVoiceUpdate) -> (
    Option<HalfVoiceUpdate>,
    bool,
) {
    match pending {
        None => (Some(h), false),
        Some(p) => if same_variant(p, h) {
            (Some(h), false)
        } else {
            (None, true)
        },
    }
}

/// The server half of a completed pair.
pub open spec fn pair_server(a: HalfVoiceUpdate, b: HalfVoiceUpdate) -> VoiceServerUpdate {
    match a {
        HalfVoiceUpdate::Server(s) => s,
        HalfVoiceUpdate::State(_) => match b {
            HalfVoiceUpdate::Server(s) => s,
            HalfVoiceUpdate::State(_) => arbitrary(),
        },
    }
}

/// The state half of a completed pair.
pub open spec fn pair_state(a: HalfVoiceUpdate, b: HalfVoiceUpdate) -> VoiceState {
    match a {
        HalfVoiceUpdate::State(s) => s,
        HalfVoiceUpdate::Server(_) => match b {
            HalfVoiceUpdate::State(s) => s,
            HalfVoiceUpdate::Server(_) => arbitrary(),
        },
    }
}

/// A server half and a state half, in either order, complete the pair on
/// the second arrival -- exactly one session-establish command is owed,
/// and the pending entry is empty afterwards.
pub proof fn lemma_pairing_completes(s: HalfVoiceUpdate, t: HalfVoiceUpdate)
    requires
        !same_variant(s, t),
    ensures
        !pairing_step(None, s).1,
        pairing_step(pairing_step(None, s).0, t).1,
        pairing_step(pairing_step(None, s).0, t).0 is None,
{
}

/// Two halves of the same variant in a row complete nothing: no command
/// is owed, and the pending entry holds the second half.
pub proof fn lemma_pairing_duplicate(s: HalfVoiceUpdate, t: HalfVoiceUpdate)
    requires
        same_variant(s, t),
    ensures
        !pairing_step(None, s).1,
        !pairing_step(pairing_step(None, s).0, t).1,
        pairing_step(pairing_step(None, s).0, t).0 == Some(t),
{
}

impl HalfVoiceUpdate {
    /// Feeds this half into the node's pairing state for its guild.
    ///
    /// State halves about another user, and halves naming no guild, are
    /// ignored. Otherwise the pending entry follows `pairing_step`; when
    /// the pair completes, the combined session-establish frame is
    /// returned -- unless the server half carried no endpoint
    /// (`CannotUpdateVoiceState`) or the node holds no live connection
    /// (`NoWebsocket`); the pending entry is cleared even then.
    pub fn process(self, node: &mut UniversalNode) -> (r: ClusterResult<Option<String>>)
        ensures
            final(node).same_identity(old(node)),
            final(node).same_lifecycle(old(node)),
            final(node).players@ == old(node).players@,
            final(node).stats == old(node).stats,
            (half_filtered(self, old(node).id) || half_guild(self) is None) ==> {
                &&& r == Ok::<Option<String>, ClusterError>(None)
                &&& final(node).waiting@ == old(node).waiting@
            },
            (!half_filtered(self, old(node).id) && half_guild(self) is Some) ==> {
                let g = half_guild(self)->0;
                let prev = if old(node).waiting@.contains_key(g) {
                    Some(old(node).waiting@[g])
                } else {
                    None
                };
                let step = pairing_step(prev, self);
                &&& final(node).waiting@ == (match step.0 {
                    Some(h) => old(node).waiting@.insert(g, h),
                    None => old(node).waiting@.remove(g),
                })
                &&& !step.1 ==> r == Ok::<Option<String>, ClusterError>(None)
                &&& step.1 ==> {
                    let server = pair_server(prev->0, self);
                    let state = pair_state(prev->0, self);
                    match server.endpoint {
                        None => r == Err::<Option<String>, ClusterError>(
                            ClusterError::CannotUpdateVoiceState,
                        ),
                        Some(e) => if old(node).connected() {
                            r matches Ok(Some(f)) && f@ == voice_update_chars(
                                g,
                                state.session_id@,
                                server.token@,
                                e@,
                                dec_digits(g as nat),
                            )
                        } else {
                            r == Err::<Option<String>, ClusterError>(
                                ClusterError::Andelink(AndelinkError::NoWebsocket),
                            )
                        },
                    }
                }
            },
    {
        let guild_id = match &self {
            HalfVoiceUpdate::Server(e) => e.guild_id,
            HalfVoiceUpdate::State(e) => {
                if e.user_id != node.id {
                    return Ok(None);
                }
                e.guild_id
            },
        };
        let guild_id = match guild_id {
            Some(g) => g,
            None => {
                return Ok(None);
            },
        };
        let existing = node.waiting.remove(&guild_id);
        let (server, state) = match existing {
            None => {
                node.waiting.insert(guild_id, self);
                proof {
                    assert(node.waiting@ =~= old(node).waiting@.insert(guild_id, self));
                }
                return Ok(None);
            },
            Some(prev) => match (prev, self) {
                (HalfVoiceUpdate::State(_), HalfVoiceUpdate::State(state)) => {
                    // the same half twice: keep the newer one and go on
                    // waiting for the opposite half
                    node.waiting.insert(guild_id, HalfVoiceUpdate::State(state));
                    proof {
                        assert(node.waiting@ =~= old(node).waiting@.insert(guild_id, self));
                    }
                    return Ok(None);
                },
                (HalfVoiceUpdate::Server(_), HalfVoiceUpdate::Server(server)) => {
                    node.waiting.insert(guild_id, HalfVoiceUpdate::Server(server));
                    proof {
                        assert(node.waiting@ =~= old(node).waiting@.insert(guild_id, self));
                    }
                    return Ok(None);
                },
                (HalfVoiceUpdate::State(state), HalfVoiceUpdate::Server(server)) => (
                    server,
                    state,
                ),
                (HalfVoiceUpdate::Server(server), HalfVoiceUpdate::State(state)) => (
                    server,
                    state,
                ),
            },
        };
        let endpoint = match server.endpoint {
            Some(e) => e,
            None => {
                return Err(ClusterError::CannotUpdateVoiceState);
            },
        };
        if !(node.conn_state == ConnState::Connected) {
            return Err(ClusterError::Andelink(AndelinkError::NoWebsocket));
        }
        let payload = VoiceUpdate {
            session_id: state.session_id,
            event: Event { token: server.token, endpoint, guild_id: dec_u64(guild_id) },
        };
        let frame = Codes::VoiceUpdate(payload).encode(guild_id);
        Ok(Some(frame))
    }
}

} // verus!
