//! Inbound JSON access.
//!
//! Parsing of inbound text frames goes through `serde_json`. What a field
//! extraction returns is a function of the frame text alone, so each
//! extraction gets a name -- an uninterpreted spec function -- applied by
//! one trusted wrapper; `decode_frame` is then proved, over those names,
//! to return exactly the event `classify_spec` assigns to the extracted
//! fields, and `None` exactly when no recognized frame kind is complete.

use vstd::prelude::*;
use crate::gateway::{
    classify, classify_spec, Cpu, EventType, FrameStats, Memory, RawEvent, State,
};
use crate::text::{digits_val, parse_u64_dec, parses_as_u64};

verus! {

/// The string under `key` of the JSON object `text`, when `text` parses
/// to an object holding a string there.
pub uninterp spec fn field_str_of(text: Seq<char>, key: Seq<char>) -> Option<Seq<char>>;

/// The unsigned integer under `key` of the JSON object `text`.
pub uninterp spec fn field_u64_of(text: Seq<char>, key: Seq<char>) -> Option<u64>;

/// The signed integer under `key` of the JSON object `text`.
pub uninterp spec fn field_i64_of(text: Seq<char>, key: Seq<char>) -> Option<i64>;

/// The boolean under `key` of the JSON object `text`.
pub uninterp spec fn field_bool_of(text: Seq<char>, key: Seq<char>) -> Option<bool>;

/// The unsigned integer under `outer.key` of the JSON object `text`.
pub uninterp spec fn nested_u64_of(text: Seq<char>, outer: Seq<char>, key: Seq<char>) -> Option<
    u64,
>;

/// The signed integer under `outer.key` of the JSON object `text`.
pub uninterp spec fn nested_i64_of(text: Seq<char>, outer: Seq<char>, key: Seq<char>) -> Option<
    i64,
>;

/// Relies on `serde_json::from_str::<Value>`, `Value::get` and
/// `Value::as_str`: reads one string field of a JSON document. The
/// result depends on the text and key alone.
#[verifier::external_body]
fn get_field_str(text: &str, key: &str) -> (r: Option<String>)
    ensures
        (r is Some) == (field_str_of(text@, key@) is Some),
        r matches Some(s) ==> field_str_of(text@, key@) == Some(s@),
{
    let v: serde_json::Value = match serde_json::from_str(text) {
        Ok(v) => v,
        Err(_) => return None,
    };
    match v.get(key) {
        Some(x) => x.as_str().map(str::to_owned),
        None => None,
    }
}

/// Relies on `serde_json::from_str::<Value>`, `Value::get` and
/// `Value::as_u64`: reads one unsigned integer field of a JSON document.
#[verifier::external_body]
fn get_field_u64(text: &str, key: &str) -> (r: Option<u64>)
    ensures
        r == field_u64_of(text@, key@),
{
    let v: serde_json::Value = match serde_json::from_str(text) {
        Ok(v) => v,
        Err(_) => return None,
    };
    match v.get(key) {
        Some(x) => x.as_u64(),
        None => None,
    }
}

/// Relies on `serde_json::from_str::<Value>`, `Value::get` and
/// `Value::as_i64`: reads one signed integer field of a JSON document.
#[verifier::external_body]
fn get_field_i64(text: &str, key: &str) -> (r: Option<i64>)
    ensures
        r == field_i64_of(text@, key@),
{
    let v: serde_json::Value = match serde_json::from_str(text) {
        Ok(v) => v,
        Err(_) => return None,
    };
    match v.get(key) {
        Some(x) => x.as_i64(),
        None => None,
    }
}

/// Relies on `serde_json::from_str::<Value>`, `Value::get` and
/// `Value::as_bool`: reads one boolean field of a JSON document.
#[verifier::external_body]
fn get_field_bool(text: &str, key: &str) -> (r: Option<bool>)
    ensures
        r == field_bool_of(text@, key@),
{
    let v: serde_json::Value = match serde_json::from_str(text) {
        Ok(v) => v,
        Err(_) => return None,
    };
    match v.get(key) {
        Some(x) => x.as_bool(),
        None => None,
    }
}

/// Relies on `serde_json::from_str::<Value>`, `Value::get` and
/// `Value::as_u64`: reads one unsigned integer field nested one object
/// down in a JSON document.
#[verifier::external_body]
fn get_nested_u64(text: &str, outer: &str, key: &str) -> (r: Option<u64>)
    ensures
        r == nested_u64_of(text@, outer@, key@),
{
    let v: serde_json::Value = match serde_json::from_str(text) {
        Ok(v) => v,
        Err(_) => return None,
    };
    match v.get(outer) {
        Some(o) => match o.get(key) {
            Some(x) => x.as_u64(),
            None => None,
        },
        None => None,
    }
}

/// Relies on `serde_json::from_str::<Value>`, `Value::get` and
/// `Value::as_i64`: reads one signed integer field nested one object
/// down in a JSON document.
#[verifier::external_body]
fn get_nested_i64(text: &str, outer: &str, key: &str) -> (r: Option<i64>)
    ensures
        r == nested_i64_of(text@, outer@, key@),
{
    let v: serde_json::Value = match serde_json::from_str(text) {
        Ok(v) => v,
        Err(_) => return None,
    };
    match v.get(outer) {
        Some(o) => match o.get(key) {
            Some(x) => x.as_i64(),
            None => None,
        },
        None => None,
    }
}

/// The guild id a frame names: the wire carries it as a decimal string
/// or as a plain number.
pub open spec fn guild_of(t: Seq<char>) -> Option<u64> {
    match field_u64_of(t, "guildId"@) {
        Some(g) => Some(g),
        None => match field_str_of(t, "guildId"@) {
            Some(s) => if parses_as_u64(s) {
                Some(digits_val(s) as u64)
            } else {
                None
            },
            None => None,
        },
    }
}

/// The memory section of a frame, complete or nothing.
pub open spec fn memory_of(t: Seq<char>) -> Option<Memory> {
    match (
        nested_i64_of(t, "memory"@, "reservable"@),
        nested_i64_of(t, "memory"@, "used"@),
        nested_i64_of(t, "memory"@, "free"@),
        nested_i64_of(t, "memory"@, "allocated"@),
    ) {
        (Some(reservable), Some(used), Some(free), Some(allocated)) => Some(
            Memory { reservable, used, free, allocated },
        ),
        _ => None,
    }
}

/// The audio frame counters of a frame, complete or nothing.
pub open spec fn frame_stats_of(t: Seq<char>) -> Option<FrameStats> {
    match (
        nested_i64_of(t, "frameStats"@, "sent"@),
        nested_i64_of(t, "frameStats"@, "deficit"@),
        nested_i64_of(t, "frameStats"@, "nulled"@),
    ) {
        (Some(sent), Some(deficit), Some(nulled)) => Some(FrameStats { sent, deficit, nulled }),
        _ => None,
    }
}

/// The processor section of a frame.
pub open spec fn cpu_of(t: Seq<char>) -> Option<Cpu> {
    match nested_i64_of(t, "cpu"@, "cores"@) {
        Some(cores) => Some(Cpu { cores }),
        None => None,
    }
}

/// The playback position report of a frame, complete or nothing.
pub open spec fn state_of(t: Seq<char>) -> Option<State> {
    match (nested_u64_of(t, "state"@, "position"@), nested_i64_of(t, "state"@, "time"@)) {
        (Some(position), Some(time)) => Some(State { position, time }),
        _ => None,
    }
}

/// Whether the text is a complete stats frame.
pub open spec fn is_stats_frame(t: Seq<char>) -> bool {
    &&& field_str_of(t, "op"@) == Some("stats"@)
    &&& memory_of(t) is Some
    &&& cpu_of(t) is Some
    &&& field_i64_of(t, "players"@) is Some
    &&& field_i64_of(t, "playingPlayers"@) is Some
    &&& field_i64_of(t, "uptime"@) is Some
}

/// Whether the text is a complete player update frame.
pub open spec fn is_player_update_frame(t: Seq<char>) -> bool {
    &&& field_str_of(t, "op"@) == Some("playerUpdate"@)
    &&& state_of(t) is Some
    &&& guild_of(t) is Some
}

/// Whether the text is a complete track start frame.
pub open spec fn is_track_start_frame(t: Seq<char>) -> bool {
    &&& field_str_of(t, "op"@) == Some("event"@)
    &&& field_str_of(t, "type"@) == Some("TrackStartEvent"@)
    &&& field_str_of(t, "track"@) is Some
    &&& guild_of(t) is Some
}

/// Whether the text is a complete track end frame.
pub open spec fn is_track_end_frame(t: Seq<char>) -> bool {
    &&& field_str_of(t, "op"@) == Some("event"@)
    &&& field_str_of(t, "type"@) == Some("TrackEndEvent"@)
    &&& field_str_of(t, "track"@) is Some
    &&& field_str_of(t, "reason"@) is Some
    &&& guild_of(t) is Some
}

/// Whether the text is a complete socket-closed frame.
pub open spec fn is_socket_closed_frame(t: Seq<char>) -> bool {
    &&& field_str_of(t, "op"@) == Some("event"@)
    &&& field_str_of(t, "type"@) == Some("WebSocketClosedEvent"@)
    &&& (field_u64_of(t, "code"@) matches Some(c) && c <= u16::MAX)
    &&& field_str_of(t, "reason"@) is Some
    &&& field_bool_of(t, "byRemote"@) is Some
}

/// What the decoder owes for a frame text: `None` exactly when no
/// recognized frame kind is complete in the text, and otherwise the
/// event of the one kind that is, its fields equal to the named
/// extractions.
pub open spec fn decoded_frame_spec(t: Seq<char>, r: Option<EventType>) -> bool {
    match r {
        None => {
            &&& !is_stats_frame(t)
            &&& !is_player_update_frame(t)
            &&& !is_track_start_frame(t)
            &&& !is_track_end_frame(t)
            &&& !is_socket_closed_frame(t)
        },
        Some(EventType::Stats(s)) => {
            &&& is_stats_frame(t)
            &&& Some(s.op@) == field_str_of(t, "op"@)
            &&& Some(s.memory) == memory_of(t)
            &&& Some(s.cpu) == cpu_of(t)
            &&& Some(s.players) == field_i64_of(t, "players"@)
            &&& Some(s.playing_players) == field_i64_of(t, "playingPlayers"@)
            &&& Some(s.uptime) == field_i64_of(t, "uptime"@)
            &&& s.frame_stats == frame_stats_of(t)
        },
        Some(EventType::PlayerUpdate(u)) => {
            &&& is_player_update_frame(t)
            &&& Some(u.op@) == field_str_of(t, "op"@)
            &&& Some(u.state) == state_of(t)
            &&& Some(u.guild_id) == guild_of(t)
        },
        Some(EventType::TrackStart(e)) => {
            &&& is_track_start_frame(t)
            &&& Some(e.op@) == field_str_of(t, "op"@)
            &&& Some(e.track_start_type@) == field_str_of(t, "type"@)
            &&& Some(e.track@) == field_str_of(t, "track"@)
            &&& Some(e.guild_id) == guild_of(t)
        },
        Some(EventType::TrackFinish(e)) => {
            &&& is_track_end_frame(t)
            &&& Some(e.op@) == field_str_of(t, "op"@)
            &&& Some(e.track_finish_type@) == field_str_of(t, "type"@)
            &&& Some(e.track@) == field_str_of(t, "track"@)
            &&& Some(e.reason@) == field_str_of(t, "reason"@)
            &&& Some(e.guild_id) == guild_of(t)
        },
        Some(EventType::WebSocketClosed(e)) => {
            &&& is_socket_closed_frame(t)
            &&& Some(e.op@) == field_str_of(t, "op"@)
            &&& (e.event_type matches Some(ty) && Some(ty@) == field_str_of(t, "type"@))
            &&& Some(e.code as u64) == field_u64_of(t, "code"@)
            &&& Some(e.reason@) == field_str_of(t, "reason"@)
            &&& Some(e.by_remote) == field_bool_of(t, "byRemote"@)
            &&& e.guild_id == guild_of(t)
        },
    }
}

/// Reads a guild id field, which the wire carries either as a decimal
/// string or as a plain number.
fn get_guild_id(text: &str) -> (r: Option<u64>)
    ensures
        r == guild_of(text@),
{
    match get_field_u64(text, "guildId") {
        Some(g) => Some(g),
        None => match get_field_str(text, "guildId") {
            Some(s) => parse_u64_dec(s.as_str()),
            None => None,
        },
    }
}

fn get_memory(text: &str) -> (r: Option<Memory>)
    ensures
        r == memory_of(text@),
{
    match (
        get_nested_i64(text, "memory", "reservable"),
        get_nested_i64(text, "memory", "used"),
        get_nested_i64(text, "memory", "free"),
        get_nested_i64(text, "memory", "allocated"),
    ) {
        (Some(reservable), Some(used), Some(free), Some(allocated)) => Some(
            Memory { reservable, used, free, allocated },
        ),
        _ => None,
    }
}

fn get_frame_stats(text: &str) -> (r: Option<FrameStats>)
    ensures
        r == frame_stats_of(text@),
{
    match (
        get_nested_i64(text, "frameStats", "sent"),
        get_nested_i64(text, "frameStats", "deficit"),
        get_nested_i64(text, "frameStats", "nulled"),
    ) {
        (Some(sent), Some(deficit), Some(nulled)) => Some(FrameStats { sent, deficit, nulled }),
        _ => None,
    }
}

fn get_cpu(text: &str) -> (r: Option<Cpu>)
    ensures
        r == cpu_of(text@),
{
    match get_nested_i64(text, "cpu", "cores") {
        Some(cores) => Some(Cpu { cores }),
        None => None,
    }
}

fn get_state(text: &str) -> (r: Option<State>)
    ensures
        r == state_of(text@),
{
    match (get_nested_u64(text, "state", "position"), get_nested_i64(text, "state", "time")) {
        (Some(position), Some(time)) => Some(State { position, time }),
        _ => None,
    }
}

/// Parses one inbound text frame and classifies it by operation code.
/// Text that holds no complete recognized frame -- not JSON, no `op`, an
/// unknown kind, or a missing required field -- yields `None` and is
/// dropped.
#[verifier::rlimit(50)]
pub fn decode_frame(text: &str) -> (r: Option<EventType>)
    ensures
        decoded_frame_spec(text@, r),
{
    let op = match get_field_str(text, "op") {
        Some(op) => op,
        None => {
            return None;
        },
    };
    let raw = RawEvent {
        playing_players: get_field_i64(text, "playingPlayers"),
        op,
        memory: get_memory(text),
        frame_stats: get_frame_stats(text),
        players: get_field_i64(text, "players"),
        cpu: get_cpu(text),
        uptime: get_field_i64(text, "uptime"),
        state: get_state(text),
        guild_id: get_guild_id(text),
        raw_event_type: get_field_str(text, "type"),
        track: get_field_str(text, "track"),
        reason: get_field_str(text, "reason"),
        code: get_field_u64(text, "code"),
        by_remote: get_field_bool(text, "byRemote"),
    };
    let r = classify(raw);
    proof {
        reveal_strlit("stats");
        reveal_strlit("playerUpdate");
        reveal_strlit("event");
        reveal_strlit("TrackStartEvent");
        reveal_strlit("TrackEndEvent");
        reveal_strlit("WebSocketClosedEvent");
        // ground facts that tell the recognized op and type strings apart
        assert(("stats"@).len() == 5 && ("stats"@)[0] == 's');
        assert(("playerUpdate"@).len() == 12);
        assert(("event"@).len() == 5 && ("event"@)[0] == 'e');
        assert(("TrackStartEvent"@).len() == 15);
        assert(("TrackEndEvent"@).len() == 13);
        assert(("WebSocketClosedEvent"@).len() == 20);
        let t = text@;
        if r is None {
            if is_stats_frame(t) {
                assert(raw.op@ == "stats"@);
                assert(raw.memory is Some && raw.cpu is Some && raw.players is Some
                    && raw.playing_players is Some && raw.uptime is Some);
                assert(classify_spec(raw) is Some);
            }
            if is_player_update_frame(t) {
                assert(raw.op@ == "playerUpdate"@);
                assert(raw.state is Some && raw.guild_id is Some);
                assert(classify_spec(raw) is Some);
            }
            if is_track_start_frame(t) {
                assert(raw.op@ == "event"@);
                assert(raw.raw_event_type is Some && raw.raw_event_type->0@
                    == "TrackStartEvent"@);
                assert(raw.track is Some && raw.guild_id is Some);
                assert(classify_spec(raw) == Some(
                    EventType::TrackStart(
                        crate::gateway::TrackStart {
                            op: raw.op,
                            track_start_type: raw.raw_event_type->0,
                            track: raw.track->0,
                            guild_id: raw.guild_id->0,
                        },
                    ),
                ));
            }
            if is_track_end_frame(t) {
                assert(raw.op@ == "event"@);
                assert(raw.raw_event_type is Some && raw.raw_event_type->0@
                    == "TrackEndEvent"@);
                assert(raw.track is Some && raw.reason is Some && raw.guild_id is Some);
                assert(classify_spec(raw) == Some(
                    EventType::TrackFinish(
                        crate::gateway::TrackFinish {
                            op: raw.op,
                            reason: raw.reason->0,
                            track_finish_type: raw.raw_event_type->0,
                            track: raw.track->0,
                            guild_id: raw.guild_id->0,
                        },
                    ),
                ));
            }
            if is_socket_closed_frame(t) {
                assert(raw.op@ == "event"@);
                assert(raw.raw_event_type is Some && raw.raw_event_type->0@
                    == "WebSocketClosedEvent"@);
                assert(raw.code is Some && raw.code->0 <= u16::MAX && raw.reason is Some
                    && raw.by_remote is Some);
                assert(classify_spec(raw) == Some(
                    EventType::WebSocketClosed(
                        crate::gateway::WebSocketClosed {
                            op: raw.op,
                            event_type: Some(raw.raw_event_type->0),
                            guild_id: raw.guild_id,
                            code: raw.code->0 as u16,
                            reason: raw.reason->0,
                            by_remote: raw.by_remote->0,
                        },
                    ),
                ));
            }
        } else {
            let ev = r->0;
            match ev {
                EventType::Stats(s) => {
                    assert(raw.op@ == "stats"@);
                    assert(is_stats_frame(t));
                },
                EventType::PlayerUpdate(u) => {
                    assert(raw.op@ == "playerUpdate"@);
                    assert(is_player_update_frame(t));
                },
                EventType::TrackStart(e) => {
                    assert(raw.op@ == "event"@ && raw.raw_event_type->0@
                        == "TrackStartEvent"@);
                    assert(is_track_start_frame(t));
                },
                EventType::TrackFinish(e) => {
                    assert(raw.op@ == "event"@ && raw.raw_event_type->0@
                        == "TrackEndEvent"@);
                    assert(is_track_end_frame(t));
                },
                EventType::WebSocketClosed(e) => {
                    assert(raw.op@ == "event"@ && raw.raw_event_type->0@
                        == "WebSocketClosedEvent"@);
                    assert(is_socket_closed_frame(t));
                },
            }
        }
        assert(decoded_frame_spec(t, r));
    }
    r
}

} // verus!
