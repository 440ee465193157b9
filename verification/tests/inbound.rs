//! Inbound frame decoding and the state mutations each event kind
//! causes, including the queue advance on a finished track.

use andelink::builder::NodeBuilder;
use andelink::gateway::{EventType, TrackFinish};
use andelink::json::decode_frame;
use andelink::node::{ConnectionInfo, UniversalNode};
use andelink::track::Track;

fn connected_node() -> UniversalNode {
    let mut b = NodeBuilder::default();
    b.set_user_id(9);
    let mut n = b.build(1);
    n.begin_connect();
    n.connect_succeeded();
    n
}

fn session_with_tracks(n: &mut UniversalNode, guild: u64, names: &[&str]) {
    let info = ConnectionInfo {
        token: "t".to_string(),
        endpoint: "e".to_string(),
        session_id: "s".to_string(),
    };
    n.create_session(guild, &info).unwrap();
    for name in names {
        n.play(guild, Track { track: name.to_string(), info: None })
            .queue(n)
            .unwrap();
    }
}

fn finish_event(guild: u64, reason: &str) -> EventType {
    EventType::TrackFinish(TrackFinish {
        op: "event".to_string(),
        reason: reason.to_string(),
        track_finish_type: "TrackEndEvent".to_string(),
        track: "whatever".to_string(),
        guild_id: guild,
    })
}

#[test]
fn decode_stats_frame() {
    let text = "{\"op\":\"stats\",\"players\":4,\"playingPlayers\":2,\"uptime\":5000,\
        \"memory\":{\"reservable\":100,\"used\":40,\"free\":60,\"allocated\":80},\
        \"cpu\":{\"cores\":8,\"systemLoad\":0.25,\"lavalinkLoad\":0.125}}";
    match decode_frame(text) {
        Some(EventType::Stats(s)) => {
            assert_eq!(s.players, 4);
            assert_eq!(s.playing_players, 2);
            assert_eq!(s.uptime, 5000);
            assert_eq!(s.memory.used, 40);
            assert_eq!(s.cpu.cores, 8);
            assert!(s.frame_stats.is_none());
        },
        _ => panic!("expected a stats event"),
    }
}

#[test]
fn decode_player_update_with_string_guild_id() {
    let text = "{\"op\":\"playerUpdate\",\"guildId\":\"507\",\
        \"state\":{\"time\":1234,\"position\":60000}}";
    match decode_frame(text) {
        Some(EventType::PlayerUpdate(u)) => {
            assert_eq!(u.guild_id, 507);
            assert_eq!(u.state.position, 60000);
            assert_eq!(u.state.time, 1234);
        },
        _ => panic!("expected a player update"),
    }
}

#[test]
fn decode_player_update_with_numeric_guild_id() {
    let text = "{\"op\":\"playerUpdate\",\"guildId\":507,\
        \"state\":{\"time\":1,\"position\":2}}";
    assert!(matches!(
        decode_frame(text),
        Some(EventType::PlayerUpdate(u)) if u.guild_id == 507
    ));
}

#[test]
fn decode_track_events() {
    let start = "{\"op\":\"event\",\"type\":\"TrackStartEvent\",\"guildId\":\"1\",\"track\":\"abc\"}";
    assert!(matches!(
        decode_frame(start),
        Some(EventType::TrackStart(e)) if e.track == "abc" && e.guild_id == 1
    ));
    let end = "{\"op\":\"event\",\"type\":\"TrackEndEvent\",\"guildId\":\"1\",\
        \"track\":\"abc\",\"reason\":\"FINISHED\"}";
    assert!(matches!(
        decode_frame(end),
        Some(EventType::TrackFinish(e)) if e.reason == "FINISHED"
    ));
    let closed = "{\"op\":\"event\",\"type\":\"WebSocketClosedEvent\",\"guildId\":\"1\",\
        \"code\":4006,\"reason\":\"invalid session\",\"byRemote\":true}";
    assert!(matches!(
        decode_frame(closed),
        Some(EventType::WebSocketClosed(e)) if e.code == 4006 && e.by_remote
    ));
}

#[test]
fn unrecognized_frames_are_dropped() {
    assert!(decode_frame("not json at all").is_none());
    assert!(decode_frame("{\"op\":\"somethingNew\",\"guildId\":\"1\"}").is_none());
    assert!(decode_frame("{\"noOp\":true}").is_none());
    assert!(decode_frame("{\"op\":\"event\",\"guildId\":\"1\"}").is_none());
    assert!(decode_frame("{\"op\":\"event\",\"type\":\"SomethingElseEvent\",\"guildId\":\"1\"}").is_none());
    // a recognized kind missing a required field is dropped too
    assert!(decode_frame("{\"op\":\"playerUpdate\",\"guildId\":\"1\"}").is_none());
    assert!(decode_frame("{\"op\":\"stats\",\"players\":1}").is_none());
}

#[test]
fn stats_event_updates_snapshot() {
    let mut n = connected_node();
    assert!(n.stats.is_none());
    let ev = decode_frame(
        "{\"op\":\"stats\",\"players\":1,\"playingPlayers\":0,\"uptime\":9,\
         \"memory\":{\"reservable\":1,\"used\":2,\"free\":3,\"allocated\":4},\
         \"cpu\":{\"cores\":2}}",
    )
    .unwrap();
    assert!(n.apply_event(&ev).is_none());
    assert_eq!(n.stats.as_ref().unwrap().players, 1);
}

#[test]
fn player_update_overwrites_position() {
    let mut n = connected_node();
    session_with_tracks(&mut n, 507, &[]);
    let mut track = Track { track: "x".to_string(), info: None };
    track.info = Some(andelink::track::TrackInfo {
        identifier: "id".to_string(),
        is_seekable: true,
        author: "a".to_string(),
        length: 100000,
        is_stream: false,
        position: 0,
        title: "t".to_string(),
        uri: "u".to_string(),
    });
    n.play(507, track).queue(&mut n).unwrap();
    let ev = decode_frame(
        "{\"op\":\"playerUpdate\",\"guildId\":\"507\",\"state\":{\"time\":1,\"position\":4567}}",
    )
    .unwrap();
    assert!(n.apply_event(&ev).is_none());
    let p = n.players.get(&507).unwrap();
    assert_eq!(
        p.now_playing.as_ref().unwrap().track.info.as_ref().unwrap().position,
        4567
    );
}

#[test]
fn finished_track_advances_queue() {
    let mut n = connected_node();
    session_with_tracks(&mut n, 507, &["first", "second"]);
    let frame = n.apply_event(&finish_event(507, "FINISHED")).unwrap();
    assert_eq!(
        frame,
        "{\"guildId\":\"507\",\"noReplace\":false,\"op\":\"play\",\"startTime\":0,\"track\":\"second\"}"
    );
    let p = n.players.get(&507).unwrap();
    assert_eq!(p.queue.len(), 1);
    assert_eq!(p.now_playing.as_ref().unwrap().track.track, "second");
}

#[test]
fn finished_track_with_empty_remainder_stops() {
    let mut n = connected_node();
    session_with_tracks(&mut n, 507, &["only"]);
    assert!(n.apply_event(&finish_event(507, "FINISHED")).is_none());
    let p = n.players.get(&507).unwrap();
    assert_eq!(p.queue.len(), 0);
    assert!(p.now_playing.is_none());
}

#[test]
fn non_finished_reason_leaves_queue_untouched() {
    let mut n = connected_node();
    session_with_tracks(&mut n, 507, &["first", "second"]);
    assert!(n.apply_event(&finish_event(507, "REPLACED")).is_none());
    let p = n.players.get(&507).unwrap();
    assert_eq!(p.queue.len(), 2);
    assert_eq!(p.now_playing.as_ref().unwrap().track.track, "first");
}

#[test]
fn finished_track_for_unknown_guild_changes_nothing() {
    let mut n = connected_node();
    session_with_tracks(&mut n, 507, &["first"]);
    assert!(n.apply_event(&finish_event(999, "FINISHED")).is_none());
    assert_eq!(n.players.get(&507).unwrap().queue.len(), 1);
}

#[test]
fn pass_through_events_change_nothing() {
    let mut n = connected_node();
    session_with_tracks(&mut n, 507, &["first"]);
    let start = decode_frame(
        "{\"op\":\"event\",\"type\":\"TrackStartEvent\",\"guildId\":\"507\",\"track\":\"x\"}",
    )
    .unwrap();
    let closed = decode_frame(
        "{\"op\":\"event\",\"type\":\"WebSocketClosedEvent\",\"code\":1000,\
         \"reason\":\"bye\",\"byRemote\":false}",
    )
    .unwrap();
    assert!(n.apply_event(&start).is_none());
    assert!(n.apply_event(&closed).is_none());
    assert_eq!(n.players.get(&507).unwrap().queue.len(), 1);
}
