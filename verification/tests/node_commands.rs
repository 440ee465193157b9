//! The per-node command API: session setup, queueing, skipping, and the
//! pass-through commands, with their error cases.

use andelink::builder::NodeBuilder;
use andelink::codec::Band;
use andelink::error::AndelinkError;
use andelink::node::{ConnectionInfo, UniversalNode};
use andelink::track::Track;

fn connected_node() -> UniversalNode {
    let mut b = NodeBuilder::default();
    b.set_user_id(99);
    let mut n = b.build(1);
    n.begin_connect();
    n.connect_succeeded();
    n
}

fn info() -> ConnectionInfo {
    ConnectionInfo {
        token: "tok".to_string(),
        endpoint: "ep".to_string(),
        session_id: "sess".to_string(),
    }
}

fn track(name: &str) -> Track {
    Track { track: name.to_string(), info: None }
}

#[test]
fn create_session_inserts_idle_player() {
    let mut n = connected_node();
    let frame = n.create_session(507, &info()).unwrap();
    assert_eq!(
        frame,
        "{\"event\":{\"endpoint\":\"ep\",\"guildId\":\"507\",\"token\":\"tok\"},\"guildId\":\"507\",\"op\":\"voiceUpdate\",\"sessionId\":\"sess\"}"
    );
    let p = n.players.get(&507).unwrap();
    assert!(p.now_playing.is_none());
    assert!(!p.paused);
    assert_eq!(p.volume, 100);
    assert_eq!(p.queue.len(), 0);
}

#[test]
fn create_session_requires_connection() {
    let mut b = NodeBuilder::default();
    b.set_user_id(99);
    let mut n = b.build(1);
    assert_eq!(n.create_session(507, &info()).unwrap_err(), AndelinkError::NoWebsocket);
    assert!(n.players.is_empty());
}

#[test]
fn create_session_rejects_empty_fields_in_order() {
    let mut n = connected_node();
    let mut i = info();
    i.token = String::new();
    i.endpoint = String::new();
    assert_eq!(n.create_session(1, &i).unwrap_err(), AndelinkError::MissingHandlerToken);
    i.token = "t".to_string();
    assert_eq!(n.create_session(1, &i).unwrap_err(), AndelinkError::MissingHandlerEndpoint);
    i.endpoint = "e".to_string();
    i.session_id = String::new();
    assert_eq!(n.create_session(1, &i).unwrap_err(), AndelinkError::MissingHandlerSessionId);
    assert!(n.players.is_empty());
}

#[test]
fn queue_on_idle_guild_plays_at_once() {
    let mut n = connected_node();
    n.create_session(507, &info()).unwrap();
    let p = n.play(507, track("first"));
    let frame = p.queue(&mut n).unwrap();
    assert_eq!(
        frame.unwrap(),
        "{\"guildId\":\"507\",\"noReplace\":false,\"op\":\"play\",\"startTime\":0,\"track\":\"first\"}"
    );
    let player = n.players.get(&507).unwrap();
    assert_eq!(player.queue.len(), 1);
    assert_eq!(player.now_playing.as_ref().unwrap().track.track, "first");
}

#[test]
fn queue_on_busy_guild_only_queues() {
    let mut n = connected_node();
    n.create_session(507, &info()).unwrap();
    n.play(507, track("first")).queue(&mut n).unwrap();
    let second = n.play(507, track("second")).queue(&mut n).unwrap();
    assert!(second.is_none());
    let player = n.players.get(&507).unwrap();
    assert_eq!(player.queue.len(), 2);
    assert_eq!(player.now_playing.as_ref().unwrap().track.track, "first");
}

#[test]
fn queue_without_player_fails() {
    let mut n = connected_node();
    let p = n.play(507, track("first"));
    assert_eq!(p.queue(&mut n).unwrap_err(), AndelinkError::PlayerNotFound);
}

#[test]
fn queue_carries_offsets_and_requester() {
    let mut n = connected_node();
    n.create_session(507, &info()).unwrap();
    n.play(507, track("first")).queue(&mut n).unwrap();
    let p = n
        .play(507, track("second"))
        .start_time(1500)
        .finish_time(30000)
        .requester(andelink::track::TrackRequester { id: Some(5), name: None })
        .channel(808);
    p.queue(&mut n).unwrap();
    let player = n.players.get(&507).unwrap();
    let qt = &player.queue[1];
    assert_eq!(qt.start_time, 1500);
    assert_eq!(qt.end_time, Some(30000));
    assert_eq!(qt.requester.as_ref().unwrap().id, Some(5));
    assert_eq!(qt.channel, Some(808));
}

#[test]
fn start_sends_play_directly() {
    let mut n = connected_node();
    n.create_session(507, &info()).unwrap();
    let frame = n
        .play(507, track("solo"))
        .replace(true)
        .start_time(250)
        .start(&n)
        .unwrap();
    assert_eq!(
        frame,
        "{\"guildId\":\"507\",\"noReplace\":false,\"op\":\"play\",\"startTime\":250,\"track\":\"solo\"}"
    );
    // start bypasses the queue entirely
    assert_eq!(n.players.get(&507).unwrap().queue.len(), 0);
}

#[test]
fn skip_with_empty_queue_returns_nothing() {
    let mut n = connected_node();
    n.create_session(507, &info()).unwrap();
    assert!(n.skip(507).unwrap().is_none());
}

#[test]
fn skip_with_one_track_stops() {
    let mut n = connected_node();
    n.create_session(507, &info()).unwrap();
    n.play(507, track("only")).queue(&mut n).unwrap();
    let (removed, frame) = n.skip(507).unwrap().unwrap();
    assert_eq!(removed.track.track, "only");
    assert_eq!(frame, "{\"guildId\":\"507\",\"op\":\"stop\"}");
    let player = n.players.get(&507).unwrap();
    assert_eq!(player.queue.len(), 0);
    assert!(player.now_playing.is_none());
}

#[test]
fn skip_with_two_tracks_plays_next() {
    let mut n = connected_node();
    n.create_session(507, &info()).unwrap();
    n.play(507, track("first")).queue(&mut n).unwrap();
    n.play(507, track("second")).queue(&mut n).unwrap();
    let (removed, frame) = n.skip(507).unwrap().unwrap();
    assert_eq!(removed.track.track, "first");
    assert_eq!(
        frame,
        "{\"guildId\":\"507\",\"noReplace\":false,\"op\":\"play\",\"startTime\":0,\"track\":\"second\"}"
    );
    let player = n.players.get(&507).unwrap();
    assert_eq!(player.queue.len(), 1);
    assert_eq!(player.now_playing.as_ref().unwrap().track.track, "second");
}

#[test]
fn skip_without_player_fails() {
    let mut n = connected_node();
    assert_eq!(n.skip(507).unwrap_err(), AndelinkError::PlayerNotFound);
}

#[test]
fn destroy_removes_player() {
    let mut n = connected_node();
    n.create_session(507, &info()).unwrap();
    let frame = n.destroy(507).unwrap();
    assert_eq!(frame, "{\"guildId\":\"507\",\"op\":\"destroy\"}");
    assert!(n.players.get(&507).is_none());
}

#[test]
fn commands_without_connection_fail() {
    let mut b = NodeBuilder::default();
    b.set_user_id(99);
    let n = b.build(1);
    assert_eq!(n.stop(1).unwrap_err(), AndelinkError::NoWebsocket);
    assert_eq!(n.set_pause(1, true).unwrap_err(), AndelinkError::NoWebsocket);
    assert_eq!(n.seek(1, 10).unwrap_err(), AndelinkError::NoWebsocket);
    assert_eq!(n.volume(1, 10).unwrap_err(), AndelinkError::NoWebsocket);
    assert_eq!(n.equalize_reset(1).unwrap_err(), AndelinkError::NoWebsocket);
}

#[test]
fn volume_is_clamped_to_one_thousand() {
    let n = connected_node();
    assert_eq!(
        n.volume(7, 5000).unwrap(),
        "{\"guildId\":\"7\",\"op\":\"volume\",\"volume\":1000}"
    );
    assert_eq!(
        n.volume(7, 0).unwrap(),
        "{\"guildId\":\"7\",\"op\":\"volume\",\"volume\":0}"
    );
    assert_eq!(
        n.volume(7, 1000).unwrap(),
        "{\"guildId\":\"7\",\"op\":\"volume\",\"volume\":1000}"
    );
    assert_eq!(
        n.volume(7, 1001).unwrap(),
        "{\"guildId\":\"7\",\"op\":\"volume\",\"volume\":1000}"
    );
}

#[test]
fn pause_and_resume_frames() {
    let n = connected_node();
    assert_eq!(n.pause(3).unwrap(), "{\"guildId\":\"3\",\"op\":\"pause\",\"pause\":true}");
    assert_eq!(n.resume(3).unwrap(), "{\"guildId\":\"3\",\"op\":\"pause\",\"pause\":false}");
}

#[test]
fn equalize_band_frame() {
    let n = connected_node();
    assert_eq!(
        n.equalize_band(3, Band { band: 4, gain_milli: 250 }).unwrap(),
        "{\"bands\":[{\"band\":4,\"gain\":0.250}],\"guildId\":\"3\",\"op\":\"equalizer\"}"
    );
}

#[test]
fn equalize_all_and_reset_frames() {
    let n = connected_node();
    let mut gains = [0i32; 15];
    gains[0] = -250;
    gains[14] = 1000;
    let frame = n.equalize_all(3, gains).unwrap();
    assert!(frame.starts_with("{\"bands\":[{\"band\":0,\"gain\":-0.250},{\"band\":1,\"gain\":0.000},"));
    assert!(frame.ends_with("{\"band\":14,\"gain\":1.000}],\"guildId\":\"3\",\"op\":\"equalizer\"}"));
    let reset = n.equalize_reset(3).unwrap();
    assert!(reset.starts_with("{\"bands\":[{\"band\":0,\"gain\":0.000},"));
    assert!(reset.contains("{\"band\":14,\"gain\":0.000}"));
}

#[test]
fn play_playlist_builds_one_request_per_track() {
    let n = connected_node();
    let list = n.play_playlist(9, vec![track("a"), track("b"), track("c")]);
    assert_eq!(list.len(), 3);
    assert_eq!(list[0].track.track, "a");
    assert_eq!(list[2].track.track, "c");
    assert_eq!(list[1].guild_id, 9);
}
