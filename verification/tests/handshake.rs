//! The two-part voice-handshake pairing: completion in either order,
//! duplicate replacement, user filtering, and the incomplete-pair error.

use andelink::builder::NodeBuilder;
use andelink::error::{AndelinkError, ClusterError};
use andelink::half_update::{HalfVoiceUpdate, VoiceServerUpdate, VoiceState};
use andelink::node::UniversalNode;

const CLIENT_ID: u64 = 4242;

fn connected_node() -> UniversalNode {
    let mut b = NodeBuilder::default();
    b.set_user_id(CLIENT_ID);
    let mut n = b.build(1);
    n.begin_connect();
    n.connect_succeeded();
    n
}

fn server_half(guild: Option<u64>, endpoint: Option<&str>) -> HalfVoiceUpdate {
    HalfVoiceUpdate::Server(VoiceServerUpdate {
        guild_id: guild,
        token: "tok".to_string(),
        endpoint: endpoint.map(|e| e.to_string()),
    })
}

fn state_half(guild: Option<u64>, user: u64) -> HalfVoiceUpdate {
    HalfVoiceUpdate::State(VoiceState {
        guild_id: guild,
        user_id: user,
        session_id: "sess".to_string(),
    })
}

const EXPECTED_FRAME: &str = "{\"event\":{\"endpoint\":\"ep\",\"guildId\":\"507\",\"token\":\"tok\"},\"guildId\":\"507\",\"op\":\"voiceUpdate\",\"sessionId\":\"sess\"}";

#[test]
fn server_then_state_completes_once() {
    let mut n = connected_node();
    let first = server_half(Some(507), Some("ep")).process(&mut n).unwrap();
    assert!(first.is_none());
    assert!(n.waiting.contains_key(&507));
    let second = state_half(Some(507), CLIENT_ID).process(&mut n).unwrap();
    assert_eq!(second.unwrap(), EXPECTED_FRAME);
    assert!(!n.waiting.contains_key(&507));
}

#[test]
fn state_then_server_completes_once() {
    let mut n = connected_node();
    let first = state_half(Some(507), CLIENT_ID).process(&mut n).unwrap();
    assert!(first.is_none());
    let second = server_half(Some(507), Some("ep")).process(&mut n).unwrap();
    assert_eq!(second.unwrap(), EXPECTED_FRAME);
    assert!(!n.waiting.contains_key(&507));
}

#[test]
fn duplicate_server_halves_replace_and_wait() {
    let mut n = connected_node();
    server_half(Some(507), Some("old-ep")).process(&mut n).unwrap();
    let second = server_half(Some(507), Some("new-ep")).process(&mut n).unwrap();
    assert!(second.is_none());
    match n.waiting.get(&507).unwrap() {
        HalfVoiceUpdate::Server(s) => assert_eq!(s.endpoint.as_deref(), Some("new-ep")),
        HalfVoiceUpdate::State(_) => panic!("expected the server half to be pending"),
    }
    // the pair still completes with the replaced half's endpoint
    let done = state_half(Some(507), CLIENT_ID).process(&mut n).unwrap();
    assert!(done.unwrap().contains("new-ep"));
}

#[test]
fn duplicate_state_halves_replace_and_wait() {
    let mut n = connected_node();
    state_half(Some(507), CLIENT_ID).process(&mut n).unwrap();
    let second = state_half(Some(507), CLIENT_ID).process(&mut n).unwrap();
    assert!(second.is_none());
    assert!(matches!(n.waiting.get(&507).unwrap(), HalfVoiceUpdate::State(_)));
}

#[test]
fn state_half_about_other_user_is_ignored() {
    let mut n = connected_node();
    let r = state_half(Some(507), CLIENT_ID + 1).process(&mut n).unwrap();
    assert!(r.is_none());
    assert!(n.waiting.is_empty());
}

#[test]
fn half_without_guild_is_ignored() {
    let mut n = connected_node();
    let r = server_half(None, Some("ep")).process(&mut n).unwrap();
    assert!(r.is_none());
    assert!(n.waiting.is_empty());
}

#[test]
fn pair_missing_endpoint_fails_and_clears() {
    let mut n = connected_node();
    server_half(Some(507), None).process(&mut n).unwrap();
    let err = state_half(Some(507), CLIENT_ID).process(&mut n).unwrap_err();
    assert_eq!(err, ClusterError::CannotUpdateVoiceState);
    // the malformed pending state is discarded all the same
    assert!(!n.waiting.contains_key(&507));
}

#[test]
fn completed_pair_without_connection_fails() {
    let mut n = connected_node();
    server_half(Some(507), Some("ep")).process(&mut n).unwrap();
    n.connection_lost();
    let err = state_half(Some(507), CLIENT_ID).process(&mut n).unwrap_err();
    assert_eq!(err, ClusterError::Andelink(AndelinkError::NoWebsocket));
    assert!(!n.waiting.contains_key(&507));
}

#[test]
fn pairs_are_scoped_per_guild() {
    let mut n = connected_node();
    server_half(Some(1), Some("ep-one")).process(&mut n).unwrap();
    server_half(Some(2), Some("ep-two")).process(&mut n).unwrap();
    let done = state_half(Some(1), CLIENT_ID).process(&mut n).unwrap();
    assert!(done.unwrap().contains("ep-one"));
    assert!(n.waiting.contains_key(&2));
    assert!(!n.waiting.contains_key(&1));
}
