//! The connection lifecycle state machine and the cluster registry:
//! bounded reconnection, load balancing, and guild-ownership lookup.

use andelink::builder::NodeBuilder;
use andelink::cluster::{Cluster, ClusterBuilder};
use andelink::error::ClusterError;
use andelink::node::{ConnState, ConnectStep, ConnectionInfo, UniversalNode};
use andelink::track::Track;

fn builder(user: u64) -> NodeBuilder {
    let mut b = NodeBuilder::default();
    b.set_user_id(user);
    b
}

fn info() -> ConnectionInfo {
    ConnectionInfo {
        token: "t".to_string(),
        endpoint: "e".to_string(),
        session_id: "s".to_string(),
    }
}

fn connect(n: &mut UniversalNode) {
    n.begin_connect();
    n.connect_succeeded();
}

#[test]
fn node_urls_follow_configuration() {
    let mut b = NodeBuilder::default();
    b.set_host("audio.example.org".to_string())
        .set_port(8080)
        .set_ssl(true)
        .set_user_id(1);
    let n = b.build(1);
    assert_eq!(n.rest, "https://audio.example.org:8080");
    assert_eq!(n.socket, "wss://audio.example.org:8080");
    let mut b2 = NodeBuilder::default();
    b2.set_user_id(1);
    let n2 = b2.build(2);
    assert_eq!(n2.rest, "http://localhost:2333");
    assert_eq!(n2.socket, "ws://localhost:2333");
    assert_eq!(n2.pass, "youshallnotpass");
    assert_eq!(n2.shards, 1);
}

#[test]
fn node_terminates_after_max_consecutive_failures() {
    let mut n = builder(1).build(1);
    let max = 3u8;
    for k in 1..=max {
        assert!(matches!(n.conn_state, ConnState::Disconnected));
        n.begin_connect();
        let step = n.connect_failed(max);
        if k < max {
            assert_eq!(step, ConnectStep::Retry { backoff_secs: 5 });
        } else {
            assert_eq!(step, ConnectStep::GiveUp);
        }
    }
    assert!(matches!(n.conn_state, ConnState::Terminated));
}

#[test]
fn successful_connection_restores_retry_budget() {
    let mut n = builder(1).build(1);
    n.begin_connect();
    assert_eq!(n.connect_failed(5), ConnectStep::Retry { backoff_secs: 5 });
    assert_eq!(n.attempt, 2);
    n.begin_connect();
    n.connect_succeeded();
    assert_eq!(n.attempt, 1);
    assert!(matches!(n.conn_state, ConnState::Connected));
    n.connection_lost();
    assert_eq!(n.attempt, 1);
    assert!(matches!(n.conn_state, ConnState::Disconnected));
}

fn two_node_cluster() -> Cluster {
    let mut cb = ClusterBuilder::new();
    cb.add_node(builder(1)).add_node(builder(1));
    cb.build()
}

#[test]
fn cluster_assigns_unique_increasing_ids() {
    let mut c = two_node_cluster();
    assert_eq!(c.nodes[0].node_id, 1);
    assert_eq!(c.nodes[1].node_id, 2);
    assert_eq!(c.node_counter, 2);
    let id = c.add_node(builder(1));
    assert_eq!(id, 3);
    assert_eq!(c.nodes[2].node_id, 3);
}

#[test]
fn reconnect_policy_is_configurable() {
    let mut cb = Cluster::builder();
    cb.reconnect_attempts(7);
    let c = cb.build();
    assert_eq!(c.reconnect_attempts, 7);
    assert_eq!(ClusterBuilder::new().reconnect_attempts, 5);
}

#[test]
fn get_best_needs_a_registered_node() {
    let c = two_node_cluster();
    // both nodes are still disconnected, so none is registered
    assert_eq!(c.get_best().unwrap_err(), ClusterError::CannotFindBestNode);
}

#[test]
fn get_best_returns_single_registered_node() {
    let mut c = two_node_cluster();
    connect(&mut c.nodes[1]);
    assert_eq!(c.get_best().unwrap(), 2);
}

#[test]
fn get_best_prefers_fewer_sessions() {
    let mut c = two_node_cluster();
    connect(&mut c.nodes[0]);
    connect(&mut c.nodes[1]);
    c.nodes[0].create_session(10, &info()).unwrap();
    c.nodes[0].create_session(11, &info()).unwrap();
    c.nodes[1].create_session(12, &info()).unwrap();
    assert_eq!(c.get_best().unwrap(), 2);
    c.nodes[1].create_session(13, &info()).unwrap();
    c.nodes[1].create_session(14, &info()).unwrap();
    assert_eq!(c.get_best().unwrap(), 1);
}

#[test]
fn get_best_skips_disconnected_nodes() {
    let mut c = two_node_cluster();
    connect(&mut c.nodes[0]);
    connect(&mut c.nodes[1]);
    // the idle node drops out mid-reconnect; the loaded one is all that is left
    c.nodes[0].create_session(10, &info()).unwrap();
    c.nodes[1].connection_lost();
    assert_eq!(c.get_best().unwrap(), 1);
}

#[test]
fn get_player_node_finds_owning_node() {
    let mut c = two_node_cluster();
    connect(&mut c.nodes[0]);
    connect(&mut c.nodes[1]);
    c.nodes[1].create_session(507, &info()).unwrap();
    assert_eq!(c.get_player_node(507).unwrap(), 2);
    assert_eq!(c.get_player_node(999).unwrap_err(), ClusterError::CannotFindNode);
}

#[test]
fn get_player_node_ignores_unregistered_owner() {
    let mut c = two_node_cluster();
    connect(&mut c.nodes[1]);
    c.nodes[1].create_session(507, &info()).unwrap();
    c.nodes[1].connection_lost();
    // the owning node keeps its player entry but is no longer registered
    assert!(c.nodes[1].players.contains_key(&507));
    assert_eq!(c.get_player_node(507).unwrap_err(), ClusterError::CannotFindNode);
}

#[test]
fn get_node_looks_up_by_id() {
    let mut c = two_node_cluster();
    assert_eq!(c.get_node(2).unwrap().node_id, 2);
    assert!(c.get_node(9).is_none());
    let n = c.get_node_mut(1).unwrap();
    n.begin_connect();
    n.connect_succeeded();
    assert!(matches!(c.nodes[0].conn_state, ConnState::Connected));
}

#[test]
fn terminated_node_is_absent_from_registry_views() {
    let mut c = two_node_cluster();
    connect(&mut c.nodes[0]);
    c.nodes[0].create_session(507, &info()).unwrap();
    let _ = c
        .nodes[0]
        .play(507, Track { track: "x".to_string(), info: None })
        .queue(&mut c.nodes[0])
        .unwrap();
    // the connection dies and every further attempt fails
    c.nodes[0].connection_lost();
    n_fail_until_terminated(&mut c.nodes[0], c.reconnect_attempts);
    assert!(matches!(c.nodes[0].conn_state, ConnState::Terminated));
    assert_eq!(c.get_best().unwrap_err(), ClusterError::CannotFindBestNode);
    assert_eq!(c.get_player_node(507).unwrap_err(), ClusterError::CannotFindNode);
}

fn n_fail_until_terminated(n: &mut UniversalNode, max: u8) {
    loop {
        n.begin_connect();
        match n.connect_failed(max) {
            ConnectStep::Retry { .. } => continue,
            ConnectStep::GiveUp => break,
        }
    }
}
