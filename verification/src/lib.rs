//! Client-side cluster manager for a horizontally scaled audio backend.
//!
//! A `Cluster` owns a registry of `UniversalNode`s, each of which models one durable
//! control connection to a backend worker: its connection lifecycle, its
//! per-guild players and queues, the pairing of the two halves of a voice
//! handshake, and the wire codec that turns commands into outbound frames
//! and classifies inbound frames by operation code.
//!
//! All I/O (sockets, timers, task spawning) lives outside this crate; the
//! functions here are pure state transitions that return the frames to send.

pub mod builder;
pub mod cluster;
pub mod codec;
pub mod error;
pub mod gateway;
pub mod half_update;
pub mod json;
pub mod node;
pub mod play_parameters;
pub mod player;
pub mod text;
pub mod track;
pub mod util;
