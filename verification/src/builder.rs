//! Configuration of one backend node, fixed at construction: connection
//! target, shared secret, shard count, and client identity.

use vstd::prelude::*;
use crate::node::UniversalNode;

verus! {

/// Builder for one node's fixed configuration.
#[derive(Debug)]
pub struct NodeBuilder {
    pub host: String,
    pub port: u16,
    pub ssl: bool,
    pub pass: String,
    pub shards: u64,
    pub id: Option<u64>,
    pub node_id: Option<u8>,
}

impl Default for NodeBuilder {
    /// The default target: a local, non-TLS node on the conventional port,
    /// with the conventional development password and a single shard.
    fn default() -> (r: Self)
        ensures
            r.host@ == "localhost"@,
            r.port == 2333,
            !r.ssl,
            r.pass@ == "youshallnotpass"@,
            r.shards == 1,
            r.id is None,
            r.node_id is None,
    {
        NodeBuilder {
            host: String::from_str("localhost"),
            port: 2333,
            ssl: false,
            pass: String::from_str("youshallnotpass"),
            shards: 1,
            id: None,
            node_id: None,
        }
    }
}

impl NodeBuilder {
    /// Sets the host name of the node's target.
    pub fn set_host(&mut self, host: String) -> (ret: &mut Self)
        ensures
            *ret == (NodeBuilder { host, ..*old(self) }),
            *final(self) == *final(ret),
    {
        self.host = host;
        self
    }

    /// Sets the port of the node's target.
    pub fn set_port(&mut self, port: u16) -> (ret: &mut Self)
        ensures
            *ret == (NodeBuilder { port, ..*old(self) }),
            *final(self) == *final(ret),
    {
        self.port = port;
        self
    }

    /// Sets the shared secret sent on connection and REST calls.
    pub fn set_password(&mut self, password: String) -> (ret: &mut Self)
        ensures
            *ret == (NodeBuilder { pass: password, ..*old(self) }),
            *final(self) == *final(ret),
    {
        self.pass = password;
        self
    }

    /// Sets the shard count announced to the node.
    pub fn set_shards(&mut self, shards: u64) -> (ret: &mut Self)
        ensures
            *ret == (NodeBuilder { shards, ..*old(self) }),
            *final(self) == *final(ret),
    {
        self.shards = shards;
        self
    }

    /// Sets the client identity id announced to the node.
    pub fn set_user_id(&mut self, id: u64) -> (ret: &mut Self)
        ensures
            *ret == (NodeBuilder { id: Some(id), ..*old(self) }),
            *final(self) == *final(ret),
    {
        self.id = Some(id);
        self
    }

    /// Sets whether to reach the node over TLS.
    pub fn set_ssl(&mut self, ssl: bool) -> (ret: &mut Self)
        ensures
            *ret == (NodeBuilder { ssl, ..*old(self) }),
            *final(self) == *final(ret),
    {
        self.ssl = ssl;
        self
    }

    /// Builds the node this configuration describes, under the given
    /// registry id, in the disconnected state.
    pub fn build(self, node_id: u8) -> (r: UniversalNode)
        requires
            self.id is Some,
        ensures
            r.fresh_from(self, node_id),
    {
        UniversalNode::new(self, node_id)
    }
}

} // verus!
