//! The cluster: a registry of nodes keyed by small integer id, node
//! selection by load, guild-ownership lookup, and the reconnection
//! policy. A node counts as registered exactly while it is connected, so
//! selection and lookup never route to a node mid-reconnect.

use vstd::prelude::*;
use crate::builder::NodeBuilder;
use crate::error::{ClusterError, ClusterResult};
use crate::node::{ConnState, UniversalNode};

verus! {

broadcast use vstd::std_specs::hash::group_hash_axioms;

/// The registry of nodes, with the reconnection policy they share.
#[derive(Debug)]
pub struct Cluster {
    /// Every node this cluster owns, terminated ones included; the
    /// registry the balancer sees is the connected subset.
    pub nodes: Vec<UniversalNode>,
    /// How many consecutive failed connection attempts a node may make
    /// before it is terminated.
    pub reconnect_attempts: u8,
    /// Monotonically increasing id counter; the first assigned id is 1,
    /// and ids are never reused.
    pub node_counter: u8,
}

impl Cluster {
    /// Node ids are unique and were all assigned by the counter.
    pub open spec fn wf(&self) -> bool {
        &&& forall|i: int, j: int|
            0 <= i < j < self.nodes@.len() ==> #[trigger] self.nodes@[i].node_id
                != #[trigger] self.nodes@[j].node_id
        &&& forall|i: int|
            0 <= i < self.nodes@.len() ==> 1 <= #[trigger] self.nodes@[i].node_id
                <= self.node_counter
    }

    /// Whether the node at index `i` is registered: present and holding
    /// a live connection.
    pub open spec fn registered_at(&self, i: int) -> bool {
        0 <= i < self.nodes@.len() && self.nodes@[i].conn_state is Connected
    }

    /// The active-session count of the node at index `i`.
    pub open spec fn session_count(&self, i: int) -> nat {
        self.nodes@[i].players@.len()
    }

    /// Whether the node at index `i` is a best choice: registered, with
    /// no registered node holding fewer active sessions.
    pub open spec fn is_best(&self, i: int) -> bool {
        &&& self.registered_at(i)
        &&& forall|j: int|
            #[trigger] self.registered_at(j) ==> self.session_count(i) <= self.session_count(j)
    }

    /// Starts a configuration with no nodes and the default reconnection
    /// policy.
    pub fn builder() -> (r: ClusterBuilder)
        ensures
            r.nodes@.len() == 0,
            r.reconnect_attempts == 5,
    {
        ClusterBuilder::new()
    }

    /// Allocates the next id and adds a fresh, disconnected node built
    /// from the given configuration. Connecting it is the caller's
    /// lifecycle task; this returns at once.
    pub fn add_node(&mut self, builder: NodeBuilder) -> (id: u8)
        requires
            old(self).wf(),
            builder.id is Some,
            old(self).node_counter < u8::MAX,
        ensures
            final(self).wf(),
            id == old(self).node_counter + 1,
            final(self).node_counter == id,
            final(self).reconnect_attempts == old(self).reconnect_attempts,
            final(self).nodes@.len() == old(self).nodes@.len() + 1,
            final(self).nodes@.subrange(0, old(self).nodes@.len() as int) == old(self).nodes@,
            final(self).nodes@.last().fresh_from(builder, id),
    {
        self.node_counter = self.node_counter + 1;
        let id = self.node_counter;
        let node = UniversalNode::new(builder, id);
        self.nodes.push(node);
        proof {
            assert(self.nodes@.subrange(0, old(self).nodes@.len() as int) =~= old(self).nodes@);
        }
        id
    }

    /// Picks a registered node with the minimum active-session count --
    /// with exactly one registered node, that node, whatever its load.
    /// Ties go to the first such node encountered. With an empty
    /// registry there is no best node.
    pub fn get_best(&self) -> (r: ClusterResult<u8>)
        ensures
            (exists|i: int| self.registered_at(i)) <==> r is Ok,
            r matches Ok(id) ==> exists|i: int|
                #[trigger] self.is_best(i) && self.nodes@[i].node_id == id,
            r is Err ==> r == Err::<u8, ClusterError>(ClusterError::CannotFindBestNode),
    {
        let mut best: Option<(usize, usize)> = None;
        let mut i: usize = 0;
        while i < self.nodes.len()
            invariant
                i <= self.nodes@.len(),
                best is None ==> forall|j: int| 0 <= j < i ==> !self.registered_at(j),
                best matches Some((bi, bc)) ==> {
                    &&& bi < i
                    &&& self.registered_at(bi as int)
                    &&& bc == self.session_count(bi as int)
                    &&& forall|j: int|
                        0 <= j < i && #[trigger] self.registered_at(j) ==> bc
                            <= self.session_count(j)
                },
            decreases self.nodes@.len() - i,
        {
            if self.nodes[i].conn_state == ConnState::Connected {
                let c = self.nodes[i].players.len();
                match best {
                    None => {
                        best = Some((i, c));
                    },
                    Some((_, bc)) => {
                        if c < bc {
                            best = Some((i, c));
                        }
                    },
                }
            }
            i = i + 1;
        }
        match best {
            Some((bi, _)) => {
                assert(self.is_best(bi as int));
                Ok(self.nodes[bi].node_id)
            },
            None => Err(ClusterError::CannotFindBestNode),
        }
    }

    /// Finds the registered node serving the given guild: the one whose
    /// player map contains it. Succeeds exactly when some registered
    /// node's player map contains the guild.
    pub fn get_player_node(&self, guild: u64) -> (r: ClusterResult<u8>)
        ensures
            (exists|i: int|
                #[trigger] self.registered_at(i) && self.nodes@[i].players@.contains_key(guild))
                <==> r is Ok,
            r matches Ok(id) ==> exists|i: int|
                #[trigger] self.registered_at(i) && self.nodes@[i].players@.contains_key(guild)
                    && self.nodes@[i].node_id == id,
            r is Err ==> r == Err::<u8, ClusterError>(ClusterError::CannotFindNode),
    {
        let mut i: usize = 0;
        while i < self.nodes.len()
            invariant
                i <= self.nodes@.len(),
                forall|j: int|
                    0 <= j < i ==> !(#[trigger] self.registered_at(j)
                        && self.nodes@[j].players@.contains_key(guild)),
            decreases self.nodes@.len() - i,
        {
            if self.nodes[i].conn_state == ConnState::Connected && self.nodes[i].players.contains_key(
                &guild,
            ) {
                proof {
                    assert(self.registered_at(i as int));
                    assert(self.nodes@[i as int].players@.contains_key(guild));
                }
                return Ok(self.nodes[i].node_id);
            }
            i = i + 1;
        }
        Err(ClusterError::CannotFindNode)
    }

    /// The index of the node with the given id, if the cluster owns one.
    pub fn find_node(&self, node_id: u8) -> (r: Option<usize>)
        ensures
            r matches Some(i) ==> i < self.nodes@.len() && self.nodes@[i as int].node_id
                == node_id,
            r is None ==> forall|i: int|
                0 <= i < self.nodes@.len() ==> #[trigger] self.nodes@[i].node_id != node_id,
    {
        let mut i: usize = 0;
        while i < self.nodes.len()
            invariant
                i <= self.nodes@.len(),
                forall|j: int| 0 <= j < i ==> #[trigger] self.nodes@[j].node_id != node_id,
            decreases self.nodes@.len() - i,
        {
            if self.nodes[i].node_id == node_id {
                return Some(i);
            }
            i = i + 1;
        }
        None
    }

    /// Borrows the node with the given id.
    pub fn get_node(&self, node_id: u8) -> (r: Option<&UniversalNode>)
        ensures
            r matches Some(n) ==> exists|i: int|
                0 <= i < self.nodes@.len() && self.nodes@[i] == *n && #[trigger] self.nodes@[i].node_id
                    == node_id,
            r is None ==> forall|i: int|
                0 <= i < self.nodes@.len() ==> #[trigger] self.nodes@[i].node_id != node_id,
    {
        match self.find_node(node_id) {
            Some(i) => Some(&self.nodes[i]),
            None => None,
        }
    }

    /// Borrows the node with the given id for mutation; the cluster
    /// afterwards holds whatever the caller made of that node, every
    /// other node untouched.
    pub fn get_node_mut(&mut self, node_id: u8) -> (r: Option<&mut UniversalNode>)
        ensures
            r matches Some(n) ==> exists|i: int|
                {
                    &&& 0 <= i < old(self).nodes@.len()
                    &&& #[trigger] old(self).nodes@[i].node_id == node_id
                    &&& *n == old(self).nodes@[i]
                    &&& final(self).nodes@ == old(self).nodes@.update(i, *final(n))
                },
            r is None ==> *final(self) == *old(self) && forall|i: int|
                0 <= i < old(self).nodes@.len() ==> #[trigger] old(self).nodes@[i].node_id
                    != node_id,
    {
        match self.find_node(node_id) {
            Some(i) => Some(&mut self.nodes[i]),
            None => None,
        }
    }
}

/// Configuration from which a cluster is built: the node configurations
/// and the shared reconnection policy.
#[derive(Debug)]
pub struct ClusterBuilder {
    pub nodes: Vec<NodeBuilder>,
    pub reconnect_attempts: u8,
}

impl ClusterBuilder {
    /// An empty configuration with the default ceiling of five
    /// consecutive connection attempts.
    pub fn new() -> (r: Self)
        ensures
            r.nodes@.len() == 0,
            r.reconnect_attempts == 5,
    {
        ClusterBuilder { nodes: Vec::new(), reconnect_attempts: 5 }
    }

    /// Adds one node configuration.
    pub fn add_node(&mut self, builder: NodeBuilder) -> (ret: &mut Self)
        ensures
            ret.nodes@ == old(self).nodes@.push(builder),
            ret.reconnect_attempts == old(self).reconnect_attempts,
            *final(self) == *final(ret),
    {
        self.nodes.push(builder);
        self
    }

    /// Sets the ceiling of consecutive connection attempts.
    pub fn reconnect_attempts(&mut self, attempts: u8) -> (ret: &mut Self)
        ensures
            ret.reconnect_attempts == attempts,
            ret.nodes@ == old(self).nodes@,
            *final(self) == *final(ret),
    {
        self.reconnect_attempts = attempts;
        self
    }

    /// Builds the cluster: each configured node gets the next id, first
    /// id 1, all in the disconnected state, ready for their lifecycle
    /// tasks.
    pub fn build(self) -> (r: Cluster)
        requires
            forall|i: int| 0 <= i < self.nodes@.len() ==> (#[trigger] self.nodes@[i]).id is Some,
            self.nodes@.len() <= u8::MAX,
        ensures
            r.wf(),
            r.reconnect_attempts == self.reconnect_attempts,
            r.node_counter == self.nodes@.len(),
            r.nodes@.len() == self.nodes@.len(),
            forall|i: int|
                0 <= i < self.nodes@.len() ==> #[trigger] r.nodes@[i].fresh_from(
                    self.nodes@[i],
                    (i + 1) as u8,
                ),
    {
        let ghost configs = self.nodes@;
        let mut remaining = self.nodes;
        let mut nodes: Vec<UniversalNode> = Vec::new();
        while remaining.len() > 0
            invariant
                configs.len() <= u8::MAX,
                nodes@.len() + remaining@.len() == configs.len(),
                remaining@ == configs.subrange(nodes@.len() as int, configs.len() as int),
                forall|i: int| 0 <= i < configs.len() ==> (#[trigger] configs[i]).id is Some,
                forall|i: int|
                    0 <= i < nodes@.len() ==> #[trigger] nodes@[i].fresh_from(
                        configs[i],
                        (i + 1) as u8,
                    ),
            decreases remaining@.len(),
        {
            let b = remaining.remove(0);
            let id = (nodes.len() + 1) as u8;
            let node = UniversalNode::new(b, id);
            nodes.push(node);
            proof {
                assert(remaining@ =~= configs.subrange(nodes@.len() as int, configs.len() as int));
            }
        }
        let counter = nodes.len() as u8;
        let cluster = Cluster {
            nodes,
            reconnect_attempts: self.reconnect_attempts,
            node_counter: counter,
        };
        proof {
            assert forall|i: int, j: int|
                0 <= i < j < cluster.nodes@.len() implies #[trigger] cluster.nodes@[i].node_id
                != #[trigger] cluster.nodes@[j].node_id by {
                assert(cluster.nodes@[i].fresh_from(configs[i], (i + 1) as u8));
                assert(cluster.nodes@[j].fresh_from(configs[j], (j + 1) as u8));
            }
            assert forall|i: int|
                0 <= i < cluster.nodes@.len() implies 1 <= #[trigger] cluster.nodes@[i].node_id
                <= cluster.node_counter by {
                assert(cluster.nodes@[i].fresh_from(configs[i], (i + 1) as u8));
            }
        }
        cluster
    }
}

} // verus!
