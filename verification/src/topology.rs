//! The directed peer-trust graph of a scenario.
//!
//! Every node declares the aliases it trusts as gossip peers.  Cycles are
//! allowed (the graph models gossip, not a dependency order), but a link
//! to an alias nobody registered is a construction-time failure: the
//! network never starts with a dangling reference.

use vstd::prelude::*;

use crate::errors::ScenarioError;

verus! {

/// One node of the topology: its alias and the aliases it trusts.
///
/// Aliases are expected to be unique within one scenario; that, like the
/// absence of self-loops, is the caller's responsibility and is not
/// enforced structurally.
#[derive(Debug, Clone, PartialEq, Eq)]
pub struct Node {
    pub alias: String,
    pub trusted_peers: Vec<String>,
}

impl Node {
    /// A node with no trusted peers yet.
    pub fn new(alias: &str) -> (r: Node)
        ensures
            r.alias@ == alias@,
            r.trusted_peers@.len() == 0,
    {
        Node { alias: alias.to_owned(), trusted_peers: Vec::new() }
    }

    /// Declares one more trusted peer.
    pub fn add_trusted_peer(&mut self, alias: &str)
        ensures
            final(self).alias == old(self).alias,
            final(self).trusted_peers@.len() == old(self).trusted_peers@.len() + 1,
            forall|k: int|
                0 <= k < old(self).trusted_peers@.len() ==> final(self).trusted_peers@[k] == old(
                    self,
                ).trusted_peers@[k],
            final(self).trusted_peers@.last()@ == alias@,
    {
        self.trusted_peers.push(alias.to_owned());
    }
}

/// Some registered node carries the alias.
pub open spec fn has_alias(nodes: Seq<Node>, alias: Seq<char>) -> bool {
    exists|i: int| 0 <= i < nodes.len() && nodes[i].alias@ == alias
}

/// Every trusted peer the node declares is a registered alias.
pub open spec fn peers_registered(nodes: Seq<Node>, node: Node) -> bool {
    forall|j: int|
        0 <= j < node.trusted_peers@.len() ==> has_alias(nodes, #[trigger] node.trusted_peers@[j]@)
}

/// Every trusted-peer reference of every node resolves to a registered
/// node: the validity condition of a topology.
pub open spec fn topology_ok(nodes: Seq<Node>) -> bool {
    forall|i: int| 0 <= i < nodes.len() ==> peers_registered(nodes, #[trigger] nodes[i])
}

/// Whether any registered node carries the alias.
fn contains_alias(nodes: &Vec<Node>, alias: &String) -> (r: bool)
    ensures
        r == has_alias(nodes@, alias@),
{
    let n = nodes.len();
    let mut i: usize = 0;
    while i < n
        invariant
            0 <= i <= n,
            n == nodes@.len(),
            forall|k: int| 0 <= k < i ==> nodes@[k].alias@ != alias@,
        decreases n - i,
    {
        if nodes[i].alias == *alias {
            return true;
        }
        i = i + 1;
    }
    false
}

/// Collects declared nodes and validates their links into a `Topology`.
#[derive(Debug, Clone, PartialEq, Eq)]
pub struct TopologyBuilder {
    pub nodes: Vec<Node>,
}

impl TopologyBuilder {
    pub fn new() -> (r: TopologyBuilder)
        ensures
            r.nodes@.len() == 0,
    {
        TopologyBuilder { nodes: Vec::new() }
    }

    /// Registers one declared node.
    pub fn register_node(&mut self, node: Node)
        ensures
            final(self).nodes@ == old(self).nodes@.push(node),
    {
        self.nodes.push(node);
    }

    /// Validates every trusted-peer reference and freezes the topology.
    ///
    /// Succeeds exactly when every referenced trusted-peer alias is a
    /// registered node; otherwise fails with `NodeNotFound` naming a
    /// dangling reference.
    pub fn build(self) -> (r: Result<Topology, ScenarioError>)
        ensures
            match r {
                Ok(t) => topology_ok(self.nodes@) && t.nodes@ == self.nodes@,
                Err(e) => {
                    &&& !topology_ok(self.nodes@)
                    &&& e matches ScenarioError::NodeNotFound(a)
                    &&& !has_alias(self.nodes@, a@)
                    &&& exists|i: int, j: int|
                        0 <= i < self.nodes@.len() && 0 <= j
                            < self.nodes@[i].trusted_peers@.len()
                            && self.nodes@[i].trusted_peers@[j]@ == a@
                },
            },
    {
        let n = self.nodes.len();
        let mut i: usize = 0;
        while i < n
            invariant
                0 <= i <= n,
                n == self.nodes@.len(),
                forall|k: int| 0 <= k < i ==> peers_registered(self.nodes@, #[trigger] self.nodes@[k]),
            decreases n - i,
        {
            let node = &self.nodes[i];
            let m = node.trusted_peers.len();
            let mut j: usize = 0;
            while j < m
                invariant
                    0 <= j <= m,
                    0 <= i < n,
                    n == self.nodes@.len(),
                    m == self.nodes@[i as int].trusted_peers@.len(),
                    node == self.nodes@[i as int],
                    forall|k: int|
                        0 <= k < j ==> has_alias(
                            self.nodes@,
                            #[trigger] self.nodes@[i as int].trusted_peers@[k]@,
                        ),
                decreases m - j,
            {
                let peer = &node.trusted_peers[j];
                if !contains_alias(&self.nodes, peer) {
                    return Err(ScenarioError::NodeNotFound(peer.clone()));
                }
                j = j + 1;
            }
            i = i + 1;
        }
        Ok(Topology { nodes: self.nodes })
    }
}

/// A validated, immutable peer-trust graph: every reference resolves.
#[derive(Debug, Clone, PartialEq, Eq)]
pub struct Topology {
    pub nodes: Vec<Node>,
}

impl Topology {
    /// The validity condition `build` established.
    pub open spec fn wf(&self) -> bool {
        topology_ok(self.nodes@)
    }

    /// Whether the alias names a node of this topology.
    pub fn contains(&self, alias: &String) -> (r: bool)
        ensures
            r == has_alias(self.nodes@, alias@),
    {
        contains_alias(&self.nodes, alias)
    }

    /// How many nodes the topology holds.
    pub fn node_count(&self) -> (r: usize)
        ensures
            r == self.nodes@.len(),
    {
        self.nodes.len()
    }

    /// The aliases of all nodes, in registration order.
    pub fn aliases(&self) -> (r: Vec<String>)
        ensures
            r@.len() == self.nodes@.len(),
            forall|i: int| 0 <= i < r@.len() ==> r@[i]@ == #[trigger] self.nodes@[i].alias@,
    {
        let n = self.nodes.len();
        let mut out: Vec<String> = Vec::new();
        let mut i: usize = 0;
        while i < n
            invariant
                0 <= i <= n,
                n == self.nodes@.len(),
                out@.len() == i,
                forall|k: int| 0 <= k < i ==> out@[k]@ == #[trigger] self.nodes@[k].alias@,
            decreases n - i,
        {
            out.push(self.nodes[i].alias.clone());
            i = i + 1;
        }
        out
    }
}

} // verus!
