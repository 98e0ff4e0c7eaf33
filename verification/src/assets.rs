//! Infrastructure graph: relationships between discovered hosts.

use std::collections::HashMap;

use vstd::prelude::*;

use crate::addr::IpAddr;
use crate::id::HostId;

verus! {

broadcast use vstd::std_specs::hash::group_hash_axioms;

/// Errors related to asset and graph building operations.
#[derive(Debug, Clone, PartialEq, Eq)]
pub enum AssetError {
    /// Failed to build or traverse the infrastructure graph.
    GraphBuild(String),
}

/// The type of relationship between two assets.
#[derive(Debug, Clone, Copy, PartialEq, Eq, Structural)]
pub enum RelationType {
    /// Asset A routes traffic to Asset B (e.g., Gateway -> Firewall).
    RoutesTo,
    /// Asset A balances traffic to Asset B.
    BalancesTo,
    /// Asset A is an API gateway serving endpoints on Asset B.
    ProxiesTo,
    /// Asset A shares a subnet with Asset B.
    PeersWith,
}

/// An edge connecting two nodes in the infrastructure graph.
#[derive(Debug, Clone, Copy, PartialEq, Eq, Structural)]
pub struct GraphEdge {
    /// Source asset ID.
    pub source: HostId,
    /// Target asset ID.
    pub target: HostId,
    /// The nature of their relationship.
    pub relation: RelationType,
    /// How confident the inference is, 0.0–1.0, as the bits of an IEEE-754 `f32`.
    pub confidence_bits: u32,
}

/// A directed graph representing the physical and logical network infrastructure.
pub struct InfraGraph {
    /// Adjacency list: the UUID value of an asset to its outgoing edges.
    pub edges: HashMap<u128, Vec<GraphEdge>>,
}

impl InfraGraph {
    /// Create a new empty infrastructure graph.
    pub fn new() -> (g: Self)
        ensures
            g.edges@ == Map::<u128, Vec<GraphEdge>>::empty(),
    {
        InfraGraph { edges: HashMap::new() }
    }

    /// Add a relationship edge to the graph: appended to its source's list.
    pub fn add_edge(&mut self, edge: GraphEdge)
        ensures
            final(self).edges@.dom() == old(self).edges@.dom().insert(edge.source.0),
            final(self).edges@[edge.source.0]@ == (if old(self).edges@.contains_key(edge.source.0) {
                old(self).edges@[edge.source.0]@
            } else {
                Seq::empty()
            }).push(edge),
            forall|k: u128| k != edge.source.0 && #[trigger] old(self).edges@.contains_key(k)
                ==> final(self).edges@[k] == old(self).edges@[k],
    {
        let key = edge.source.0;
        let mut list = match self.edges.remove(&key) {
            Some(l) => l,
            None => Vec::new(),
        };
        list.push(edge);
        self.edges.insert(key, list);
        proof {
            assert(final(self).edges@.dom() =~= old(self).edges@.dom().insert(edge.source.0));
        }
    }

    /// The outgoing edges of an asset, if it has any.
    pub fn edges_from(&self, source: HostId) -> (r: Option<&Vec<GraphEdge>>)
        ensures
            self.edges@.contains_key(source.0) ==> r == Some(&self.edges@[source.0]),
            !self.edges@.contains_key(source.0) ==> r is None,
    {
        self.edges.get(&source.0)
    }
}

/// Builder responsible for digesting scan observations and inferring graph edges.
pub struct GraphBuilder;

impl GraphBuilder {
    /// Create a new `GraphBuilder`.
    pub fn new() -> (b: Self) {
        GraphBuilder
    }

    /// Build an `InfraGraph` from a list of discovered IPs. No inference is
    /// made yet: the graph has no edges.
    pub fn build_from_scan(&self, ips: &[IpAddr]) -> (r: Result<InfraGraph, AssetError>)
        ensures
            r matches Ok(g) && g.edges@ == Map::<u128, Vec<GraphEdge>>::empty(),
    {
        Ok(InfraGraph::new())
    }
}

} // verus!
