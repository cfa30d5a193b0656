//! The hypergraph model: nodes, n-ary hyperedges and opaque metadata.
use vstd::prelude::*;

use crate::text::views;

verus! {

/// A named hypergraph. Edges are referred to by their position in `hyperedges`.
#[derive(Debug, Clone)]
pub struct Hypergraph {
    pub name: String,
    pub nodes: Vec<String>,
    pub hyperedges: Vec<Vec<String>>,
    pub metadata: Option<serde_json::Value>,
}

/// The node and edge counts of a graph.
#[derive(Debug, Clone, Copy, PartialEq, Eq)]
pub struct Summary {
    pub node_count: usize,
    pub edge_count: usize,
}

/// What a graph says about one node identifier.
#[derive(Debug)]
pub struct NodeQuery {
    pub node: String,
    pub present: bool,
    pub incident_edges: Vec<usize>,
}

/// The members of each edge, as character sequences.
pub open spec fn edge_views(edges: Seq<Vec<String>>) -> Seq<Seq<Seq<char>>> {
    edges.map_values(|e: Vec<String>| views(e@))
}

/// The ascending positions `i < n` at which `edges[i]` contains `x`.
pub open spec fn incident_upto(edges: Seq<Seq<Seq<char>>>, x: Seq<char>, n: nat) -> Seq<usize>
    decreases n,
{
    if n == 0 {
        Seq::empty()
    } else {
        let rest = incident_upto(edges, x, (n - 1) as nat);
        if edges[n - 1].contains(x) {
            rest.push((n - 1) as usize)
        } else {
            rest
        }
    }
}

/// The ascending positions of the edges that contain `x`.
pub open spec fn incident(edges: Seq<Seq<Seq<char>>>, x: Seq<char>) -> Seq<usize> {
    incident_upto(edges, x, edges.len())
}


proof fn lemma_incident_upto(edges: Seq<Seq<Seq<char>>>, x: Seq<char>, n: nat)
    requires
        n <= edges.len(),
        n <= usize::MAX,
    ensures
        forall|a: int, b: int|
            0 <= a < b < incident_upto(edges, x, n).len() ==> incident_upto(edges, x, n)[a]
                < incident_upto(edges, x, n)[b],
        forall|j: int|
            0 <= j < incident_upto(edges, x, n).len() ==> incident_upto(edges, x, n)[j] < n,
        forall|i: usize|
            i < n ==> (edges[i as int].contains(x) <==> incident_upto(edges, x, n).contains(i)),
    decreases n,
{
    if n > 0 {
        lemma_incident_upto(edges, x, (n - 1) as nat);
        let rest = incident_upto(edges, x, (n - 1) as nat);
        let cur = incident_upto(edges, x, n);
        assert forall|i: usize| i < n implies (edges[i as int].contains(x) <==> cur.contains(i)) by {
            if i < n - 1 {
                if cur.contains(i) && !rest.contains(i) {
                    let j = choose|j: int| 0 <= j < cur.len() && cur[j] == i;
                    assert(j == rest.len());
                }
                if rest.contains(i) {
                    let j = choose|j: int| 0 <= j < rest.len() && rest[j] == i;
                    assert(cur[j] == i);
                }
            } else {
                if edges[i as int].contains(x) {
                    assert(cur[rest.len() as int] == i);
                } else if cur.contains(i) {
                    let j = choose|j: int| 0 <= j < cur.len() && cur[j] == i;
                    assert(rest[j] < n - 1);
                }
            }
        }
    }
}

/// The incident edges of `x` are exactly the positions of the hyperedges that contain `x`,
/// each once, in ascending order.
pub proof fn lemma_incident_edges(g: &Hypergraph, x: Seq<char>)
    ensures
        forall|a: int, b: int|
            0 <= a < b < incident(g.edges(), x).len() ==> incident(g.edges(), x)[a] < incident(
                g.edges(),
                x,
            )[b],
        forall|i: usize|
            i < g.hyperedges@.len() ==> (views(g.hyperedges@[i as int]@).contains(x)
                <==> incident(g.edges(), x).contains(i)),
        forall|j: int|
            0 <= j < incident(g.edges(), x).len() ==> incident(g.edges(), x)[j]
                < g.hyperedges@.len(),
{
    assert(g.edges().len() == g.hyperedges@.len());
    assert(g.hyperedges@.len() <= usize::MAX) by {
        assert(g.hyperedges.len() == g.hyperedges@.len());
    }
    lemma_incident_upto(g.edges(), x, g.edges().len());
}

impl Hypergraph {
    /// The node identifiers, in order.
    pub open spec fn node_ids(&self) -> Seq<Seq<char>> {
        views(self.nodes@)
    }

    /// The members of each hyperedge, in order.
    pub open spec fn edges(&self) -> Seq<Seq<Seq<char>>> {
        edge_views(self.hyperedges@)
    }

    /// Builds a graph from its parts, as given.
    pub fn create(
        name: String,
        nodes: Vec<String>,
        hyperedges: Vec<Vec<String>>,
        metadata: Option<serde_json::Value>,
    ) -> (r: Self)
        ensures
            r.name == name,
            r.nodes == nodes,
            r.hyperedges == hyperedges,
            r.metadata == metadata,
    {
        Hypergraph { name, nodes, hyperedges, metadata }
    }

    /// How many nodes and hyperedges the graph holds.
    pub fn summary(&self) -> (r: Summary)
        ensures
            r.node_count == self.nodes@.len(),
            r.edge_count == self.hyperedges@.len(),
    {
        Summary { node_count: self.nodes.len(), edge_count: self.hyperedges.len() }
    }

    /// Whether `node` is among the nodes, and which hyperedges contain it.
    pub fn query_node(&self, node: &str) -> (r: NodeQuery)
        ensures
            r.node@ == node@,
            r.present == self.node_ids().contains(node@),
            r.incident_edges@ == incident(self.edges(), node@),
    {
        let target = String::from_str(node);
        let mut incident_edges: Vec<usize> = Vec::new();
        let mut i: usize = 0;
        while i < self.hyperedges.len()
            invariant
                i <= self.hyperedges@.len(),
                target@ == node@,
                incident_edges@ == incident_upto(self.edges(), node@, i as nat),
            decreases self.hyperedges@.len() - i,
        {
            if contains_string(&self.hyperedges[i], &target) {
                incident_edges.push(i);
            }
            i = i + 1;
        }
        let present = contains_string(&self.nodes, &target);
        NodeQuery { node: target, present, incident_edges }
    }
}

/// Whether `items` holds a string equal to `x`.
pub fn contains_string(items: &Vec<String>, x: &String) -> (r: bool)
    ensures
        r == views(items@).contains(x@),
{
    let mut i: usize = 0;
    while i < items.len()
        invariant
            i <= items@.len(),
            forall|k: int| 0 <= k < i ==> items@[k]@ != x@,
        decreases items@.len() - i,
    {
        if items[i] == *x {
            proof {
                assert(views(items@)[i as int] == x@);
            }
            return true;
        }
        i = i + 1;
    }
    proof {
        if views(items@).contains(x@) {
            let k = choose|k: int| 0 <= k < views(items@).len() && views(items@)[k] == x@;
            assert(items@[k]@ == x@);
        }
    }
    false
}

} // verus!
