//! The command layer: turns raw command-line values into graphs and reports.
use vstd::prelude::*;

use crate::hypergraph::{incident, Hypergraph, NodeQuery, Summary};
use crate::json::{is_json_text, json_error_text, json_value_of, parse_json};
use crate::text::{comma_tokens, list_tokens, views};

verus! {

/// The values that `create` is given.
pub struct CreateArgs {
    pub name: String,
    pub nodes: Vec<String>,
    pub edges: Vec<String>,
    pub metadata: Option<String>,
}

/// The values that `load` is given.
pub struct LoadArgs {
    pub input: String,
}

/// The values that `query` is given.
pub struct QueryArgs {
    pub input: String,
    pub node: Option<String>,
}

/// The values that `export` is given.
pub struct ExportArgs {
    pub input: String,
    pub output: String,
    pub pretty: bool,
}

/// Why a command failed; each variant carries a message that names the offending input.
#[derive(Debug)]
pub enum CommandError {
    /// A malformed edge definition or metadata blob.
    InvalidInput(String),
    /// A file that could not be read or written.
    Io(String),
    /// A document that does not have the shape of a hypergraph.
    Parse(String),
}

impl CommandError {
    /// A file at `path` could not be read.
    pub fn reading(path: &str, reason: &str) -> (r: Self)
        ensures
            r matches CommandError::Io(m) && m@ == "reading "@ + path@ + ": "@ + reason@,
    {
        let mut m = String::from_str("reading ");
        m.append(path);
        m.append(": ");
        m.append(reason);
        CommandError::Io(m)
    }

    /// The file at `path` does not hold a hypergraph document.
    pub fn parsing(path: &str, reason: &str) -> (r: Self)
        ensures
            r matches CommandError::Parse(m) && m@ == "parsing hypergraph JSON from "@ + path@
                + ": "@ + reason@,
    {
        let mut m = String::from_str("parsing hypergraph JSON from ");
        m.append(path);
        m.append(": ");
        m.append(reason);
        CommandError::Parse(m)
    }

    /// A file at `path` could not be written.
    pub fn writing(path: &str, reason: &str) -> (r: Self)
        ensures
            r matches CommandError::Io(m) && m@ == "writing "@ + path@ + ": "@ + reason@,
    {
        let mut m = String::from_str("writing ");
        m.append(path);
        m.append(": ");
        m.append(reason);
        CommandError::Io(m)
    }

    /// The human-readable message.
    pub fn message(&self) -> (r: String)
        ensures
            r@ == match self {
                CommandError::InvalidInput(m) => m@,
                CommandError::Io(m) => m@,
                CommandError::Parse(m) => m@,
            },
    {
        match self {
            CommandError::InvalidInput(m) => m.clone(),
            CommandError::Io(m) => m.clone(),
            CommandError::Parse(m) => m.clone(),
        }
    }
}

/// What a query reports: one node's incidences, or the graph's counts.
#[derive(Debug)]
pub enum QueryReport {
    Node(NodeQuery),
    Summary(Summary),
}

/// The message for an edge definition with no members.
pub open spec fn empty_edge_message(raw: Seq<char>) -> Seq<char> {
    "edge definition '"@ + raw + "' contains no nodes"@
}

/// The hyperedges that a list of definitions describes, if each names a member.
pub open spec fn edges_ok(raw: Seq<String>) -> bool {
    forall|i: int| 0 <= i < raw.len() ==> list_tokens(#[trigger] raw[i]@).len() > 0
}

/// Parses one edge definition `"a, b ,c"` into its members, trimmed, empty ones dropped.
pub fn parse_edge(raw: &str) -> (r: Result<Vec<String>, CommandError>)
    ensures
        list_tokens(raw@).len() > 0 ==> (r matches Ok(v) && views(v@) == list_tokens(raw@)),
        list_tokens(raw@).len() == 0 ==> (r matches Err(CommandError::InvalidInput(m))
            && m@ == empty_edge_message(raw@)),
{
    let nodes = comma_tokens(raw);
    if nodes.len() == 0 {
        let mut m = String::from_str("edge definition '");
        m.append(raw);
        m.append("' contains no nodes");
        proof {
            reveal_strlit("edge definition '");
            reveal_strlit("' contains no nodes");
        }
        return Err(CommandError::InvalidInput(m));
    }
    Ok(nodes)
}

/// Parses every edge definition in order; fails on the first one with no members.
pub fn parse_edges(edges: &Vec<String>) -> (r: Result<Vec<Vec<String>>, CommandError>)
    ensures
        edges_ok(edges@) ==> (r matches Ok(v) && v@.len() == edges@.len() && (forall|i: int|
            0 <= i < v@.len() ==> views(#[trigger] v@[i]@) == list_tokens(edges@[i]@))),
        !edges_ok(edges@) ==> (r matches Err(CommandError::InvalidInput(m)) && exists|i: int|
            0 <= i < edges@.len() && list_tokens(#[trigger] edges@[i]@).len() == 0 && (forall|
                j: int,
            |
                0 <= j < i ==> list_tokens(#[trigger] edges@[j]@).len() > 0) && m@
                == empty_edge_message(edges@[i]@)),
{
    let mut out: Vec<Vec<String>> = Vec::new();
    let mut i: usize = 0;
    while i < edges.len()
        invariant
            i <= edges@.len(),
            out@.len() == i,
            forall|k: int| 0 <= k < i ==> list_tokens(#[trigger] edges@[k]@).len() > 0,
            forall|k: int| 0 <= k < i ==> views(#[trigger] out@[k]@) == list_tokens(edges@[k]@),
        decreases edges@.len() - i,
    {
        match parse_edge(edges[i].as_str()) {
            Ok(v) => {
                out.push(v);
            },
            Err(e) => {
                return Err(e);
            },
        }
        i = i + 1;
    }
    Ok(out)
}

/// Whether an optional metadata blob is acceptable: absent, or one JSON document.
pub open spec fn metadata_ok(raw: Option<String>) -> bool {
    match raw {
        Some(s) => is_json_text(s@),
        None => true,
    }
}

/// The metadata value that an acceptable blob stands for.
pub open spec fn metadata_value(raw: Option<String>) -> Option<serde_json::Value> {
    match raw {
        Some(s) => Some(json_value_of(s@)),
        None => None,
    }
}

/// Parses the optional metadata blob as JSON.
pub fn parse_metadata(raw: Option<&str>) -> (r: Result<Option<serde_json::Value>, CommandError>)
    ensures
        raw is None ==> r matches Ok(None),
        raw matches Some(s) ==> (is_json_text(s@) ==> r == Ok::<
            Option<serde_json::Value>,
            CommandError,
        >(Some(json_value_of(s@)))),
        (raw matches Some(s) && !is_json_text(s@)) ==> (r matches Err(
            CommandError::InvalidInput(m),
        ) && "invalid metadata JSON: "@.is_prefix_of(m@)),
{
    match raw {
        Some(value) => match parse_json(value) {
            Ok(parsed) => Ok(Some(parsed)),
            Err(err) => {
                let mut m = String::from_str("invalid metadata JSON: ");
                let reason = json_error_text(&err);
                m.append(reason.as_str());
                proof {
                    reveal_strlit("invalid metadata JSON: ");
                    assert("invalid metadata JSON: "@.is_prefix_of(m@));
                }
                Err(CommandError::InvalidInput(m))
            },
        },
        None => Ok(None),
    }
}


/// Builds a graph from command-line values: parses the edge definitions and the metadata.
/// The name is taken as given, empty or not. Nothing is stored.
pub fn create(args: CreateArgs) -> (r: Result<Hypergraph, CommandError>)
    ensures
        !edges_ok(args.edges@) ==> (r matches Err(CommandError::InvalidInput(m)) && exists|
            i: int,
        |
            0 <= i < args.edges@.len() && list_tokens(#[trigger] args.edges@[i]@).len() == 0 && (
            forall|j: int| 0 <= j < i ==> list_tokens(#[trigger] args.edges@[j]@).len() > 0)
                && m@ == empty_edge_message(args.edges@[i]@)),
        (edges_ok(args.edges@) && !metadata_ok(args.metadata)) ==> (r matches Err(
            CommandError::InvalidInput(m),
        ) && "invalid metadata JSON: "@.is_prefix_of(m@)),
        (edges_ok(args.edges@) && metadata_ok(args.metadata)) ==> (r matches Ok(g) && g.name == args.name && g.nodes
            == args.nodes && g.hyperedges@.len() == args.edges@.len() && (forall|i: int|
            0 <= i < g.hyperedges@.len() ==> views(#[trigger] g.hyperedges@[i]@) == list_tokens(
                args.edges@[i]@,
            )) && g.metadata == metadata_value(args.metadata)),
{
    let edges = match parse_edges(&args.edges) {
        Ok(e) => e,
        Err(e) => {
            return Err(e);
        },
    };
    let raw = match &args.metadata {
        Some(m) => Some(m.as_str()),
        None => None,
    };
    let metadata = match parse_metadata(raw) {
        Ok(m) => m,
        Err(e) => {
            return Err(e);
        },
    };
    Ok(Hypergraph::create(args.name, args.nodes, edges, metadata))
}

/// Answers a query on a loaded graph: the node's incidences when a node is named,
/// else the graph's counts.
pub fn query(graph: &Hypergraph, args: &QueryArgs) -> (r: QueryReport)
    ensures
        args.node is None ==> (r matches QueryReport::Summary(s) && s.node_count
            == graph.nodes@.len() && s.edge_count == graph.hyperedges@.len()),
        args.node matches Some(x) ==> (r matches QueryReport::Node(q) && q.node@ == x@
            && q.present == graph.node_ids().contains(x@) && q.incident_edges@ == incident(
            graph.edges(),
            x@,
        )),
{
    match &args.node {
        Some(x) => QueryReport::Node(graph.query_node(x.as_str())),
        None => QueryReport::Summary(graph.summary()),
    }
}

} // verus!
