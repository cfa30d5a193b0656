//! An in-memory graph service that knows one example graph.
use vstd::prelude::*;

use crate::json::{single_field_object, string_field_object};
use crate::text::{is_blank, trim_str};

verus! {

/// The identifier of the one graph the service knows.
pub open spec fn known_id() -> Seq<char> {
    "graph-1"@
}

/// The name of the one graph the service knows.
pub open spec fn known_name() -> Seq<char> {
    "Example Graph"@
}

/// What the service reports about a graph.
#[derive(Debug)]
pub struct GraphInfo {
    pub id: String,
    pub name: String,
}

/// The outcome of a query against a graph.
#[derive(Debug)]
pub struct QueryResult {
    pub graph_id: String,
    pub result: serde_json::Value,
}

/// An exported graph in some format.
#[derive(Debug)]
pub struct ExportResult {
    pub graph_id: String,
    pub format: String,
    pub payload: String,
}

/// Why the service refused a request.
#[derive(Debug)]
pub enum LibraryError {
    NotFound(String),
    InvalidInput(String),
}

/// Whether `s` holds whitespace only.
fn blank(s: &str) -> (r: bool)
    ensures
        r == is_blank(s@),
{
    trim_str(s).unicode_len() == 0
}

/// Registers a graph under `name`; a blank name is refused.
pub fn create_graph(name: String) -> (r: Result<GraphInfo, LibraryError>)
    ensures
        is_blank(name@) ==> (r matches Err(LibraryError::InvalidInput(m)) && m@
            == "graph name cannot be empty"@),
        !is_blank(name@) ==> (r matches Ok(g) && g.id@ == known_id() && g.name == name),
{
    if blank(name.as_str()) {
        return Err(LibraryError::InvalidInput(String::from_str("graph name cannot be empty")));
    }
    proof {
        reveal_strlit("graph-1");
    }
    Ok(GraphInfo { id: String::from_str("graph-1"), name })
}

/// Looks a graph up by its identifier.
pub fn get_graph(id: String) -> (r: Result<GraphInfo, LibraryError>)
    ensures
        is_blank(id@) ==> (r matches Err(LibraryError::InvalidInput(m)) && m@
            == "graph id cannot be empty"@),
        !is_blank(id@) && id@ != known_id() ==> (r matches Err(LibraryError::NotFound(m)) && m@
            == "graph "@ + id@ + " not found"@),
        !is_blank(id@) && id@ == known_id() ==> (r matches Ok(g) && g.id == id && g.name@
            == known_name()),
{
    if blank(id.as_str()) {
        return Err(LibraryError::InvalidInput(String::from_str("graph id cannot be empty")));
    }
    let known = String::from_str("graph-1");
    if id != known {
        let mut m = String::from_str("graph ");
        m.append(id.as_str());
        m.append(" not found");
        return Err(LibraryError::NotFound(m));
    }
    Ok(GraphInfo { id, name: String::from_str("Example Graph") })
}

/// Runs a query against a graph; the result is an object whose `message` echoes the query.
pub fn run_query(graph_id: String, query: String) -> (r: Result<QueryResult, LibraryError>)
    ensures
        is_blank(graph_id@) ==> (r matches Err(LibraryError::InvalidInput(m)) && m@
            == "graph id cannot be empty"@),
        !is_blank(graph_id@) ==> (r matches Ok(q) && q.graph_id == graph_id && q.result
            == single_field_object("message"@, "query executed: "@ + query@)),
{
    if blank(graph_id.as_str()) {
        return Err(LibraryError::InvalidInput(String::from_str("graph id cannot be empty")));
    }
    let mut text = String::from_str("query executed: ");
    text.append(query.as_str());
    let result = string_field_object(String::from_str("message"), text);
    Ok(QueryResult { graph_id, result })
}

/// Exports a graph in the requested format.
pub fn export_graph(graph_id: String, format: String) -> (r: Result<ExportResult, LibraryError>)
    ensures
        is_blank(graph_id@) ==> (r matches Err(LibraryError::InvalidInput(m)) && m@
            == "graph id cannot be empty"@),
        !is_blank(graph_id@) ==> (r matches Ok(e) && e.graph_id == graph_id && e.format == format
            && e.payload@ == "exported-data"@),
{
    if blank(graph_id.as_str()) {
        return Err(LibraryError::InvalidInput(String::from_str("graph id cannot be empty")));
    }
    Ok(ExportResult { graph_id, format, payload: String::from_str("exported-data") })
}

} // verus!
