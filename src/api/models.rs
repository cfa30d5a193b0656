//! Request and response bodies of the HTTP façade.
use vstd::prelude::*;

verus! {

/// Body of a request to register a graph.
#[derive(Debug)]
pub struct CreateGraphRequest {
    pub name: String,
}

/// A graph's identifier and name.
#[derive(Debug)]
pub struct GraphResponse {
    pub id: String,
    pub name: String,
}

/// Body of a request to run a query.
#[derive(Debug)]
pub struct QueryRequest {
    pub graph_id: String,
    pub query: String,
}

/// The outcome of a query.
#[derive(Debug)]
pub struct QueryResponse {
    pub graph_id: String,
    pub result: serde_json::Value,
}

/// Body of a request to export a graph.
#[derive(Debug)]
pub struct ExportRequest {
    pub graph_id: String,
    pub format: String,
}

/// An exported graph.
#[derive(Debug)]
pub struct ExportResponse {
    pub graph_id: String,
    pub format: String,
    pub payload: String,
}

/// The body sent with a failed request.
#[derive(Debug)]
pub struct ErrorResponse {
    pub code: String,
    pub message: String,
}

} // verus!
