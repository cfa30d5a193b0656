//! Hypergraphs (named nodes and n-ary hyperedges) with verified construction, summaries,
//! node queries and command-line parsing, plus a small in-memory graph service.
pub mod api;
pub mod commands;
pub mod hypergraph;
pub mod json;
pub mod library;
pub mod text;
