use manifold::api::error::ApiError;
use manifold::library::{create_graph, export_graph, get_graph, run_query, LibraryError};

#[test]
fn create_graph_rejects_blank_name() {
    match create_graph("  \t".to_string()) {
        Err(LibraryError::InvalidInput(m)) => assert_eq!(m, "graph name cannot be empty"),
        other => panic!("unexpected {:?}", other),
    }
    let g = create_graph("My graph".to_string()).unwrap();
    assert_eq!(g.id, "graph-1");
    assert_eq!(g.name, "My graph");
}

#[test]
fn get_graph_knows_one_graph() {
    let g = get_graph("graph-1".to_string()).unwrap();
    assert_eq!(g.id, "graph-1");
    assert_eq!(g.name, "Example Graph");
    match get_graph("graph-2".to_string()) {
        Err(LibraryError::NotFound(m)) => assert_eq!(m, "graph graph-2 not found"),
        other => panic!("unexpected {:?}", other),
    }
    match get_graph(String::new()) {
        Err(LibraryError::InvalidInput(m)) => assert_eq!(m, "graph id cannot be empty"),
        other => panic!("unexpected {:?}", other),
    }
}

#[test]
fn run_query_echoes_query() {
    let r = run_query("g".to_string(), "MATCH x".to_string()).unwrap();
    assert_eq!(r.graph_id, "g");
    assert_eq!(r.result["message"], serde_json::Value::from("query executed: MATCH x"));
    assert!(matches!(run_query(" ".to_string(), "q".to_string()), Err(LibraryError::InvalidInput(_))));
}

#[test]
fn export_graph_payload() {
    let e = export_graph("g".to_string(), "json".to_string()).unwrap();
    assert_eq!((e.graph_id.as_str(), e.format.as_str(), e.payload.as_str()), ("g", "json", "exported-data"));
    match export_graph("\n".to_string(), "json".to_string()) {
        Err(LibraryError::InvalidInput(m)) => assert_eq!(m, "graph id cannot be empty"),
        other => panic!("unexpected {:?}", other),
    }
}

#[test]
fn api_errors_map_library_errors() {
    let e = ApiError::from_library(LibraryError::NotFound("gone".to_string()));
    assert_eq!((e.status, e.code.as_str(), e.message.as_str()), (404, "not_found", "gone"));
    let e = ApiError::from_library(LibraryError::InvalidInput("bad".to_string()));
    assert_eq!((e.status, e.code.as_str()), (400, "bad_request"));
    let e = ApiError::internal("boom".to_string());
    assert_eq!((e.status, e.code.as_str()), (500, "internal_error"));
    let (status, body) = ApiError::not_found("x".to_string()).into_parts();
    assert_eq!((status, body.code.as_str(), body.message.as_str()), (404, "not_found", "x"));
}
