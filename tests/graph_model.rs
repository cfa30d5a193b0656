use manifold::commands::{create, parse_edge, parse_edges, parse_metadata, query};
use manifold::commands::{CommandError, CreateArgs, QueryArgs, QueryReport};
use manifold::hypergraph::{contains_string, Hypergraph};
use manifold::text::{comma_tokens, is_space_char, trim_str};

fn strings(items: &[&str]) -> Vec<String> {
    items.iter().map(|s| s.to_string()).collect()
}

fn sample_graph() -> Hypergraph {
    Hypergraph::create(
        "G".to_string(),
        strings(&["a", "b"]),
        vec![strings(&["a", "b"]), strings(&["b"])],
        None,
    )
}

#[test]
fn parse_edge_trims_and_drops_empty_segments() {
    let parsed = parse_edge("a, b ,c").unwrap();
    assert_eq!(parsed, strings(&["a", "b", "c"]));
    let parsed = parse_edge(",, x ,,\ty\n,").unwrap();
    assert_eq!(parsed, strings(&["x", "y"]));
}

#[test]
fn parse_edge_keeps_inner_spaces() {
    let parsed = parse_edge("  new york , la").unwrap();
    assert_eq!(parsed, strings(&["new york", "la"]));
}

#[test]
fn parse_edge_blank_definition_fails_naming_it() {
    match parse_edge(" , ,  ") {
        Err(CommandError::InvalidInput(m)) => {
            assert_eq!(m, "edge definition ' , ,  ' contains no nodes")
        }
        other => panic!("unexpected {:?}", other),
    }
    match parse_edge("") {
        Err(CommandError::InvalidInput(m)) => {
            assert_eq!(m, "edge definition '' contains no nodes")
        }
        other => panic!("unexpected {:?}", other),
    }
}

#[test]
fn parse_edges_stops_at_first_bad_definition() {
    let ok = parse_edges(&strings(&["a,b", "c"])).unwrap();
    assert_eq!(ok, vec![strings(&["a", "b"]), strings(&["c"])]);
    match parse_edges(&strings(&["a", " ", ","])) {
        Err(CommandError::InvalidInput(m)) => {
            assert_eq!(m, "edge definition ' ' contains no nodes")
        }
        other => panic!("unexpected {:?}", other),
    }
    assert!(parse_edges(&Vec::new()).unwrap().is_empty());
}

#[test]
fn parse_metadata_accepts_json_and_absence() {
    assert!(parse_metadata(None).unwrap().is_none());
    let value = parse_metadata(Some("{\"k\": [1, 2]}")).unwrap().unwrap();
    assert_eq!(value["k"][1], serde_json::Value::from(2));
}

#[test]
fn create_with_bad_metadata_is_invalid_input() {
    let args = CreateArgs {
        name: "G".to_string(),
        nodes: strings(&["a"]),
        edges: strings(&["a"]),
        metadata: Some("{not json}".to_string()),
    };
    match create(args) {
        Err(CommandError::InvalidInput(m)) => {
            assert!(m.starts_with("invalid metadata JSON: "));
            assert!(m.len() > "invalid metadata JSON: ".len());
        }
        other => panic!("unexpected {:?}", other),
    }
}

#[test]
fn create_accepts_an_empty_name() {
    let args = CreateArgs {
        name: String::new(),
        nodes: strings(&["a", "b"]),
        edges: strings(&["a,b"]),
        metadata: None,
    };
    let g = create(args).unwrap();
    assert_eq!(g.name, "");
    assert_eq!(g.nodes, strings(&["a", "b"]));
    assert_eq!(g.hyperedges, vec![strings(&["a", "b"])]);
    assert!(g.metadata.is_none());
}

#[test]
fn create_parses_edges_and_metadata() {
    let args = CreateArgs {
        name: "G".to_string(),
        nodes: strings(&["a", "b", "c"]),
        edges: strings(&["a, b", " c ,a "]),
        metadata: Some("{\"owner\":\"me\"}".to_string()),
    };
    let g = create(args).unwrap();
    assert_eq!(g.hyperedges, vec![strings(&["a", "b"]), strings(&["c", "a"])]);
    assert_eq!(g.metadata.unwrap()["owner"], serde_json::Value::from("me"));
}

#[test]
fn create_with_empty_edge_fails() {
    let args = CreateArgs {
        name: "G".to_string(),
        nodes: strings(&["a"]),
        edges: strings(&["a", "  "]),
        metadata: Some("{not json}".to_string()),
    };
    match create(args) {
        Err(CommandError::InvalidInput(m)) => {
            assert_eq!(m, "edge definition '  ' contains no nodes")
        }
        other => panic!("unexpected {:?}", other),
    }
}

#[test]
fn summary_counts_nodes_and_edges() {
    let s = sample_graph().summary();
    assert_eq!(s.node_count, 2);
    assert_eq!(s.edge_count, 2);
    let empty = Hypergraph::create(String::new(), Vec::new(), Vec::new(), None).summary();
    assert_eq!((empty.node_count, empty.edge_count), (0, 0));
}

#[test]
fn query_node_reports_incident_edges() {
    let q = sample_graph().query_node("b");
    assert_eq!(q.node, "b");
    assert!(q.present);
    assert_eq!(q.incident_edges, vec![0, 1]);
    let q = sample_graph().query_node("a");
    assert_eq!(q.incident_edges, vec![0]);
}

#[test]
fn query_node_absent_identifier() {
    let q = sample_graph().query_node("z");
    assert!(!q.present);
    assert!(q.incident_edges.is_empty());
}

#[test]
fn query_node_edge_member_not_in_nodes() {
    let g = Hypergraph::create(
        "G".to_string(),
        strings(&["a"]),
        vec![strings(&["a"]), strings(&["x", "a"]), strings(&["x"])],
        None,
    );
    let q = g.query_node("x");
    assert!(!q.present);
    assert_eq!(q.incident_edges, vec![1, 2]);
}

#[test]
fn query_command_node_and_summary() {
    let g = sample_graph();
    let node = QueryArgs { input: "g.json".to_string(), node: Some("b".to_string()) };
    match query(&g, &node) {
        QueryReport::Node(q) => {
            assert!(q.present);
            assert_eq!(q.incident_edges, vec![0, 1]);
        }
        other => panic!("unexpected {:?}", other),
    }
    let summary = QueryArgs { input: "g.json".to_string(), node: None };
    match query(&g, &summary) {
        QueryReport::Summary(s) => {
            assert_eq!(s.node_count, 2);
            assert_eq!(s.edge_count, 2);
        }
        other => panic!("unexpected {:?}", other),
    }
}

#[test]
fn error_message_returns_text() {
    let e = CommandError::Io("reading missing.json".to_string());
    assert_eq!(e.message(), "reading missing.json");
    let e = CommandError::Parse("bad".to_string());
    assert_eq!(e.message(), "bad");
}

#[test]
fn trim_and_whitespace() {
    assert_eq!(trim_str("  a b\t\n"), "a b");
    assert_eq!(trim_str("\u{3000}x\u{a0}"), "x");
    assert_eq!(trim_str("   "), "");
    assert!(is_space_char('\u{2028}'));
    assert!(!is_space_char('x'));
    assert!(!is_space_char('\u{200b}'));
    assert_eq!(comma_tokens("a,,b"), strings(&["a", "b"]));
    assert_eq!(comma_tokens(""), Vec::<String>::new());
}

#[test]
fn contains_string_matches_exactly() {
    let items = strings(&["ab", "c"]);
    assert!(contains_string(&items, &"c".to_string()));
    assert!(!contains_string(&items, &"a".to_string()));
}

#[test]
fn file_errors_name_the_path() {
    match CommandError::reading("missing.json", "No such file or directory") {
        CommandError::Io(m) => assert_eq!(m, "reading missing.json: No such file or directory"),
        other => panic!("unexpected {:?}", other),
    }
    match CommandError::parsing("g.json", "EOF") {
        CommandError::Parse(m) => assert_eq!(m, "parsing hypergraph JSON from g.json: EOF"),
        other => panic!("unexpected {:?}", other),
    }
    match CommandError::writing("/ro/out.json", "denied") {
        CommandError::Io(m) => assert_eq!(m, "writing /ro/out.json: denied"),
        other => panic!("unexpected {:?}", other),
    }
}

#[test]
fn parse_metadata_returns_the_parsed_value() {
    let text = "{\"tags\": [\"x\", null], \"n\": 3}";
    let value = parse_metadata(Some(text)).unwrap().unwrap();
    let expected: serde_json::Value = serde_json::from_str(text).unwrap();
    assert_eq!(value, expected);
    let args = CreateArgs {
        name: "G".to_string(),
        nodes: Vec::new(),
        edges: Vec::new(),
        metadata: Some("[1, 2]".to_string()),
    };
    let g = create(args).unwrap();
    assert_eq!(g.metadata, Some(serde_json::from_str::<serde_json::Value>("[1, 2]").unwrap()));
}

#[test]
fn parsed_tokens_are_trimmed_and_comma_free() {
    for raw in ["a, b ,c", " ,x y,\t z\t,", "\u{a0}q\u{2003}"] {
        for token in parse_edge(raw).unwrap() {
            assert!(!token.is_empty());
            assert_eq!(token.trim(), token);
            assert!(!token.contains(','));
        }
    }
}
