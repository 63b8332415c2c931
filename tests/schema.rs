use walker_graph::ids::KeyParseError;
use walker_graph::schema::{
    parse_u32, KeyKind, KeyValue, Schema, SchemaEntry, SchemaError, SchemaNode, TargetDecl,
};

fn decl(label: &str, target: &str) -> TargetDecl {
    TargetDecl { label: label.to_string(), target: target.to_string() }
}

fn entry(source: &str, key: KeyKind, targets: Vec<TargetDecl>) -> SchemaEntry {
    SchemaEntry { source: source.to_string(), key, targets }
}

fn foo_bar() -> Schema {
    Schema::new(&vec![
        entry("Root", KeyKind::Unit, vec![decl("Foo", "Foo")]),
        entry("Foo", KeyKind::U32, vec![decl("Bar", "Bar")]),
        entry("Bar", KeyKind::U32, vec![]),
    ])
    .unwrap()
}

#[test]
fn three_kinds_two_edges() {
    let s = foo_bar();
    assert_eq!(s.node_type_count(), 3);
    let names: Vec<String> = (0..3).map(|t| s.node_type_name(t)).collect();
    assert_eq!(names, vec!["Root", "Foo", "Bar"]);
    let edges = s.edge_types();
    let edge_names: Vec<String> = edges.iter().map(|e| s.edge_type_name(*e)).collect();
    assert_eq!(edge_names, vec!["RootToFoo", "FooToBar"]);
    let foo = s.node_type("Foo").unwrap();
    let bar = s.node_type("Bar").unwrap();
    let foo_to_bar = s.edge_type(foo, "Bar").unwrap();
    assert_eq!(s.incoming_type(foo_to_bar), Some(foo));
    assert_eq!(s.outgoing_type(foo_to_bar), bar);
    assert_eq!(s.parse_node(foo, "123"), Ok(SchemaNode { kind: foo, key: KeyValue::U32(123) }));
    assert_eq!(s.root_edge_type(foo), Some(s.edge_type(0, "Foo").unwrap()));
    assert_eq!(s.root_edge_type(bar), None);
    assert_eq!(s.root_edge_type(0), None);
}

#[test]
fn relabelled_edges() {
    let s = Schema::new(&vec![
        entry("Root", KeyKind::Unit, vec![decl("Commit", "Commit")]),
        entry("Commit", KeyKind::U32, vec![decl("Parent", "Commit"), decl("Commit", "Commit")]),
    ])
    .unwrap();
    let commit = s.node_type("Commit").unwrap();
    let parent = s.edge_type(commit, "Parent").unwrap();
    assert_eq!(s.edge_type_name(parent), "CommitToParent");
    assert_eq!(s.outgoing_type(parent), commit);
    assert_eq!(s.incoming_type(parent), Some(commit));
    assert_eq!(s.edge_types().len(), 3);
}

#[test]
fn schema_errors() {
    let dup = Schema::new(&vec![
        entry("Root", KeyKind::Unit, vec![]),
        entry("Root", KeyKind::U32, vec![]),
    ]);
    assert!(matches!(dup, Err(SchemaError::DuplicateKind(n)) if n == "Root"));
    let unknown = Schema::new(&vec![entry("Root", KeyKind::Unit, vec![decl("Foo", "Foo")])]);
    assert!(matches!(unknown, Err(SchemaError::UnknownTarget(n)) if n == "Foo"));
    let twice = Schema::new(&vec![
        entry("Root", KeyKind::Unit, vec![decl("Foo", "Foo"), decl("Foo", "Foo")]),
        entry("Foo", KeyKind::U32, vec![]),
    ]);
    assert!(matches!(twice, Err(SchemaError::DuplicateEdge(n)) if n == "Foo"));
    assert!(Schema::new(&vec![]).is_ok());
}

#[test]
fn number_keys() {
    assert_eq!(parse_u32("0"), Some(0));
    assert_eq!(parse_u32("+17"), Some(17));
    assert_eq!(parse_u32("4294967295"), Some(u32::MAX));
    assert_eq!(parse_u32("4294967296"), None);
    assert_eq!(parse_u32(""), None);
    assert_eq!(parse_u32("+"), None);
    assert_eq!(parse_u32("12a"), None);
    assert_eq!(parse_u32("-1"), None);
    let s = foo_bar();
    assert_eq!(s.parse_node(1, "x"), Err(KeyParseError::InvalidNumber));
    assert_eq!(s.parse_node(0, "anything"), Ok(SchemaNode { kind: 0, key: KeyValue::Unit }));
}
