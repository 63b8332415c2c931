use std::mem::size_of;

use walker_graph::graph::{
    check_derived_data_registered, AliasKey, EdgeType, Node, NodeType, PathKey, UnitKey,
};
use walker_graph::ids::{Alias, BookmarkName, ChangesetId, ContentId, FsnodeId, HgManifestId, KeyParseError};
use walker_graph::path::{MPath, WrappedPath};
use walker_graph::schema::{
    KeyKind, KeyValue, Schema, SchemaEntry, SchemaNode, TargetDecl,
};

fn entry(source: &str, key: KeyKind, targets: &[&str]) -> SchemaEntry {
    SchemaEntry {
        source: source.to_string(),
        key,
        targets: targets
            .iter()
            .map(|t| TargetDecl { label: t.to_string(), target: t.to_string() })
            .collect(),
    }
}

fn bytes32(first: u8) -> [u8; 32] {
    let mut a = [0u8; 32];
    for (i, b) in a.iter_mut().enumerate() {
        *b = first.wrapping_add(i as u8);
    }
    a
}

#[test]
fn test_node_size() {
    // Node size is important as we have lots of them, add a test to check for accidental changes
    assert_eq!(56, size_of::<Node>());
}

#[test]
fn test_node_type_max_ordinal() {
    for t in NodeType::iter() {
        assert!((t as usize) < NodeType::COUNT)
    }
}

#[test]
fn test_small_graphs() -> Result<(), KeyParseError> {
    let s1 = Schema::new(&vec![
        entry("Root", KeyKind::Unit, &["Foo"]),
        entry("Foo", KeyKind::U32, &[]),
    ])
    .unwrap();
    let root = s1.node_type("Root").unwrap();
    let foo = s1.node_type("Foo").unwrap();
    assert_eq!(root, s1.parse_node(root, "")?.get_type());
    assert_eq!(foo, s1.parse_node(foo, "42")?.get_type());
    let root_to_foo = s1.edge_type(root, "Foo").unwrap();
    assert_eq!(s1.incoming_type(root_to_foo), None);
    assert_eq!(s1.outgoing_type(root_to_foo), foo);
    assert_eq!(s1.parse_node(foo, "123")?, SchemaNode { kind: foo, key: KeyValue::U32(123) });

    // Make sure type names don't clash
    let s2 = Schema::new(&vec![
        entry("Root", KeyKind::Unit, &["Foo", "Bar"]),
        entry("Foo", KeyKind::U32, &["Bar"]),
        entry("Bar", KeyKind::U32, &[]),
    ])
    .unwrap();
    let root2 = s2.node_type("Root").unwrap();
    let foo2 = s2.node_type("Foo").unwrap();
    let bar2 = s2.node_type("Bar").unwrap();
    assert_eq!(root2, s2.parse_node(root2, "")?.get_type());
    assert_eq!(foo2, s2.parse_node(foo2, "42")?.get_type());
    assert_eq!(bar2, s2.parse_node(bar2, "42")?.get_type());
    assert_ne!(foo2, bar2);
    let root_to_foo2 = s2.edge_type(root2, "Foo").unwrap();
    let root_to_bar2 = s2.edge_type(root2, "Bar").unwrap();
    let foo_to_bar2 = s2.edge_type(foo2, "Bar").unwrap();
    assert_eq!(s2.incoming_type(root_to_foo2), None);
    assert_eq!(s2.outgoing_type(root_to_foo2), foo2);
    assert_eq!(s2.incoming_type(root_to_bar2), None);
    assert_eq!(s2.outgoing_type(root_to_bar2), bar2);
    assert_eq!(s2.incoming_type(foo_to_bar2), Some(foo2));
    assert_eq!(s2.outgoing_type(foo_to_bar2), bar2);
    assert_eq!(s2.parse_node(bar2, "123")?, SchemaNode { kind: bar2, key: KeyValue::U32(123) });
    Ok(())
}

#[test]
fn test_all_derived_data_types_supported() {
    let registry: Vec<String> = [
        "blame",
        "changeset_info",
        "deleted_manifest",
        "fastlog",
        "filenodes",
        "fsnodes",
        "hgchangesets",
        "skeleton_manifests",
        "unodes",
    ]
    .iter()
    .map(|s| s.to_string())
    .collect();
    assert!(check_derived_data_registered(&registry).is_ok());
}

#[test]
fn derived_check_fails_without_one_name() {
    let registry: Vec<String> = ["changeset_info", "filenodes", "hgchangesets"]
        .iter()
        .map(|s| s.to_string())
        .collect();
    let err = check_derived_data_registered(&registry).unwrap_err();
    assert_eq!(err.name, "fsnodes");
    assert_eq!(err.node_type, NodeType::BonsaiFsnodeMapping);
}

#[test]
fn derived_data_names() {
    assert_eq!(NodeType::Root.derived_data_name(), None);
    assert_eq!(NodeType::FileContent.derived_data_name(), None);
    assert_eq!(NodeType::HgChangeset.derived_data_name(), Some("hgchangesets"));
    assert_eq!(NodeType::HgFileNode.derived_data_name(), Some("filenodes"));
    assert_eq!(NodeType::ChangesetInfo.derived_data_name(), Some("changeset_info"));
    assert_eq!(NodeType::Fsnode.derived_data_name(), Some("fsnodes"));
}

#[test]
fn root_edges_lead_to_their_kind() {
    assert_eq!(NodeType::Root.root_edge_type(), None);
    for t in NodeType::iter() {
        if t != NodeType::Root {
            let e = t.root_edge_type().unwrap();
            assert_eq!(e.outgoing_type(), t);
            assert_eq!(e.incoming_type(), None);
        }
    }
}

#[test]
fn edges_know_their_ends() {
    assert_eq!(EdgeType::RootToBookmark.incoming_type(), None);
    assert_eq!(EdgeType::BonsaiChangesetToBonsaiParent.incoming_type(), Some(NodeType::BonsaiChangeset));
    assert_eq!(EdgeType::BonsaiChangesetToBonsaiParent.outgoing_type(), NodeType::BonsaiChangeset);
    assert_eq!(EdgeType::FileContentMetadataToSha256Alias.outgoing_type(), NodeType::AliasContentMapping);
    assert_eq!(EdgeType::BonsaiFsnodeMappingToRootFsnode.outgoing_type(), NodeType::Fsnode);
    assert_eq!(EdgeType::HgFileNodeToLinkedHgChangeset.incoming_type(), Some(NodeType::HgFileNode));
}

#[test]
fn parse_node_gives_its_kind() {
    let hex64 = "00112233445566778899aabbccddeeff00112233445566778899aabbccddeeff";
    let hex40 = "00112233445566778899aabbccddeeff00112233";
    let cases: Vec<(NodeType, String)> = vec![
        (NodeType::Root, String::new()),
        (NodeType::Bookmark, "master".to_string()),
        (NodeType::BonsaiChangeset, hex64.to_string()),
        (NodeType::HgChangeset, hex40.to_string()),
        (NodeType::HgManifest, hex40.to_string()),
        (NodeType::FileContent, hex64.to_string()),
        (NodeType::AliasContentMapping, format!("sha256.{}", hex64)),
        (NodeType::AliasContentMapping, format!("gitsha1.{}", hex40)),
        (NodeType::Fsnode, hex64.to_string()),
        (NodeType::PublishedBookmarks, String::new()),
    ];
    for (t, s) in cases {
        assert_eq!(t.parse_node(&s).unwrap().get_type(), t);
    }
    let n = NodeType::BonsaiChangeset.parse_node(hex64).unwrap();
    let mut expected = [0u8; 32];
    for i in 0..16 {
        expected[i] = (i as u8) * 0x11;
        expected[i + 16] = (i as u8) * 0x11;
    }
    assert_eq!(n, Node::BonsaiChangeset(ChangesetId(expected)));
}

#[test]
fn parse_node_errors() {
    assert_eq!(NodeType::BonsaiChangeset.parse_node("xyz"), Err(KeyParseError::InvalidHash));
    assert_eq!(NodeType::HgChangeset.parse_node("0011"), Err(KeyParseError::InvalidHash));
    assert_eq!(NodeType::Bookmark.parse_node("caf\u{e9}"), Err(KeyParseError::InvalidBookmark));
    assert_eq!(NodeType::AliasContentMapping.parse_node("md5.00"), Err(KeyParseError::InvalidAlias));
}

#[test]
fn node_variants_report_their_kind() {
    assert_eq!(Node::Root(UnitKey()).get_type(), NodeType::Root);
    assert_eq!(Node::PublishedBookmarks(UnitKey()).get_type(), NodeType::PublishedBookmarks);
    assert_eq!(Node::FileContent(ContentId([1; 32])).get_type(), NodeType::FileContent);
    assert_eq!(
        Node::AliasContentMapping(AliasKey(Alias::Sha1([2; 20]))).get_type(),
        NodeType::AliasContentMapping
    );
    assert_eq!(
        Node::Fsnode(PathKey::new(FsnodeId([3; 32]), WrappedPath::Root)).get_type(),
        NodeType::Fsnode
    );
}

#[test]
fn stats_keys() {
    assert_eq!(Node::Root(UnitKey()).stats_key(), "root");
    assert_eq!(Node::PublishedBookmarks(UnitKey()).stats_key(), "published_bookmarks");
    let b = BookmarkName::new("main").unwrap();
    assert_eq!(Node::Bookmark(b).stats_key(), "main");
    let mut id = [0u8; 32];
    id[0] = 0xab;
    id[31] = 0x01;
    assert_eq!(
        Node::BonsaiChangeset(ChangesetId(id)).stats_key(),
        format!("changeset.blake2.ab{}01", "00".repeat(30))
    );
    let path = WrappedPath::from(Some(MPath::new(b"dir/file".to_vec())));
    assert_eq!(
        Node::HgManifest(PathKey::new(HgManifestId([0x10; 20]), path)).stats_key(),
        format!("hgmanifest.sha1.{}", "10".repeat(20))
    );
    assert_eq!(
        Node::AliasContentMapping(AliasKey(Alias::GitSha1([0xff; 20]))).stats_key(),
        format!("alias.gitsha1.{}", "ff".repeat(20))
    );
}

#[test]
fn stats_paths() {
    let path = WrappedPath::from(Some(MPath::new(b"a/b".to_vec())));
    let node = Node::Fsnode(PathKey::new(FsnodeId([0; 32]), path.clone()));
    assert_eq!(node.stats_path(), Some(&path));
    assert_eq!(Node::FileContent(ContentId([0; 32])).stats_path(), None);
    assert_eq!(Node::Root(UnitKey()).stats_path(), None);
}

#[test]
fn sampling_fingerprints() {
    assert_eq!(Node::Root(UnitKey()).sampling_fingerprint(), None);
    assert_eq!(Node::PublishedBookmarks(UnitKey()).sampling_fingerprint(), None);
    assert_eq!(
        Node::Bookmark(BookmarkName::new("main").unwrap()).sampling_fingerprint(),
        Some(0xeb0367e379406e0d)
    );
    let id = bytes32(1);
    assert_eq!(
        Node::FileContent(ContentId(id)).sampling_fingerprint(),
        Some(0x0807060504030201)
    );
    assert_eq!(
        Node::Fsnode(PathKey::new(FsnodeId(id), WrappedPath::Root)).sampling_fingerprint(),
        Some(0x0807060504030201)
    );
}

#[test]
fn kind_names() {
    assert_eq!(NodeType::HgFileEnvelope.to_string(), "HgFileEnvelope");
    assert_eq!(NodeType::Root.to_string(), "Root");
    assert_eq!(EdgeType::FsnodeToChildFsnode.to_string(), "FsnodeToChildFsnode");
    assert_eq!(EdgeType::RootToPublishedBookmarks.to_string(), "RootToPublishedBookmarks");
    assert_eq!(NodeType::iter().len(), NodeType::COUNT);
}

#[test]
fn kinds_from_names() {
    assert_eq!(NodeType::from_name("HgManifest"), Some(NodeType::HgManifest));
    assert_eq!(NodeType::from_name("hgmanifest"), None);
    assert_eq!(EdgeType::from_name("ChangesetInfoToChangesetInfoParent"), Some(EdgeType::ChangesetInfoToChangesetInfoParent));
    assert_eq!(EdgeType::from_name("RootToRoot"), None);
    for t in NodeType::iter() {
        assert_eq!(NodeType::from_name(&t.to_string()), Some(t));
    }
    for e in EdgeType::iter() {
        assert_eq!(EdgeType::from_name(&e.to_string()), Some(e));
        assert!((e as usize) < EdgeType::COUNT);
    }
    assert_eq!(EdgeType::iter().len(), EdgeType::COUNT);
}

#[test]
fn root_edges_are_named_for_the_root() {
    let mut from_root = 0;
    for e in EdgeType::iter() {
        let from_root_by_name = e.to_string().starts_with("RootTo");
        assert_eq!(e.incoming_type().is_none(), from_root_by_name);
        if from_root_by_name {
            from_root += 1;
        }
    }
    assert_eq!(from_root, 17);
}
