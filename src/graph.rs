use vstd::prelude::*;

use crate::hex::{decode_hex, hex_of, is_hex_of_len};
use crate::ids::{
    alias_bytes, alias_kind_prefix, alias_spelled, fingerprint_of, is_alias_text, sha256_of, Alias,
    BookmarkName, ChangesetId, ContentId, FsnodeId, HgChangesetId, HgFileNodeId, HgManifestId,
    KeyParseError,
};
use crate::path::WrappedPath;
use crate::phases::Phase;
use vstd::utf8::encode_utf8;

verus! {

/// The key of a kind that has a single node.
#[derive(Clone, Copy, Debug, PartialEq, Eq, Hash, Structural)]
pub struct UnitKey();

/// The key of a node whose identity includes where in the tree it was found.
#[derive(Clone, Debug, PartialEq, Eq, Hash)]
pub struct PathKey<T> {
    pub id: T,
    pub path: WrappedPath,
}

impl<T> PathKey<T> {
    pub fn new(id: T, path: WrappedPath) -> (r: PathKey<T>)
        ensures
            r.id == id,
            r.path == path,
    {
        PathKey { id, path }
    }
}

/// The key of a node found through an alias of its content.
#[derive(Clone, Copy, Debug, PartialEq, Eq, Hash)]
pub struct AliasKey(pub Alias);

/// The derived data family named `filenodes`.
pub const FILENODES: &'static str = "filenodes";

/// The derived data family named `hgchangesets`.
pub const HG_CHANGESETS: &'static str = "hgchangesets";

/// The derived data family named `changeset_info`.
pub const CHANGESET_INFO: &'static str = "changeset_info";

/// The derived data family named `fsnodes`.
pub const FSNODES: &'static str = "fsnodes";

/// The kinds of node in the graph. Ordinals are kept stable: new kinds go at the end.
#[derive(Clone, Copy, Debug, PartialEq, Eq, Hash, Structural)]
pub enum NodeType {
    Root,
    Bookmark,
    BonsaiChangeset,
    BonsaiHgMapping,
    BonsaiPhaseMapping,
    PublishedBookmarks,
    HgBonsaiMapping,
    HgChangeset,
    HgManifest,
    HgFileEnvelope,
    HgFileNode,
    FileContent,
    FileContentMetadata,
    AliasContentMapping,
    BonsaiFsnodeMapping,
    ChangesetInfo,
    BonsaiChangesetInfoMapping,
    Fsnode,
}

/// The kinds of edge in the graph, one for each source kind and label.
#[derive(Clone, Copy, Debug, PartialEq, Eq, Hash, Structural)]
pub enum EdgeType {
    RootToBookmark,
    RootToBonsaiChangeset,
    RootToBonsaiHgMapping,
    RootToBonsaiPhaseMapping,
    RootToPublishedBookmarks,
    RootToHgBonsaiMapping,
    RootToHgChangeset,
    RootToHgManifest,
    RootToHgFileEnvelope,
    RootToHgFileNode,
    RootToFileContent,
    RootToFileContentMetadata,
    RootToAliasContentMapping,
    RootToBonsaiChangesetInfoMapping,
    RootToBonsaiFsnodeMapping,
    RootToChangesetInfo,
    RootToFsnode,
    BookmarkToBonsaiChangeset,
    BookmarkToBonsaiHgMapping,
    BonsaiChangesetToFileContent,
    BonsaiChangesetToBonsaiParent,
    BonsaiChangesetToBonsaiHgMapping,
    BonsaiChangesetToBonsaiPhaseMapping,
    BonsaiChangesetToBonsaiChangesetInfoMapping,
    BonsaiChangesetToBonsaiFsnodeMapping,
    BonsaiHgMappingToHgChangeset,
    PublishedBookmarksToBonsaiChangeset,
    PublishedBookmarksToBonsaiHgMapping,
    HgBonsaiMappingToBonsaiChangeset,
    HgChangesetToHgParent,
    HgChangesetToHgManifest,
    HgManifestToHgFileEnvelope,
    HgManifestToHgFileNode,
    HgManifestToChildHgManifest,
    HgFileEnvelopeToFileContent,
    HgFileNodeToLinkedHgBonsaiMapping,
    HgFileNodeToLinkedHgChangeset,
    HgFileNodeToHgParentFileNode,
    HgFileNodeToHgCopyfromFileNode,
    FileContentToFileContentMetadata,
    FileContentMetadataToSha1Alias,
    FileContentMetadataToSha256Alias,
    FileContentMetadataToGitSha1Alias,
    AliasContentMappingToFileContent,
    BonsaiFsnodeMappingToRootFsnode,
    ChangesetInfoToChangesetInfoParent,
    BonsaiChangesetInfoMappingToChangesetInfo,
    FsnodeToChildFsnode,
    FsnodeToFileContent,
}

/// A node of the graph: its kind together with that kind's key.
#[derive(Clone, Debug, PartialEq, Eq, Hash)]
pub enum Node {
    Root(UnitKey),
    Bookmark(BookmarkName),
    BonsaiChangeset(ChangesetId),
    BonsaiHgMapping(ChangesetId),
    BonsaiPhaseMapping(ChangesetId),
    PublishedBookmarks(UnitKey),
    HgBonsaiMapping(HgChangesetId),
    HgChangeset(HgChangesetId),
    HgManifest(PathKey<HgManifestId>),
    HgFileEnvelope(HgFileNodeId),
    HgFileNode(PathKey<HgFileNodeId>),
    FileContent(ContentId),
    FileContentMetadata(ContentId),
    AliasContentMapping(AliasKey),
    BonsaiFsnodeMapping(ChangesetId),
    ChangesetInfo(ChangesetId),
    BonsaiChangesetInfoMapping(ChangesetId),
    Fsnode(PathKey<FsnodeId>),
}

/// The schema as declared: for each source kind, its edges in order, each with the kind it leads to.
pub open spec fn declared_edges(source: NodeType) -> Seq<(EdgeType, NodeType)> {
    match source {
        NodeType::Root => seq![
            (EdgeType::RootToBookmark, NodeType::Bookmark),
            (EdgeType::RootToBonsaiChangeset, NodeType::BonsaiChangeset),
            (EdgeType::RootToBonsaiHgMapping, NodeType::BonsaiHgMapping),
            (EdgeType::RootToBonsaiPhaseMapping, NodeType::BonsaiPhaseMapping),
            (EdgeType::RootToPublishedBookmarks, NodeType::PublishedBookmarks),
            (EdgeType::RootToHgBonsaiMapping, NodeType::HgBonsaiMapping),
            (EdgeType::RootToHgChangeset, NodeType::HgChangeset),
            (EdgeType::RootToHgManifest, NodeType::HgManifest),
            (EdgeType::RootToHgFileEnvelope, NodeType::HgFileEnvelope),
            (EdgeType::RootToHgFileNode, NodeType::HgFileNode),
            (EdgeType::RootToFileContent, NodeType::FileContent),
            (EdgeType::RootToFileContentMetadata, NodeType::FileContentMetadata),
            (EdgeType::RootToAliasContentMapping, NodeType::AliasContentMapping),
            (EdgeType::RootToBonsaiChangesetInfoMapping, NodeType::BonsaiChangesetInfoMapping),
            (EdgeType::RootToBonsaiFsnodeMapping, NodeType::BonsaiFsnodeMapping),
            (EdgeType::RootToChangesetInfo, NodeType::ChangesetInfo),
            (EdgeType::RootToFsnode, NodeType::Fsnode),
        ],
        NodeType::Bookmark => seq![
            (EdgeType::BookmarkToBonsaiChangeset, NodeType::BonsaiChangeset),
            (EdgeType::BookmarkToBonsaiHgMapping, NodeType::BonsaiHgMapping),
        ],
        NodeType::BonsaiChangeset => seq![
            (EdgeType::BonsaiChangesetToFileContent, NodeType::FileContent),
            (EdgeType::BonsaiChangesetToBonsaiParent, NodeType::BonsaiChangeset),
            (EdgeType::BonsaiChangesetToBonsaiHgMapping, NodeType::BonsaiHgMapping),
            (EdgeType::BonsaiChangesetToBonsaiPhaseMapping, NodeType::BonsaiPhaseMapping),
            (EdgeType::BonsaiChangesetToBonsaiChangesetInfoMapping, NodeType::BonsaiChangesetInfoMapping),
            (EdgeType::BonsaiChangesetToBonsaiFsnodeMapping, NodeType::BonsaiFsnodeMapping),
        ],
        NodeType::BonsaiHgMapping => seq![
            (EdgeType::BonsaiHgMappingToHgChangeset, NodeType::HgChangeset),
        ],
        NodeType::BonsaiPhaseMapping => seq![],
        NodeType::PublishedBookmarks => seq![
            (EdgeType::PublishedBookmarksToBonsaiChangeset, NodeType::BonsaiChangeset),
            (EdgeType::PublishedBookmarksToBonsaiHgMapping, NodeType::BonsaiHgMapping),
        ],
        NodeType::HgBonsaiMapping => seq![
            (EdgeType::HgBonsaiMappingToBonsaiChangeset, NodeType::BonsaiChangeset),
        ],
        NodeType::HgChangeset => seq![
            (EdgeType::HgChangesetToHgParent, NodeType::HgChangeset),
            (EdgeType::HgChangesetToHgManifest, NodeType::HgManifest),
        ],
        NodeType::HgManifest => seq![
            (EdgeType::HgManifestToHgFileEnvelope, NodeType::HgFileEnvelope),
            (EdgeType::HgManifestToHgFileNode, NodeType::HgFileNode),
            (EdgeType::HgManifestToChildHgManifest, NodeType::HgManifest),
        ],
        NodeType::HgFileEnvelope => seq![
            (EdgeType::HgFileEnvelopeToFileContent, NodeType::FileContent),
        ],
        NodeType::HgFileNode => seq![
            (EdgeType::HgFileNodeToLinkedHgBonsaiMapping, NodeType::HgBonsaiMapping),
            (EdgeType::HgFileNodeToLinkedHgChangeset, NodeType::HgChangeset),
            (EdgeType::HgFileNodeToHgParentFileNode, NodeType::HgFileNode),
            (EdgeType::HgFileNodeToHgCopyfromFileNode, NodeType::HgFileNode),
        ],
        NodeType::FileContent => seq![
            (EdgeType::FileContentToFileContentMetadata, NodeType::FileContentMetadata),
        ],
        NodeType::FileContentMetadata => seq![
            (EdgeType::FileContentMetadataToSha1Alias, NodeType::AliasContentMapping),
            (EdgeType::FileContentMetadataToSha256Alias, NodeType::AliasContentMapping),
            (EdgeType::FileContentMetadataToGitSha1Alias, NodeType::AliasContentMapping),
        ],
        NodeType::AliasContentMapping => seq![
            (EdgeType::AliasContentMappingToFileContent, NodeType::FileContent),
        ],
        NodeType::BonsaiFsnodeMapping => seq![
            (EdgeType::BonsaiFsnodeMappingToRootFsnode, NodeType::Fsnode),
        ],
        NodeType::ChangesetInfo => seq![
            (EdgeType::ChangesetInfoToChangesetInfoParent, NodeType::ChangesetInfo),
        ],
        NodeType::BonsaiChangesetInfoMapping => seq![
            (EdgeType::BonsaiChangesetInfoMappingToChangesetInfo, NodeType::ChangesetInfo),
        ],
        NodeType::Fsnode => seq![
            (EdgeType::FsnodeToChildFsnode, NodeType::Fsnode),
            (EdgeType::FsnodeToFileContent, NodeType::FileContent),
        ],
    }
}

/// The kind an edge leaves from.
pub open spec fn source_of(e: EdgeType) -> NodeType {
    match e {
        EdgeType::RootToBookmark => NodeType::Root,
        EdgeType::RootToBonsaiChangeset => NodeType::Root,
        EdgeType::RootToBonsaiHgMapping => NodeType::Root,
        EdgeType::RootToBonsaiPhaseMapping => NodeType::Root,
        EdgeType::RootToPublishedBookmarks => NodeType::Root,
        EdgeType::RootToHgBonsaiMapping => NodeType::Root,
        EdgeType::RootToHgChangeset => NodeType::Root,
        EdgeType::RootToHgManifest => NodeType::Root,
        EdgeType::RootToHgFileEnvelope => NodeType::Root,
        EdgeType::RootToHgFileNode => NodeType::Root,
        EdgeType::RootToFileContent => NodeType::Root,
        EdgeType::RootToFileContentMetadata => NodeType::Root,
        EdgeType::RootToAliasContentMapping => NodeType::Root,
        EdgeType::RootToBonsaiChangesetInfoMapping => NodeType::Root,
        EdgeType::RootToBonsaiFsnodeMapping => NodeType::Root,
        EdgeType::RootToChangesetInfo => NodeType::Root,
        EdgeType::RootToFsnode => NodeType::Root,
        EdgeType::BookmarkToBonsaiChangeset => NodeType::Bookmark,
        EdgeType::BookmarkToBonsaiHgMapping => NodeType::Bookmark,
        EdgeType::BonsaiChangesetToFileContent => NodeType::BonsaiChangeset,
        EdgeType::BonsaiChangesetToBonsaiParent => NodeType::BonsaiChangeset,
        EdgeType::BonsaiChangesetToBonsaiHgMapping => NodeType::BonsaiChangeset,
        EdgeType::BonsaiChangesetToBonsaiPhaseMapping => NodeType::BonsaiChangeset,
        EdgeType::BonsaiChangesetToBonsaiChangesetInfoMapping => NodeType::BonsaiChangeset,
        EdgeType::BonsaiChangesetToBonsaiFsnodeMapping => NodeType::BonsaiChangeset,
        EdgeType::BonsaiHgMappingToHgChangeset => NodeType::BonsaiHgMapping,
        EdgeType::PublishedBookmarksToBonsaiChangeset => NodeType::PublishedBookmarks,
        EdgeType::PublishedBookmarksToBonsaiHgMapping => NodeType::PublishedBookmarks,
        EdgeType::HgBonsaiMappingToBonsaiChangeset => NodeType::HgBonsaiMapping,
        EdgeType::HgChangesetToHgParent => NodeType::HgChangeset,
        EdgeType::HgChangesetToHgManifest => NodeType::HgChangeset,
        EdgeType::HgManifestToHgFileEnvelope => NodeType::HgManifest,
        EdgeType::HgManifestToHgFileNode => NodeType::HgManifest,
        EdgeType::HgManifestToChildHgManifest => NodeType::HgManifest,
        EdgeType::HgFileEnvelopeToFileContent => NodeType::HgFileEnvelope,
        EdgeType::HgFileNodeToLinkedHgBonsaiMapping => NodeType::HgFileNode,
        EdgeType::HgFileNodeToLinkedHgChangeset => NodeType::HgFileNode,
        EdgeType::HgFileNodeToHgParentFileNode => NodeType::HgFileNode,
        EdgeType::HgFileNodeToHgCopyfromFileNode => NodeType::HgFileNode,
        EdgeType::FileContentToFileContentMetadata => NodeType::FileContent,
        EdgeType::FileContentMetadataToSha1Alias => NodeType::FileContentMetadata,
        EdgeType::FileContentMetadataToSha256Alias => NodeType::FileContentMetadata,
        EdgeType::FileContentMetadataToGitSha1Alias => NodeType::FileContentMetadata,
        EdgeType::AliasContentMappingToFileContent => NodeType::AliasContentMapping,
        EdgeType::BonsaiFsnodeMappingToRootFsnode => NodeType::BonsaiFsnodeMapping,
        EdgeType::ChangesetInfoToChangesetInfoParent => NodeType::ChangesetInfo,
        EdgeType::BonsaiChangesetInfoMappingToChangesetInfo => NodeType::BonsaiChangesetInfoMapping,
        EdgeType::FsnodeToChildFsnode => NodeType::Fsnode,
        EdgeType::FsnodeToFileContent => NodeType::Fsnode,
    }
}

/// The kind an edge leads to.
pub open spec fn target_of(e: EdgeType) -> NodeType {
    match e {
        EdgeType::RootToBookmark => NodeType::Bookmark,
        EdgeType::RootToBonsaiChangeset => NodeType::BonsaiChangeset,
        EdgeType::RootToBonsaiHgMapping => NodeType::BonsaiHgMapping,
        EdgeType::RootToBonsaiPhaseMapping => NodeType::BonsaiPhaseMapping,
        EdgeType::RootToPublishedBookmarks => NodeType::PublishedBookmarks,
        EdgeType::RootToHgBonsaiMapping => NodeType::HgBonsaiMapping,
        EdgeType::RootToHgChangeset => NodeType::HgChangeset,
        EdgeType::RootToHgManifest => NodeType::HgManifest,
        EdgeType::RootToHgFileEnvelope => NodeType::HgFileEnvelope,
        EdgeType::RootToHgFileNode => NodeType::HgFileNode,
        EdgeType::RootToFileContent => NodeType::FileContent,
        EdgeType::RootToFileContentMetadata => NodeType::FileContentMetadata,
        EdgeType::RootToAliasContentMapping => NodeType::AliasContentMapping,
        EdgeType::RootToBonsaiChangesetInfoMapping => NodeType::BonsaiChangesetInfoMapping,
        EdgeType::RootToBonsaiFsnodeMapping => NodeType::BonsaiFsnodeMapping,
        EdgeType::RootToChangesetInfo => NodeType::ChangesetInfo,
        EdgeType::RootToFsnode => NodeType::Fsnode,
        EdgeType::BookmarkToBonsaiChangeset => NodeType::BonsaiChangeset,
        EdgeType::BookmarkToBonsaiHgMapping => NodeType::BonsaiHgMapping,
        EdgeType::BonsaiChangesetToFileContent => NodeType::FileContent,
        EdgeType::BonsaiChangesetToBonsaiParent => NodeType::BonsaiChangeset,
        EdgeType::BonsaiChangesetToBonsaiHgMapping => NodeType::BonsaiHgMapping,
        EdgeType::BonsaiChangesetToBonsaiPhaseMapping => NodeType::BonsaiPhaseMapping,
        EdgeType::BonsaiChangesetToBonsaiChangesetInfoMapping => NodeType::BonsaiChangesetInfoMapping,
        EdgeType::BonsaiChangesetToBonsaiFsnodeMapping => NodeType::BonsaiFsnodeMapping,
        EdgeType::BonsaiHgMappingToHgChangeset => NodeType::HgChangeset,
        EdgeType::PublishedBookmarksToBonsaiChangeset => NodeType::BonsaiChangeset,
        EdgeType::PublishedBookmarksToBonsaiHgMapping => NodeType::BonsaiHgMapping,
        EdgeType::HgBonsaiMappingToBonsaiChangeset => NodeType::BonsaiChangeset,
        EdgeType::HgChangesetToHgParent => NodeType::HgChangeset,
        EdgeType::HgChangesetToHgManifest => NodeType::HgManifest,
        EdgeType::HgManifestToHgFileEnvelope => NodeType::HgFileEnvelope,
        EdgeType::HgManifestToHgFileNode => NodeType::HgFileNode,
        EdgeType::HgManifestToChildHgManifest => NodeType::HgManifest,
        EdgeType::HgFileEnvelopeToFileContent => NodeType::FileContent,
        EdgeType::HgFileNodeToLinkedHgBonsaiMapping => NodeType::HgBonsaiMapping,
        EdgeType::HgFileNodeToLinkedHgChangeset => NodeType::HgChangeset,
        EdgeType::HgFileNodeToHgParentFileNode => NodeType::HgFileNode,
        EdgeType::HgFileNodeToHgCopyfromFileNode => NodeType::HgFileNode,
        EdgeType::FileContentToFileContentMetadata => NodeType::FileContentMetadata,
        EdgeType::FileContentMetadataToSha1Alias => NodeType::AliasContentMapping,
        EdgeType::FileContentMetadataToSha256Alias => NodeType::AliasContentMapping,
        EdgeType::FileContentMetadataToGitSha1Alias => NodeType::AliasContentMapping,
        EdgeType::AliasContentMappingToFileContent => NodeType::FileContent,
        EdgeType::BonsaiFsnodeMappingToRootFsnode => NodeType::Fsnode,
        EdgeType::ChangesetInfoToChangesetInfoParent => NodeType::ChangesetInfo,
        EdgeType::BonsaiChangesetInfoMappingToChangesetInfo => NodeType::ChangesetInfo,
        EdgeType::FsnodeToChildFsnode => NodeType::Fsnode,
        EdgeType::FsnodeToFileContent => NodeType::FileContent,
    }
}

/// The edge from the root to a kind, for each kind the root leads to.
pub open spec fn root_edge_of(t: NodeType) -> Option<EdgeType> {
    match t {
        NodeType::Root => None,
        NodeType::Bookmark => Some(EdgeType::RootToBookmark),
        NodeType::BonsaiChangeset => Some(EdgeType::RootToBonsaiChangeset),
        NodeType::BonsaiHgMapping => Some(EdgeType::RootToBonsaiHgMapping),
        NodeType::BonsaiPhaseMapping => Some(EdgeType::RootToBonsaiPhaseMapping),
        NodeType::PublishedBookmarks => Some(EdgeType::RootToPublishedBookmarks),
        NodeType::HgBonsaiMapping => Some(EdgeType::RootToHgBonsaiMapping),
        NodeType::HgChangeset => Some(EdgeType::RootToHgChangeset),
        NodeType::HgManifest => Some(EdgeType::RootToHgManifest),
        NodeType::HgFileEnvelope => Some(EdgeType::RootToHgFileEnvelope),
        NodeType::HgFileNode => Some(EdgeType::RootToHgFileNode),
        NodeType::FileContent => Some(EdgeType::RootToFileContent),
        NodeType::FileContentMetadata => Some(EdgeType::RootToFileContentMetadata),
        NodeType::AliasContentMapping => Some(EdgeType::RootToAliasContentMapping),
        NodeType::BonsaiFsnodeMapping => Some(EdgeType::RootToBonsaiFsnodeMapping),
        NodeType::ChangesetInfo => Some(EdgeType::RootToChangesetInfo),
        NodeType::BonsaiChangesetInfoMapping => Some(EdgeType::RootToBonsaiChangesetInfoMapping),
        NodeType::Fsnode => Some(EdgeType::RootToFsnode),
    }
}

/// The kind of a node.
pub open spec fn type_of(n: Node) -> NodeType {
    match n {
        Node::Root(_) => NodeType::Root,
        Node::Bookmark(_) => NodeType::Bookmark,
        Node::BonsaiChangeset(_) => NodeType::BonsaiChangeset,
        Node::BonsaiHgMapping(_) => NodeType::BonsaiHgMapping,
        Node::BonsaiPhaseMapping(_) => NodeType::BonsaiPhaseMapping,
        Node::PublishedBookmarks(_) => NodeType::PublishedBookmarks,
        Node::HgBonsaiMapping(_) => NodeType::HgBonsaiMapping,
        Node::HgChangeset(_) => NodeType::HgChangeset,
        Node::HgManifest(_) => NodeType::HgManifest,
        Node::HgFileEnvelope(_) => NodeType::HgFileEnvelope,
        Node::HgFileNode(_) => NodeType::HgFileNode,
        Node::FileContent(_) => NodeType::FileContent,
        Node::FileContentMetadata(_) => NodeType::FileContentMetadata,
        Node::AliasContentMapping(_) => NodeType::AliasContentMapping,
        Node::BonsaiFsnodeMapping(_) => NodeType::BonsaiFsnodeMapping,
        Node::ChangesetInfo(_) => NodeType::ChangesetInfo,
        Node::BonsaiChangesetInfoMapping(_) => NodeType::BonsaiChangesetInfoMapping,
        Node::Fsnode(_) => NodeType::Fsnode,
    }
}

/// The derived data family a kind needs before it can be loaded.
pub open spec fn derived_name_of(t: NodeType) -> Option<Seq<char>> {
    match t {
        NodeType::Root => None,
        NodeType::Bookmark => None,
        NodeType::BonsaiChangeset => None,
        NodeType::BonsaiHgMapping => Some("filenodes"@),
        NodeType::BonsaiPhaseMapping => None,
        NodeType::PublishedBookmarks => None,
        NodeType::HgBonsaiMapping => Some("hgchangesets"@),
        NodeType::HgChangeset => Some("hgchangesets"@),
        NodeType::HgManifest => Some("hgchangesets"@),
        NodeType::HgFileEnvelope => Some("hgchangesets"@),
        NodeType::HgFileNode => Some("filenodes"@),
        NodeType::FileContent => None,
        NodeType::FileContentMetadata => None,
        NodeType::AliasContentMapping => None,
        NodeType::BonsaiFsnodeMapping => Some("fsnodes"@),
        NodeType::ChangesetInfo => Some("changeset_info"@),
        NodeType::BonsaiChangesetInfoMapping => Some("changeset_info"@),
        NodeType::Fsnode => Some("fsnodes"@),
    }
}

/// Every kind, in ordinal order.
pub open spec fn all_node_types() -> Seq<NodeType> {
    seq![
        NodeType::Root,
        NodeType::Bookmark,
        NodeType::BonsaiChangeset,
        NodeType::BonsaiHgMapping,
        NodeType::BonsaiPhaseMapping,
        NodeType::PublishedBookmarks,
        NodeType::HgBonsaiMapping,
        NodeType::HgChangeset,
        NodeType::HgManifest,
        NodeType::HgFileEnvelope,
        NodeType::HgFileNode,
        NodeType::FileContent,
        NodeType::FileContentMetadata,
        NodeType::AliasContentMapping,
        NodeType::BonsaiFsnodeMapping,
        NodeType::ChangesetInfo,
        NodeType::BonsaiChangesetInfoMapping,
        NodeType::Fsnode,
    ]
}

/// `s` is a valid key of kind `t`.
pub open spec fn is_key_text(t: NodeType, s: Seq<char>) -> bool {
    match t {
        NodeType::Root => true,
        NodeType::Bookmark => vstd::utf8::is_ascii_chars(s),
        NodeType::BonsaiChangeset => is_hex_of_len(s, 32),
        NodeType::BonsaiHgMapping => is_hex_of_len(s, 32),
        NodeType::BonsaiPhaseMapping => is_hex_of_len(s, 32),
        NodeType::PublishedBookmarks => true,
        NodeType::HgBonsaiMapping => is_hex_of_len(s, 20),
        NodeType::HgChangeset => is_hex_of_len(s, 20),
        NodeType::HgManifest => is_hex_of_len(s, 20),
        NodeType::HgFileEnvelope => is_hex_of_len(s, 20),
        NodeType::HgFileNode => is_hex_of_len(s, 20),
        NodeType::FileContent => is_hex_of_len(s, 32),
        NodeType::FileContentMetadata => is_hex_of_len(s, 32),
        NodeType::AliasContentMapping => is_alias_text(s),
        NodeType::BonsaiFsnodeMapping => is_hex_of_len(s, 32),
        NodeType::ChangesetInfo => is_hex_of_len(s, 32),
        NodeType::BonsaiChangesetInfoMapping => is_hex_of_len(s, 32),
        NodeType::Fsnode => is_hex_of_len(s, 32),
    }
}

/// `n` is the node of kind `t` that the key text `s` names.
pub open spec fn parses_as(t: NodeType, s: Seq<char>, n: Node) -> bool {
    match t {
        NodeType::Root => n == Node::Root(UnitKey()),
        NodeType::Bookmark => n is Bookmark && n->Bookmark_0.bookmark@ == s,
        NodeType::BonsaiChangeset => n is BonsaiChangeset && n->BonsaiChangeset_0.0@ == decode_hex(s),
        NodeType::BonsaiHgMapping => n is BonsaiHgMapping && n->BonsaiHgMapping_0.0@ == decode_hex(s),
        NodeType::BonsaiPhaseMapping => n is BonsaiPhaseMapping && n->BonsaiPhaseMapping_0.0@ == decode_hex(s),
        NodeType::PublishedBookmarks => n == Node::PublishedBookmarks(UnitKey()),
        NodeType::HgBonsaiMapping => n is HgBonsaiMapping && n->HgBonsaiMapping_0.0@ == decode_hex(s),
        NodeType::HgChangeset => n is HgChangeset && n->HgChangeset_0.0@ == decode_hex(s),
        NodeType::HgManifest => {
            &&& n is HgManifest
            &&& n->HgManifest_0.id.0@ == decode_hex(s)
            &&& n->HgManifest_0.path@ == None::<Seq<u8>>
        },
        NodeType::HgFileEnvelope => n is HgFileEnvelope && n->HgFileEnvelope_0.0@ == decode_hex(s),
        NodeType::HgFileNode => {
            &&& n is HgFileNode
            &&& n->HgFileNode_0.id.0@ == decode_hex(s)
            &&& n->HgFileNode_0.path@ == None::<Seq<u8>>
        },
        NodeType::FileContent => n is FileContent && n->FileContent_0.0@ == decode_hex(s),
        NodeType::FileContentMetadata => n is FileContentMetadata && n->FileContentMetadata_0.0@ == decode_hex(s),
        NodeType::AliasContentMapping => n is AliasContentMapping && alias_spelled(s, n->AliasContentMapping_0.0),
        NodeType::BonsaiFsnodeMapping => n is BonsaiFsnodeMapping && n->BonsaiFsnodeMapping_0.0@ == decode_hex(s),
        NodeType::ChangesetInfo => n is ChangesetInfo && n->ChangesetInfo_0.0@ == decode_hex(s),
        NodeType::BonsaiChangesetInfoMapping => n is BonsaiChangesetInfoMapping && n->BonsaiChangesetInfoMapping_0.0@ == decode_hex(s),
        NodeType::Fsnode => {
            &&& n is Fsnode
            &&& n->Fsnode_0.id.0@ == decode_hex(s)
            &&& n->Fsnode_0.path@ == None::<Seq<u8>>
        },
    }
}

/// The error for a key text that kind `t` does not accept.
pub open spec fn key_error_of(t: NodeType) -> KeyParseError {
    match t {
        NodeType::Root => KeyParseError::InvalidHash,
        NodeType::Bookmark => KeyParseError::InvalidBookmark,
        NodeType::BonsaiChangeset => KeyParseError::InvalidHash,
        NodeType::BonsaiHgMapping => KeyParseError::InvalidHash,
        NodeType::BonsaiPhaseMapping => KeyParseError::InvalidHash,
        NodeType::PublishedBookmarks => KeyParseError::InvalidHash,
        NodeType::HgBonsaiMapping => KeyParseError::InvalidHash,
        NodeType::HgChangeset => KeyParseError::InvalidHash,
        NodeType::HgManifest => KeyParseError::InvalidHash,
        NodeType::HgFileEnvelope => KeyParseError::InvalidHash,
        NodeType::HgFileNode => KeyParseError::InvalidHash,
        NodeType::FileContent => KeyParseError::InvalidHash,
        NodeType::FileContentMetadata => KeyParseError::InvalidHash,
        NodeType::AliasContentMapping => KeyParseError::InvalidAlias,
        NodeType::BonsaiFsnodeMapping => KeyParseError::InvalidHash,
        NodeType::ChangesetInfo => KeyParseError::InvalidHash,
        NodeType::BonsaiChangesetInfoMapping => KeyParseError::InvalidHash,
        NodeType::Fsnode => KeyParseError::InvalidHash,
    }
}

/// The key under which a node is counted and stored.
pub open spec fn stats_key_of(n: Node) -> Seq<char> {
    match n {
        Node::Root(k) => "root"@,
        Node::Bookmark(k) => k.bookmark@,
        Node::BonsaiChangeset(k) => k.key_spec(),
        Node::BonsaiHgMapping(k) => k.key_spec(),
        Node::BonsaiPhaseMapping(k) => k.key_spec(),
        Node::PublishedBookmarks(k) => "published_bookmarks"@,
        Node::HgBonsaiMapping(k) => k.key_spec(),
        Node::HgChangeset(k) => k.key_spec(),
        Node::HgManifest(k) => k.id.key_spec(),
        Node::HgFileEnvelope(k) => k.key_spec(),
        Node::HgFileNode(k) => k.id.key_spec(),
        Node::FileContent(k) => k.key_spec(),
        Node::FileContentMetadata(k) => k.key_spec(),
        Node::AliasContentMapping(k) => "alias."@ + alias_kind_prefix(k.0) + hex_of(alias_bytes(k.0)),
        Node::BonsaiFsnodeMapping(k) => k.key_spec(),
        Node::ChangesetInfo(k) => k.key_spec(),
        Node::BonsaiChangesetInfoMapping(k) => k.key_spec(),
        Node::Fsnode(k) => k.id.key_spec(),
    }
}

/// The fingerprint by which a node is sampled; none for the root and the other
/// single-node kind, which are always visited.
pub open spec fn fingerprint_of_node(n: Node) -> Option<u64> {
    match n {
        Node::Root(k) => None,
        Node::Bookmark(k) => Some(fingerprint_of(sha256_of(encode_utf8(k.bookmark@)))),
        Node::BonsaiChangeset(k) => Some(fingerprint_of(k.0@)),
        Node::BonsaiHgMapping(k) => Some(fingerprint_of(k.0@)),
        Node::BonsaiPhaseMapping(k) => Some(fingerprint_of(k.0@)),
        Node::PublishedBookmarks(k) => None,
        Node::HgBonsaiMapping(k) => Some(fingerprint_of(k.0@)),
        Node::HgChangeset(k) => Some(fingerprint_of(k.0@)),
        Node::HgManifest(k) => Some(fingerprint_of(k.id.0@)),
        Node::HgFileEnvelope(k) => Some(fingerprint_of(k.0@)),
        Node::HgFileNode(k) => Some(fingerprint_of(k.id.0@)),
        Node::FileContent(k) => Some(fingerprint_of(k.0@)),
        Node::FileContentMetadata(k) => Some(fingerprint_of(k.0@)),
        Node::AliasContentMapping(k) => Some(fingerprint_of(alias_bytes(k.0))),
        Node::BonsaiFsnodeMapping(k) => Some(fingerprint_of(k.0@)),
        Node::ChangesetInfo(k) => Some(fingerprint_of(k.0@)),
        Node::BonsaiChangesetInfoMapping(k) => Some(fingerprint_of(k.0@)),
        Node::Fsnode(k) => Some(fingerprint_of(k.id.0@)),
    }
}

/// The path of a node, for kinds whose identity has one.
pub open spec fn path_of_node(n: Node) -> Option<WrappedPath> {
    match n {
        Node::Root(_) => None,
        Node::Bookmark(_) => None,
        Node::BonsaiChangeset(_) => None,
        Node::BonsaiHgMapping(_) => None,
        Node::BonsaiPhaseMapping(_) => None,
        Node::PublishedBookmarks(_) => None,
        Node::HgBonsaiMapping(_) => None,
        Node::HgChangeset(_) => None,
        Node::HgManifest(k) => Some(k.path),
        Node::HgFileEnvelope(_) => None,
        Node::HgFileNode(k) => Some(k.path),
        Node::FileContent(_) => None,
        Node::FileContentMetadata(_) => None,
        Node::AliasContentMapping(_) => None,
        Node::BonsaiFsnodeMapping(_) => None,
        Node::ChangesetInfo(_) => None,
        Node::BonsaiChangesetInfoMapping(_) => None,
        Node::Fsnode(k) => Some(k.path),
    }
}

impl EdgeType {
    /// The kind the edge leaves from; none for an edge from the root.
    pub fn incoming_type(&self) -> (r: Option<NodeType>)
        ensures
            r == incoming_of(*self),
    {
        match self {
            EdgeType::RootToBookmark => None,
            EdgeType::RootToBonsaiChangeset => None,
            EdgeType::RootToBonsaiHgMapping => None,
            EdgeType::RootToBonsaiPhaseMapping => None,
            EdgeType::RootToPublishedBookmarks => None,
            EdgeType::RootToHgBonsaiMapping => None,
            EdgeType::RootToHgChangeset => None,
            EdgeType::RootToHgManifest => None,
            EdgeType::RootToHgFileEnvelope => None,
            EdgeType::RootToHgFileNode => None,
            EdgeType::RootToFileContent => None,
            EdgeType::RootToFileContentMetadata => None,
            EdgeType::RootToAliasContentMapping => None,
            EdgeType::RootToBonsaiChangesetInfoMapping => None,
            EdgeType::RootToBonsaiFsnodeMapping => None,
            EdgeType::RootToChangesetInfo => None,
            EdgeType::RootToFsnode => None,
            EdgeType::BookmarkToBonsaiChangeset => Some(NodeType::Bookmark),
            EdgeType::BookmarkToBonsaiHgMapping => Some(NodeType::Bookmark),
            EdgeType::BonsaiChangesetToFileContent => Some(NodeType::BonsaiChangeset),
            EdgeType::BonsaiChangesetToBonsaiParent => Some(NodeType::BonsaiChangeset),
            EdgeType::BonsaiChangesetToBonsaiHgMapping => Some(NodeType::BonsaiChangeset),
            EdgeType::BonsaiChangesetToBonsaiPhaseMapping => Some(NodeType::BonsaiChangeset),
            EdgeType::BonsaiChangesetToBonsaiChangesetInfoMapping => Some(NodeType::BonsaiChangeset),
            EdgeType::BonsaiChangesetToBonsaiFsnodeMapping => Some(NodeType::BonsaiChangeset),
            EdgeType::BonsaiHgMappingToHgChangeset => Some(NodeType::BonsaiHgMapping),
            EdgeType::PublishedBookmarksToBonsaiChangeset => Some(NodeType::PublishedBookmarks),
            EdgeType::PublishedBookmarksToBonsaiHgMapping => Some(NodeType::PublishedBookmarks),
            EdgeType::HgBonsaiMappingToBonsaiChangeset => Some(NodeType::HgBonsaiMapping),
            EdgeType::HgChangesetToHgParent => Some(NodeType::HgChangeset),
            EdgeType::HgChangesetToHgManifest => Some(NodeType::HgChangeset),
            EdgeType::HgManifestToHgFileEnvelope => Some(NodeType::HgManifest),
            EdgeType::HgManifestToHgFileNode => Some(NodeType::HgManifest),
            EdgeType::HgManifestToChildHgManifest => Some(NodeType::HgManifest),
            EdgeType::HgFileEnvelopeToFileContent => Some(NodeType::HgFileEnvelope),
            EdgeType::HgFileNodeToLinkedHgBonsaiMapping => Some(NodeType::HgFileNode),
            EdgeType::HgFileNodeToLinkedHgChangeset => Some(NodeType::HgFileNode),
            EdgeType::HgFileNodeToHgParentFileNode => Some(NodeType::HgFileNode),
            EdgeType::HgFileNodeToHgCopyfromFileNode => Some(NodeType::HgFileNode),
            EdgeType::FileContentToFileContentMetadata => Some(NodeType::FileContent),
            EdgeType::FileContentMetadataToSha1Alias => Some(NodeType::FileContentMetadata),
            EdgeType::FileContentMetadataToSha256Alias => Some(NodeType::FileContentMetadata),
            EdgeType::FileContentMetadataToGitSha1Alias => Some(NodeType::FileContentMetadata),
            EdgeType::AliasContentMappingToFileContent => Some(NodeType::AliasContentMapping),
            EdgeType::BonsaiFsnodeMappingToRootFsnode => Some(NodeType::BonsaiFsnodeMapping),
            EdgeType::ChangesetInfoToChangesetInfoParent => Some(NodeType::ChangesetInfo),
            EdgeType::BonsaiChangesetInfoMappingToChangesetInfo => Some(NodeType::BonsaiChangesetInfoMapping),
            EdgeType::FsnodeToChildFsnode => Some(NodeType::Fsnode),
            EdgeType::FsnodeToFileContent => Some(NodeType::Fsnode),
        }
    }

    /// The kind the edge leads to.
    pub fn outgoing_type(&self) -> (r: NodeType)
        ensures
            r == target_of(*self),
    {
        match self {
            EdgeType::RootToBookmark => NodeType::Bookmark,
            EdgeType::RootToBonsaiChangeset => NodeType::BonsaiChangeset,
            EdgeType::RootToBonsaiHgMapping => NodeType::BonsaiHgMapping,
            EdgeType::RootToBonsaiPhaseMapping => NodeType::BonsaiPhaseMapping,
            EdgeType::RootToPublishedBookmarks => NodeType::PublishedBookmarks,
            EdgeType::RootToHgBonsaiMapping => NodeType::HgBonsaiMapping,
            EdgeType::RootToHgChangeset => NodeType::HgChangeset,
            EdgeType::RootToHgManifest => NodeType::HgManifest,
            EdgeType::RootToHgFileEnvelope => NodeType::HgFileEnvelope,
            EdgeType::RootToHgFileNode => NodeType::HgFileNode,
            EdgeType::RootToFileContent => NodeType::FileContent,
            EdgeType::RootToFileContentMetadata => NodeType::FileContentMetadata,
            EdgeType::RootToAliasContentMapping => NodeType::AliasContentMapping,
            EdgeType::RootToBonsaiChangesetInfoMapping => NodeType::BonsaiChangesetInfoMapping,
            EdgeType::RootToBonsaiFsnodeMapping => NodeType::BonsaiFsnodeMapping,
            EdgeType::RootToChangesetInfo => NodeType::ChangesetInfo,
            EdgeType::RootToFsnode => NodeType::Fsnode,
            EdgeType::BookmarkToBonsaiChangeset => NodeType::BonsaiChangeset,
            EdgeType::BookmarkToBonsaiHgMapping => NodeType::BonsaiHgMapping,
            EdgeType::BonsaiChangesetToFileContent => NodeType::FileContent,
            EdgeType::BonsaiChangesetToBonsaiParent => NodeType::BonsaiChangeset,
            EdgeType::BonsaiChangesetToBonsaiHgMapping => NodeType::BonsaiHgMapping,
            EdgeType::BonsaiChangesetToBonsaiPhaseMapping => NodeType::BonsaiPhaseMapping,
            EdgeType::BonsaiChangesetToBonsaiChangesetInfoMapping => NodeType::BonsaiChangesetInfoMapping,
            EdgeType::BonsaiChangesetToBonsaiFsnodeMapping => NodeType::BonsaiFsnodeMapping,
            EdgeType::BonsaiHgMappingToHgChangeset => NodeType::HgChangeset,
            EdgeType::PublishedBookmarksToBonsaiChangeset => NodeType::BonsaiChangeset,
            EdgeType::PublishedBookmarksToBonsaiHgMapping => NodeType::BonsaiHgMapping,
            EdgeType::HgBonsaiMappingToBonsaiChangeset => NodeType::BonsaiChangeset,
            EdgeType::HgChangesetToHgParent => NodeType::HgChangeset,
            EdgeType::HgChangesetToHgManifest => NodeType::HgManifest,
            EdgeType::HgManifestToHgFileEnvelope => NodeType::HgFileEnvelope,
            EdgeType::HgManifestToHgFileNode => NodeType::HgFileNode,
            EdgeType::HgManifestToChildHgManifest => NodeType::HgManifest,
            EdgeType::HgFileEnvelopeToFileContent => NodeType::FileContent,
            EdgeType::HgFileNodeToLinkedHgBonsaiMapping => NodeType::HgBonsaiMapping,
            EdgeType::HgFileNodeToLinkedHgChangeset => NodeType::HgChangeset,
            EdgeType::HgFileNodeToHgParentFileNode => NodeType::HgFileNode,
            EdgeType::HgFileNodeToHgCopyfromFileNode => NodeType::HgFileNode,
            EdgeType::FileContentToFileContentMetadata => NodeType::FileContentMetadata,
            EdgeType::FileContentMetadataToSha1Alias => NodeType::AliasContentMapping,
            EdgeType::FileContentMetadataToSha256Alias => NodeType::AliasContentMapping,
            EdgeType::FileContentMetadataToGitSha1Alias => NodeType::AliasContentMapping,
            EdgeType::AliasContentMappingToFileContent => NodeType::FileContent,
            EdgeType::BonsaiFsnodeMappingToRootFsnode => NodeType::Fsnode,
            EdgeType::ChangesetInfoToChangesetInfoParent => NodeType::ChangesetInfo,
            EdgeType::BonsaiChangesetInfoMappingToChangesetInfo => NodeType::ChangesetInfo,
            EdgeType::FsnodeToChildFsnode => NodeType::Fsnode,
            EdgeType::FsnodeToFileContent => NodeType::FileContent,
        }
    }
}

impl NodeType {
    /// The number of kinds.
    pub const COUNT: usize = 18;

    /// The edge from the root to this kind.
    pub fn root_edge_type(&self) -> (r: Option<EdgeType>)
        ensures
            r == root_edge_of(*self),
    {
        match self {
            NodeType::Root => None,
            NodeType::Bookmark => Some(EdgeType::RootToBookmark),
            NodeType::BonsaiChangeset => Some(EdgeType::RootToBonsaiChangeset),
            NodeType::BonsaiHgMapping => Some(EdgeType::RootToBonsaiHgMapping),
            NodeType::BonsaiPhaseMapping => Some(EdgeType::RootToBonsaiPhaseMapping),
            NodeType::PublishedBookmarks => Some(EdgeType::RootToPublishedBookmarks),
            NodeType::HgBonsaiMapping => Some(EdgeType::RootToHgBonsaiMapping),
            NodeType::HgChangeset => Some(EdgeType::RootToHgChangeset),
            NodeType::HgManifest => Some(EdgeType::RootToHgManifest),
            NodeType::HgFileEnvelope => Some(EdgeType::RootToHgFileEnvelope),
            NodeType::HgFileNode => Some(EdgeType::RootToHgFileNode),
            NodeType::FileContent => Some(EdgeType::RootToFileContent),
            NodeType::FileContentMetadata => Some(EdgeType::RootToFileContentMetadata),
            NodeType::AliasContentMapping => Some(EdgeType::RootToAliasContentMapping),
            NodeType::BonsaiFsnodeMapping => Some(EdgeType::RootToBonsaiFsnodeMapping),
            NodeType::ChangesetInfo => Some(EdgeType::RootToChangesetInfo),
            NodeType::BonsaiChangesetInfoMapping => Some(EdgeType::RootToBonsaiChangesetInfoMapping),
            NodeType::Fsnode => Some(EdgeType::RootToFsnode),
        }
    }

    /// Reads a node of this kind from the text of its key. Ids are written in
    /// hexadecimal; a kind keyed by an id and a path reads the id, at the root path.
    pub fn parse_node(&self, s: &str) -> (r: Result<Node, KeyParseError>)
        ensures
            r.is_ok() <==> is_key_text(*self, s@),
            r.is_ok() ==> parses_as(*self, s@, r.unwrap()),
            r.is_err() ==> r == Err::<Node, KeyParseError>(key_error_of(*self)),
    {
        match self {
            NodeType::Root => Ok(Node::Root(UnitKey())),
            NodeType::Bookmark => match BookmarkName::new(s) {
                Ok(k) => Ok(Node::Bookmark(k)),
                Err(e) => Err(e),
            },
            NodeType::BonsaiChangeset => match ChangesetId::parse(s) {
                Ok(k) => Ok(Node::BonsaiChangeset(k)),
                Err(e) => Err(e),
            },
            NodeType::BonsaiHgMapping => match ChangesetId::parse(s) {
                Ok(k) => Ok(Node::BonsaiHgMapping(k)),
                Err(e) => Err(e),
            },
            NodeType::BonsaiPhaseMapping => match ChangesetId::parse(s) {
                Ok(k) => Ok(Node::BonsaiPhaseMapping(k)),
                Err(e) => Err(e),
            },
            NodeType::PublishedBookmarks => Ok(Node::PublishedBookmarks(UnitKey())),
            NodeType::HgBonsaiMapping => match HgChangesetId::parse(s) {
                Ok(k) => Ok(Node::HgBonsaiMapping(k)),
                Err(e) => Err(e),
            },
            NodeType::HgChangeset => match HgChangesetId::parse(s) {
                Ok(k) => Ok(Node::HgChangeset(k)),
                Err(e) => Err(e),
            },
            NodeType::HgManifest => match HgManifestId::parse(s) {
                Ok(k) => Ok(Node::HgManifest(PathKey::new(k, WrappedPath::Root))),
                Err(e) => Err(e),
            },
            NodeType::HgFileEnvelope => match HgFileNodeId::parse(s) {
                Ok(k) => Ok(Node::HgFileEnvelope(k)),
                Err(e) => Err(e),
            },
            NodeType::HgFileNode => match HgFileNodeId::parse(s) {
                Ok(k) => Ok(Node::HgFileNode(PathKey::new(k, WrappedPath::Root))),
                Err(e) => Err(e),
            },
            NodeType::FileContent => match ContentId::parse(s) {
                Ok(k) => Ok(Node::FileContent(k)),
                Err(e) => Err(e),
            },
            NodeType::FileContentMetadata => match ContentId::parse(s) {
                Ok(k) => Ok(Node::FileContentMetadata(k)),
                Err(e) => Err(e),
            },
            NodeType::AliasContentMapping => match Alias::parse(s) {
                Ok(k) => Ok(Node::AliasContentMapping(AliasKey(k))),
                Err(e) => Err(e),
            },
            NodeType::BonsaiFsnodeMapping => match ChangesetId::parse(s) {
                Ok(k) => Ok(Node::BonsaiFsnodeMapping(k)),
                Err(e) => Err(e),
            },
            NodeType::ChangesetInfo => match ChangesetId::parse(s) {
                Ok(k) => Ok(Node::ChangesetInfo(k)),
                Err(e) => Err(e),
            },
            NodeType::BonsaiChangesetInfoMapping => match ChangesetId::parse(s) {
                Ok(k) => Ok(Node::BonsaiChangesetInfoMapping(k)),
                Err(e) => Err(e),
            },
            NodeType::Fsnode => match FsnodeId::parse(s) {
                Ok(k) => Ok(Node::Fsnode(PathKey::new(k, WrappedPath::Root))),
                Err(e) => Err(e),
            },
        }
    }

    /// The derived data family this kind needs before it can be loaded, if any.
    pub fn derived_data_name(&self) -> (r: Option<&'static str>)
        ensures
            r.is_some() == derived_name_of(*self).is_some(),
            r.is_some() ==> r.unwrap()@ == derived_name_of(*self).unwrap(),
    {
        proof {
            reveal_strlit("filenodes");
            reveal_strlit("hgchangesets");
            reveal_strlit("changeset_info");
            reveal_strlit("fsnodes");
        }
        match self {
            NodeType::Root => None,
            NodeType::Bookmark => None,
            NodeType::BonsaiChangeset => None,
            NodeType::BonsaiHgMapping => Some(FILENODES),
            NodeType::BonsaiPhaseMapping => None,
            NodeType::PublishedBookmarks => None,
            NodeType::HgBonsaiMapping => Some(HG_CHANGESETS),
            NodeType::HgChangeset => Some(HG_CHANGESETS),
            NodeType::HgManifest => Some(HG_CHANGESETS),
            NodeType::HgFileEnvelope => Some(HG_CHANGESETS),
            NodeType::HgFileNode => Some(FILENODES),
            NodeType::FileContent => None,
            NodeType::FileContentMetadata => None,
            NodeType::AliasContentMapping => None,
            NodeType::BonsaiFsnodeMapping => Some(FSNODES),
            NodeType::ChangesetInfo => Some(CHANGESET_INFO),
            NodeType::BonsaiChangesetInfoMapping => Some(CHANGESET_INFO),
            NodeType::Fsnode => Some(FSNODES),
        }
    }

    /// Every kind, in ordinal order.
    pub fn iter() -> (r: Vec<NodeType>)
        ensures
            r@ == all_node_types(),
    {
        let r = vec![
            NodeType::Root,
            NodeType::Bookmark,
            NodeType::BonsaiChangeset,
            NodeType::BonsaiHgMapping,
            NodeType::BonsaiPhaseMapping,
            NodeType::PublishedBookmarks,
            NodeType::HgBonsaiMapping,
            NodeType::HgChangeset,
            NodeType::HgManifest,
            NodeType::HgFileEnvelope,
            NodeType::HgFileNode,
            NodeType::FileContent,
            NodeType::FileContentMetadata,
            NodeType::AliasContentMapping,
            NodeType::BonsaiFsnodeMapping,
            NodeType::ChangesetInfo,
            NodeType::BonsaiChangesetInfoMapping,
            NodeType::Fsnode,
        ];
        assert(r@ =~= all_node_types());
        r
    }
}

impl Node {
    /// The kind of the node.
    pub fn get_type(&self) -> (r: NodeType)
        ensures
            r == type_of(*self),
    {
        match self {
            Node::Root(_) => NodeType::Root,
            Node::Bookmark(_) => NodeType::Bookmark,
            Node::BonsaiChangeset(_) => NodeType::BonsaiChangeset,
            Node::BonsaiHgMapping(_) => NodeType::BonsaiHgMapping,
            Node::BonsaiPhaseMapping(_) => NodeType::BonsaiPhaseMapping,
            Node::PublishedBookmarks(_) => NodeType::PublishedBookmarks,
            Node::HgBonsaiMapping(_) => NodeType::HgBonsaiMapping,
            Node::HgChangeset(_) => NodeType::HgChangeset,
            Node::HgManifest(_) => NodeType::HgManifest,
            Node::HgFileEnvelope(_) => NodeType::HgFileEnvelope,
            Node::HgFileNode(_) => NodeType::HgFileNode,
            Node::FileContent(_) => NodeType::FileContent,
            Node::FileContentMetadata(_) => NodeType::FileContentMetadata,
            Node::AliasContentMapping(_) => NodeType::AliasContentMapping,
            Node::BonsaiFsnodeMapping(_) => NodeType::BonsaiFsnodeMapping,
            Node::ChangesetInfo(_) => NodeType::ChangesetInfo,
            Node::BonsaiChangesetInfoMapping(_) => NodeType::BonsaiChangesetInfoMapping,
            Node::Fsnode(_) => NodeType::Fsnode,
        }
    }

    /// The key under which the node is counted and stored.
    pub fn stats_key(&self) -> (r: String)
        ensures
            r@ == stats_key_of(*self),
    {
        proof {
            reveal_strlit("root");
            reveal_strlit("published_bookmarks");
        }
        match self {
            Node::Root(k) => "root".to_string(),
            Node::Bookmark(k) => k.to_string(),
            Node::BonsaiChangeset(k) => k.blobstore_key(),
            Node::BonsaiHgMapping(k) => k.blobstore_key(),
            Node::BonsaiPhaseMapping(k) => k.blobstore_key(),
            Node::PublishedBookmarks(k) => "published_bookmarks".to_string(),
            Node::HgBonsaiMapping(k) => k.blobstore_key(),
            Node::HgChangeset(k) => k.blobstore_key(),
            Node::HgManifest(k) => k.id.blobstore_key(),
            Node::HgFileEnvelope(k) => k.blobstore_key(),
            Node::HgFileNode(k) => k.id.blobstore_key(),
            Node::FileContent(k) => k.blobstore_key(),
            Node::FileContentMetadata(k) => k.blobstore_key(),
            Node::AliasContentMapping(k) => k.0.blobstore_key(),
            Node::BonsaiFsnodeMapping(k) => k.blobstore_key(),
            Node::ChangesetInfo(k) => k.blobstore_key(),
            Node::BonsaiChangesetInfoMapping(k) => k.blobstore_key(),
            Node::Fsnode(k) => k.id.blobstore_key(),
        }
    }

    /// The path of the node, for kinds whose identity has one.
    pub fn stats_path(&self) -> (r: Option<&WrappedPath>)
        ensures
            r.is_some() == path_of_node(*self).is_some(),
            r.is_some() ==> *r.unwrap() == path_of_node(*self).unwrap(),
    {
        match self {
            Node::Root(_) => None,
            Node::Bookmark(_) => None,
            Node::BonsaiChangeset(_) => None,
            Node::BonsaiHgMapping(_) => None,
            Node::BonsaiPhaseMapping(_) => None,
            Node::PublishedBookmarks(_) => None,
            Node::HgBonsaiMapping(_) => None,
            Node::HgChangeset(_) => None,
            Node::HgManifest(k) => Some(&k.path),
            Node::HgFileEnvelope(_) => None,
            Node::HgFileNode(k) => Some(&k.path),
            Node::FileContent(_) => None,
            Node::FileContentMetadata(_) => None,
            Node::AliasContentMapping(_) => None,
            Node::BonsaiFsnodeMapping(_) => None,
            Node::ChangesetInfo(_) => None,
            Node::BonsaiChangesetInfoMapping(_) => None,
            Node::Fsnode(k) => Some(&k.path),
        }
    }

    /// The fingerprint by which the node is sampled; none for kinds that are always visited.
    pub fn sampling_fingerprint(&self) -> (r: Option<u64>)
        ensures
            r == fingerprint_of_node(*self),
    {
        match self {
            Node::Root(_) => None,
            Node::Bookmark(k) => Some(k.sampling_fingerprint()),
            Node::BonsaiChangeset(k) => Some(k.sampling_fingerprint()),
            Node::BonsaiHgMapping(k) => Some(k.sampling_fingerprint()),
            Node::BonsaiPhaseMapping(k) => Some(k.sampling_fingerprint()),
            Node::PublishedBookmarks(_) => None,
            Node::HgBonsaiMapping(k) => Some(k.sampling_fingerprint()),
            Node::HgChangeset(k) => Some(k.sampling_fingerprint()),
            Node::HgManifest(k) => Some(k.id.sampling_fingerprint()),
            Node::HgFileEnvelope(k) => Some(k.sampling_fingerprint()),
            Node::HgFileNode(k) => Some(k.id.sampling_fingerprint()),
            Node::FileContent(k) => Some(k.sampling_fingerprint()),
            Node::FileContentMetadata(k) => Some(k.sampling_fingerprint()),
            Node::AliasContentMapping(k) => Some(k.0.sampling_fingerprint()),
            Node::BonsaiFsnodeMapping(k) => Some(k.sampling_fingerprint()),
            Node::ChangesetInfo(k) => Some(k.sampling_fingerprint()),
            Node::BonsaiChangesetInfoMapping(k) => Some(k.sampling_fingerprint()),
            Node::Fsnode(k) => Some(k.id.sampling_fingerprint()),
        }
    }
}


/// The kind an edge is reported to come from: none for an edge from the root.
pub open spec fn incoming_of(e: EdgeType) -> Option<NodeType> {
    if source_of(e) == NodeType::Root {
        None
    } else {
        Some(source_of(e))
    }
}

/// Each declared edge comes from the kind that declares it, and leads to the kind
/// it is declared with; its incoming type is absent exactly when the root declares it.
pub proof fn lemma_declared_edge(t: NodeType, i: int)
    requires
        0 <= i < declared_edges(t).len(),
    ensures
        source_of(declared_edges(t)[i].0) == t,
        target_of(declared_edges(t)[i].0) == declared_edges(t)[i].1,
        incoming_of(declared_edges(t)[i].0) == (if t == NodeType::Root {
            None
        } else {
            Some(t)
        }),
{
    match t {
        NodeType::Root => {
            if i == 0 {
                assert(declared_edges(t)[0] == (EdgeType::RootToBookmark, NodeType::Bookmark));
            } else if i == 1 {
                assert(declared_edges(t)[1] == (EdgeType::RootToBonsaiChangeset, NodeType::BonsaiChangeset));
            } else if i == 2 {
                assert(declared_edges(t)[2] == (EdgeType::RootToBonsaiHgMapping, NodeType::BonsaiHgMapping));
            } else if i == 3 {
                assert(declared_edges(t)[3] == (EdgeType::RootToBonsaiPhaseMapping, NodeType::BonsaiPhaseMapping));
            } else if i == 4 {
                assert(declared_edges(t)[4] == (EdgeType::RootToPublishedBookmarks, NodeType::PublishedBookmarks));
            } else if i == 5 {
                assert(declared_edges(t)[5] == (EdgeType::RootToHgBonsaiMapping, NodeType::HgBonsaiMapping));
            } else if i == 6 {
                assert(declared_edges(t)[6] == (EdgeType::RootToHgChangeset, NodeType::HgChangeset));
            } else if i == 7 {
                assert(declared_edges(t)[7] == (EdgeType::RootToHgManifest, NodeType::HgManifest));
            } else if i == 8 {
                assert(declared_edges(t)[8] == (EdgeType::RootToHgFileEnvelope, NodeType::HgFileEnvelope));
            } else if i == 9 {
                assert(declared_edges(t)[9] == (EdgeType::RootToHgFileNode, NodeType::HgFileNode));
            } else if i == 10 {
                assert(declared_edges(t)[10] == (EdgeType::RootToFileContent, NodeType::FileContent));
            } else if i == 11 {
                assert(declared_edges(t)[11] == (EdgeType::RootToFileContentMetadata, NodeType::FileContentMetadata));
            } else if i == 12 {
                assert(declared_edges(t)[12] == (EdgeType::RootToAliasContentMapping, NodeType::AliasContentMapping));
            } else if i == 13 {
                assert(declared_edges(t)[13] == (EdgeType::RootToBonsaiChangesetInfoMapping, NodeType::BonsaiChangesetInfoMapping));
            } else if i == 14 {
                assert(declared_edges(t)[14] == (EdgeType::RootToBonsaiFsnodeMapping, NodeType::BonsaiFsnodeMapping));
            } else if i == 15 {
                assert(declared_edges(t)[15] == (EdgeType::RootToChangesetInfo, NodeType::ChangesetInfo));
            } else if i == 16 {
                assert(declared_edges(t)[16] == (EdgeType::RootToFsnode, NodeType::Fsnode));
            }
        },
        NodeType::Bookmark => {
            if i == 0 {
                assert(declared_edges(t)[0] == (EdgeType::BookmarkToBonsaiChangeset, NodeType::BonsaiChangeset));
            } else if i == 1 {
                assert(declared_edges(t)[1] == (EdgeType::BookmarkToBonsaiHgMapping, NodeType::BonsaiHgMapping));
            }
        },
        NodeType::BonsaiChangeset => {
            if i == 0 {
                assert(declared_edges(t)[0] == (EdgeType::BonsaiChangesetToFileContent, NodeType::FileContent));
            } else if i == 1 {
                assert(declared_edges(t)[1] == (EdgeType::BonsaiChangesetToBonsaiParent, NodeType::BonsaiChangeset));
            } else if i == 2 {
                assert(declared_edges(t)[2] == (EdgeType::BonsaiChangesetToBonsaiHgMapping, NodeType::BonsaiHgMapping));
            } else if i == 3 {
                assert(declared_edges(t)[3] == (EdgeType::BonsaiChangesetToBonsaiPhaseMapping, NodeType::BonsaiPhaseMapping));
            } else if i == 4 {
                assert(declared_edges(t)[4] == (EdgeType::BonsaiChangesetToBonsaiChangesetInfoMapping, NodeType::BonsaiChangesetInfoMapping));
            } else if i == 5 {
                assert(declared_edges(t)[5] == (EdgeType::BonsaiChangesetToBonsaiFsnodeMapping, NodeType::BonsaiFsnodeMapping));
            }
        },
        NodeType::BonsaiHgMapping => {
            if i == 0 {
                assert(declared_edges(t)[0] == (EdgeType::BonsaiHgMappingToHgChangeset, NodeType::HgChangeset));
            }
        },
        NodeType::BonsaiPhaseMapping => {},
        NodeType::PublishedBookmarks => {
            if i == 0 {
                assert(declared_edges(t)[0] == (EdgeType::PublishedBookmarksToBonsaiChangeset, NodeType::BonsaiChangeset));
            } else if i == 1 {
                assert(declared_edges(t)[1] == (EdgeType::PublishedBookmarksToBonsaiHgMapping, NodeType::BonsaiHgMapping));
            }
        },
        NodeType::HgBonsaiMapping => {
            if i == 0 {
                assert(declared_edges(t)[0] == (EdgeType::HgBonsaiMappingToBonsaiChangeset, NodeType::BonsaiChangeset));
            }
        },
        NodeType::HgChangeset => {
            if i == 0 {
                assert(declared_edges(t)[0] == (EdgeType::HgChangesetToHgParent, NodeType::HgChangeset));
            } else if i == 1 {
                assert(declared_edges(t)[1] == (EdgeType::HgChangesetToHgManifest, NodeType::HgManifest));
            }
        },
        NodeType::HgManifest => {
            if i == 0 {
                assert(declared_edges(t)[0] == (EdgeType::HgManifestToHgFileEnvelope, NodeType::HgFileEnvelope));
            } else if i == 1 {
                assert(declared_edges(t)[1] == (EdgeType::HgManifestToHgFileNode, NodeType::HgFileNode));
            } else if i == 2 {
                assert(declared_edges(t)[2] == (EdgeType::HgManifestToChildHgManifest, NodeType::HgManifest));
            }
        },
        NodeType::HgFileEnvelope => {
            if i == 0 {
                assert(declared_edges(t)[0] == (EdgeType::HgFileEnvelopeToFileContent, NodeType::FileContent));
            }
        },
        NodeType::HgFileNode => {
            if i == 0 {
                assert(declared_edges(t)[0] == (EdgeType::HgFileNodeToLinkedHgBonsaiMapping, NodeType::HgBonsaiMapping));
            } else if i == 1 {
                assert(declared_edges(t)[1] == (EdgeType::HgFileNodeToLinkedHgChangeset, NodeType::HgChangeset));
            } else if i == 2 {
                assert(declared_edges(t)[2] == (EdgeType::HgFileNodeToHgParentFileNode, NodeType::HgFileNode));
            } else if i == 3 {
                assert(declared_edges(t)[3] == (EdgeType::HgFileNodeToHgCopyfromFileNode, NodeType::HgFileNode));
            }
        },
        NodeType::FileContent => {
            if i == 0 {
                assert(declared_edges(t)[0] == (EdgeType::FileContentToFileContentMetadata, NodeType::FileContentMetadata));
            }
        },
        NodeType::FileContentMetadata => {
            if i == 0 {
                assert(declared_edges(t)[0] == (EdgeType::FileContentMetadataToSha1Alias, NodeType::AliasContentMapping));
            } else if i == 1 {
                assert(declared_edges(t)[1] == (EdgeType::FileContentMetadataToSha256Alias, NodeType::AliasContentMapping));
            } else if i == 2 {
                assert(declared_edges(t)[2] == (EdgeType::FileContentMetadataToGitSha1Alias, NodeType::AliasContentMapping));
            }
        },
        NodeType::AliasContentMapping => {
            if i == 0 {
                assert(declared_edges(t)[0] == (EdgeType::AliasContentMappingToFileContent, NodeType::FileContent));
            }
        },
        NodeType::BonsaiFsnodeMapping => {
            if i == 0 {
                assert(declared_edges(t)[0] == (EdgeType::BonsaiFsnodeMappingToRootFsnode, NodeType::Fsnode));
            }
        },
        NodeType::ChangesetInfo => {
            if i == 0 {
                assert(declared_edges(t)[0] == (EdgeType::ChangesetInfoToChangesetInfoParent, NodeType::ChangesetInfo));
            }
        },
        NodeType::BonsaiChangesetInfoMapping => {
            if i == 0 {
                assert(declared_edges(t)[0] == (EdgeType::BonsaiChangesetInfoMappingToChangesetInfo, NodeType::ChangesetInfo));
            }
        },
        NodeType::Fsnode => {
            if i == 0 {
                assert(declared_edges(t)[0] == (EdgeType::FsnodeToChildFsnode, NodeType::Fsnode));
            } else if i == 1 {
                assert(declared_edges(t)[1] == (EdgeType::FsnodeToFileContent, NodeType::FileContent));
            }
        },
    }
}

/// Every edge kind is declared, by the kind it comes from, with the kind it leads to.
pub proof fn lemma_edge_is_declared(e: EdgeType)
    ensures
        declared_edges(source_of(e)).contains((e, target_of(e))),
{
    match e {
        EdgeType::RootToBookmark => {
            assert(declared_edges(NodeType::Root)[0] == (EdgeType::RootToBookmark, NodeType::Bookmark));
        },
        EdgeType::RootToBonsaiChangeset => {
            assert(declared_edges(NodeType::Root)[1] == (EdgeType::RootToBonsaiChangeset, NodeType::BonsaiChangeset));
        },
        EdgeType::RootToBonsaiHgMapping => {
            assert(declared_edges(NodeType::Root)[2] == (EdgeType::RootToBonsaiHgMapping, NodeType::BonsaiHgMapping));
        },
        EdgeType::RootToBonsaiPhaseMapping => {
            assert(declared_edges(NodeType::Root)[3] == (EdgeType::RootToBonsaiPhaseMapping, NodeType::BonsaiPhaseMapping));
        },
        EdgeType::RootToPublishedBookmarks => {
            assert(declared_edges(NodeType::Root)[4] == (EdgeType::RootToPublishedBookmarks, NodeType::PublishedBookmarks));
        },
        EdgeType::RootToHgBonsaiMapping => {
            assert(declared_edges(NodeType::Root)[5] == (EdgeType::RootToHgBonsaiMapping, NodeType::HgBonsaiMapping));
        },
        EdgeType::RootToHgChangeset => {
            assert(declared_edges(NodeType::Root)[6] == (EdgeType::RootToHgChangeset, NodeType::HgChangeset));
        },
        EdgeType::RootToHgManifest => {
            assert(declared_edges(NodeType::Root)[7] == (EdgeType::RootToHgManifest, NodeType::HgManifest));
        },
        EdgeType::RootToHgFileEnvelope => {
            assert(declared_edges(NodeType::Root)[8] == (EdgeType::RootToHgFileEnvelope, NodeType::HgFileEnvelope));
        },
        EdgeType::RootToHgFileNode => {
            assert(declared_edges(NodeType::Root)[9] == (EdgeType::RootToHgFileNode, NodeType::HgFileNode));
        },
        EdgeType::RootToFileContent => {
            assert(declared_edges(NodeType::Root)[10] == (EdgeType::RootToFileContent, NodeType::FileContent));
        },
        EdgeType::RootToFileContentMetadata => {
            assert(declared_edges(NodeType::Root)[11] == (EdgeType::RootToFileContentMetadata, NodeType::FileContentMetadata));
        },
        EdgeType::RootToAliasContentMapping => {
            assert(declared_edges(NodeType::Root)[12] == (EdgeType::RootToAliasContentMapping, NodeType::AliasContentMapping));
        },
        EdgeType::RootToBonsaiChangesetInfoMapping => {
            assert(declared_edges(NodeType::Root)[13] == (EdgeType::RootToBonsaiChangesetInfoMapping, NodeType::BonsaiChangesetInfoMapping));
        },
        EdgeType::RootToBonsaiFsnodeMapping => {
            assert(declared_edges(NodeType::Root)[14] == (EdgeType::RootToBonsaiFsnodeMapping, NodeType::BonsaiFsnodeMapping));
        },
        EdgeType::RootToChangesetInfo => {
            assert(declared_edges(NodeType::Root)[15] == (EdgeType::RootToChangesetInfo, NodeType::ChangesetInfo));
        },
        EdgeType::RootToFsnode => {
            assert(declared_edges(NodeType::Root)[16] == (EdgeType::RootToFsnode, NodeType::Fsnode));
        },
        EdgeType::BookmarkToBonsaiChangeset => {
            assert(declared_edges(NodeType::Bookmark)[0] == (EdgeType::BookmarkToBonsaiChangeset, NodeType::BonsaiChangeset));
        },
        EdgeType::BookmarkToBonsaiHgMapping => {
            assert(declared_edges(NodeType::Bookmark)[1] == (EdgeType::BookmarkToBonsaiHgMapping, NodeType::BonsaiHgMapping));
        },
        EdgeType::BonsaiChangesetToFileContent => {
            assert(declared_edges(NodeType::BonsaiChangeset)[0] == (EdgeType::BonsaiChangesetToFileContent, NodeType::FileContent));
        },
        EdgeType::BonsaiChangesetToBonsaiParent => {
            assert(declared_edges(NodeType::BonsaiChangeset)[1] == (EdgeType::BonsaiChangesetToBonsaiParent, NodeType::BonsaiChangeset));
        },
        EdgeType::BonsaiChangesetToBonsaiHgMapping => {
            assert(declared_edges(NodeType::BonsaiChangeset)[2] == (EdgeType::BonsaiChangesetToBonsaiHgMapping, NodeType::BonsaiHgMapping));
        },
        EdgeType::BonsaiChangesetToBonsaiPhaseMapping => {
            assert(declared_edges(NodeType::BonsaiChangeset)[3] == (EdgeType::BonsaiChangesetToBonsaiPhaseMapping, NodeType::BonsaiPhaseMapping));
        },
        EdgeType::BonsaiChangesetToBonsaiChangesetInfoMapping => {
            assert(declared_edges(NodeType::BonsaiChangeset)[4] == (EdgeType::BonsaiChangesetToBonsaiChangesetInfoMapping, NodeType::BonsaiChangesetInfoMapping));
        },
        EdgeType::BonsaiChangesetToBonsaiFsnodeMapping => {
            assert(declared_edges(NodeType::BonsaiChangeset)[5] == (EdgeType::BonsaiChangesetToBonsaiFsnodeMapping, NodeType::BonsaiFsnodeMapping));
        },
        EdgeType::BonsaiHgMappingToHgChangeset => {
            assert(declared_edges(NodeType::BonsaiHgMapping)[0] == (EdgeType::BonsaiHgMappingToHgChangeset, NodeType::HgChangeset));
        },
        EdgeType::PublishedBookmarksToBonsaiChangeset => {
            assert(declared_edges(NodeType::PublishedBookmarks)[0] == (EdgeType::PublishedBookmarksToBonsaiChangeset, NodeType::BonsaiChangeset));
        },
        EdgeType::PublishedBookmarksToBonsaiHgMapping => {
            assert(declared_edges(NodeType::PublishedBookmarks)[1] == (EdgeType::PublishedBookmarksToBonsaiHgMapping, NodeType::BonsaiHgMapping));
        },
        EdgeType::HgBonsaiMappingToBonsaiChangeset => {
            assert(declared_edges(NodeType::HgBonsaiMapping)[0] == (EdgeType::HgBonsaiMappingToBonsaiChangeset, NodeType::BonsaiChangeset));
        },
        EdgeType::HgChangesetToHgParent => {
            assert(declared_edges(NodeType::HgChangeset)[0] == (EdgeType::HgChangesetToHgParent, NodeType::HgChangeset));
        },
        EdgeType::HgChangesetToHgManifest => {
            assert(declared_edges(NodeType::HgChangeset)[1] == (EdgeType::HgChangesetToHgManifest, NodeType::HgManifest));
        },
        EdgeType::HgManifestToHgFileEnvelope => {
            assert(declared_edges(NodeType::HgManifest)[0] == (EdgeType::HgManifestToHgFileEnvelope, NodeType::HgFileEnvelope));
        },
        EdgeType::HgManifestToHgFileNode => {
            assert(declared_edges(NodeType::HgManifest)[1] == (EdgeType::HgManifestToHgFileNode, NodeType::HgFileNode));
        },
        EdgeType::HgManifestToChildHgManifest => {
            assert(declared_edges(NodeType::HgManifest)[2] == (EdgeType::HgManifestToChildHgManifest, NodeType::HgManifest));
        },
        EdgeType::HgFileEnvelopeToFileContent => {
            assert(declared_edges(NodeType::HgFileEnvelope)[0] == (EdgeType::HgFileEnvelopeToFileContent, NodeType::FileContent));
        },
        EdgeType::HgFileNodeToLinkedHgBonsaiMapping => {
            assert(declared_edges(NodeType::HgFileNode)[0] == (EdgeType::HgFileNodeToLinkedHgBonsaiMapping, NodeType::HgBonsaiMapping));
        },
        EdgeType::HgFileNodeToLinkedHgChangeset => {
            assert(declared_edges(NodeType::HgFileNode)[1] == (EdgeType::HgFileNodeToLinkedHgChangeset, NodeType::HgChangeset));
        },
        EdgeType::HgFileNodeToHgParentFileNode => {
            assert(declared_edges(NodeType::HgFileNode)[2] == (EdgeType::HgFileNodeToHgParentFileNode, NodeType::HgFileNode));
        },
        EdgeType::HgFileNodeToHgCopyfromFileNode => {
            assert(declared_edges(NodeType::HgFileNode)[3] == (EdgeType::HgFileNodeToHgCopyfromFileNode, NodeType::HgFileNode));
        },
        EdgeType::FileContentToFileContentMetadata => {
            assert(declared_edges(NodeType::FileContent)[0] == (EdgeType::FileContentToFileContentMetadata, NodeType::FileContentMetadata));
        },
        EdgeType::FileContentMetadataToSha1Alias => {
            assert(declared_edges(NodeType::FileContentMetadata)[0] == (EdgeType::FileContentMetadataToSha1Alias, NodeType::AliasContentMapping));
        },
        EdgeType::FileContentMetadataToSha256Alias => {
            assert(declared_edges(NodeType::FileContentMetadata)[1] == (EdgeType::FileContentMetadataToSha256Alias, NodeType::AliasContentMapping));
        },
        EdgeType::FileContentMetadataToGitSha1Alias => {
            assert(declared_edges(NodeType::FileContentMetadata)[2] == (EdgeType::FileContentMetadataToGitSha1Alias, NodeType::AliasContentMapping));
        },
        EdgeType::AliasContentMappingToFileContent => {
            assert(declared_edges(NodeType::AliasContentMapping)[0] == (EdgeType::AliasContentMappingToFileContent, NodeType::FileContent));
        },
        EdgeType::BonsaiFsnodeMappingToRootFsnode => {
            assert(declared_edges(NodeType::BonsaiFsnodeMapping)[0] == (EdgeType::BonsaiFsnodeMappingToRootFsnode, NodeType::Fsnode));
        },
        EdgeType::ChangesetInfoToChangesetInfoParent => {
            assert(declared_edges(NodeType::ChangesetInfo)[0] == (EdgeType::ChangesetInfoToChangesetInfoParent, NodeType::ChangesetInfo));
        },
        EdgeType::BonsaiChangesetInfoMappingToChangesetInfo => {
            assert(declared_edges(NodeType::BonsaiChangesetInfoMapping)[0] == (EdgeType::BonsaiChangesetInfoMappingToChangesetInfo, NodeType::ChangesetInfo));
        },
        EdgeType::FsnodeToChildFsnode => {
            assert(declared_edges(NodeType::Fsnode)[0] == (EdgeType::FsnodeToChildFsnode, NodeType::Fsnode));
        },
        EdgeType::FsnodeToFileContent => {
            assert(declared_edges(NodeType::Fsnode)[1] == (EdgeType::FsnodeToFileContent, NodeType::FileContent));
        },
    }
}

/// A kind has a root edge exactly when the root declares an edge to it; that edge
/// is one the root declares, and it leads to the kind.
pub proof fn lemma_root_edge(t: NodeType)
    ensures
        root_edge_of(t).is_some() <==> exists|i: int|
            0 <= i < declared_edges(NodeType::Root).len() && #[trigger] declared_edges(
                NodeType::Root,
            )[i].1 == t,
        root_edge_of(t).is_some() ==> declared_edges(NodeType::Root).contains(
            (root_edge_of(t).unwrap(), t),
        ),
        root_edge_of(t).is_some() ==> target_of(root_edge_of(t).unwrap()) == t,
{
    let d = declared_edges(NodeType::Root);
    match t {
        NodeType::Root => {
            assert forall|i: int| 0 <= i < d.len() implies d[i].1 != NodeType::Root by {
                if i == 0 {
                    assert(d[0].1 == NodeType::Bookmark);
                } else if i == 1 {
                    assert(d[1].1 == NodeType::BonsaiChangeset);
                } else if i == 2 {
                    assert(d[2].1 == NodeType::BonsaiHgMapping);
                } else if i == 3 {
                    assert(d[3].1 == NodeType::BonsaiPhaseMapping);
                } else if i == 4 {
                    assert(d[4].1 == NodeType::PublishedBookmarks);
                } else if i == 5 {
                    assert(d[5].1 == NodeType::HgBonsaiMapping);
                } else if i == 6 {
                    assert(d[6].1 == NodeType::HgChangeset);
                } else if i == 7 {
                    assert(d[7].1 == NodeType::HgManifest);
                } else if i == 8 {
                    assert(d[8].1 == NodeType::HgFileEnvelope);
                } else if i == 9 {
                    assert(d[9].1 == NodeType::HgFileNode);
                } else if i == 10 {
                    assert(d[10].1 == NodeType::FileContent);
                } else if i == 11 {
                    assert(d[11].1 == NodeType::FileContentMetadata);
                } else if i == 12 {
                    assert(d[12].1 == NodeType::AliasContentMapping);
                } else if i == 13 {
                    assert(d[13].1 == NodeType::BonsaiChangesetInfoMapping);
                } else if i == 14 {
                    assert(d[14].1 == NodeType::BonsaiFsnodeMapping);
                } else if i == 15 {
                    assert(d[15].1 == NodeType::ChangesetInfo);
                } else if i == 16 {
                    assert(d[16].1 == NodeType::Fsnode);
                }
            }
        },
        NodeType::Bookmark => {
            assert(d[0] == (EdgeType::RootToBookmark, NodeType::Bookmark));
        },
        NodeType::BonsaiChangeset => {
            assert(d[1] == (EdgeType::RootToBonsaiChangeset, NodeType::BonsaiChangeset));
        },
        NodeType::BonsaiHgMapping => {
            assert(d[2] == (EdgeType::RootToBonsaiHgMapping, NodeType::BonsaiHgMapping));
        },
        NodeType::BonsaiPhaseMapping => {
            assert(d[3] == (EdgeType::RootToBonsaiPhaseMapping, NodeType::BonsaiPhaseMapping));
        },
        NodeType::PublishedBookmarks => {
            assert(d[4] == (EdgeType::RootToPublishedBookmarks, NodeType::PublishedBookmarks));
        },
        NodeType::HgBonsaiMapping => {
            assert(d[5] == (EdgeType::RootToHgBonsaiMapping, NodeType::HgBonsaiMapping));
        },
        NodeType::HgChangeset => {
            assert(d[6] == (EdgeType::RootToHgChangeset, NodeType::HgChangeset));
        },
        NodeType::HgManifest => {
            assert(d[7] == (EdgeType::RootToHgManifest, NodeType::HgManifest));
        },
        NodeType::HgFileEnvelope => {
            assert(d[8] == (EdgeType::RootToHgFileEnvelope, NodeType::HgFileEnvelope));
        },
        NodeType::HgFileNode => {
            assert(d[9] == (EdgeType::RootToHgFileNode, NodeType::HgFileNode));
        },
        NodeType::FileContent => {
            assert(d[10] == (EdgeType::RootToFileContent, NodeType::FileContent));
        },
        NodeType::FileContentMetadata => {
            assert(d[11] == (EdgeType::RootToFileContentMetadata, NodeType::FileContentMetadata));
        },
        NodeType::AliasContentMapping => {
            assert(d[12] == (EdgeType::RootToAliasContentMapping, NodeType::AliasContentMapping));
        },
        NodeType::BonsaiChangesetInfoMapping => {
            assert(d[13] == (EdgeType::RootToBonsaiChangesetInfoMapping, NodeType::BonsaiChangesetInfoMapping));
        },
        NodeType::BonsaiFsnodeMapping => {
            assert(d[14] == (EdgeType::RootToBonsaiFsnodeMapping, NodeType::BonsaiFsnodeMapping));
        },
        NodeType::ChangesetInfo => {
            assert(d[15] == (EdgeType::RootToChangesetInfo, NodeType::ChangesetInfo));
        },
        NodeType::Fsnode => {
            assert(d[16] == (EdgeType::RootToFsnode, NodeType::Fsnode));
        },
    }
}

/// A node read from the key text of a kind is of that kind.
pub proof fn lemma_parse_node_type(t: NodeType, s: Seq<char>, n: Node)
    requires
        parses_as(t, s, n),
    ensures
        type_of(n) == t,
{
}


/// `registry` holds the name `n`.
pub open spec fn registered(registry: Seq<String>, n: Seq<char>) -> bool {
    exists|i: int| 0 <= i < registry.len() && (#[trigger] registry[i])@ == n
}

/// Every derived data family that some kind needs is in `registry`.
pub open spec fn all_names_registered(registry: Seq<String>) -> bool {
    forall|t: NodeType| #[trigger]
        derived_name_of(t).is_some() ==> registered(registry, derived_name_of(t).unwrap())
}

/// A kind needs a derived data family that the registry does not know.
#[derive(Clone, Debug)]
pub struct SchemaInconsistency {
    pub node_type: NodeType,
    pub name: String,
}

/// Every kind appears in the list of all kinds.
pub proof fn lemma_all_node_types(t: NodeType)
    ensures
        all_node_types().contains(t),
{
    let a = all_node_types();
    match t {
        NodeType::Root => {
            assert(a[0] == NodeType::Root);
        },
        NodeType::Bookmark => {
            assert(a[1] == NodeType::Bookmark);
        },
        NodeType::BonsaiChangeset => {
            assert(a[2] == NodeType::BonsaiChangeset);
        },
        NodeType::BonsaiHgMapping => {
            assert(a[3] == NodeType::BonsaiHgMapping);
        },
        NodeType::BonsaiPhaseMapping => {
            assert(a[4] == NodeType::BonsaiPhaseMapping);
        },
        NodeType::PublishedBookmarks => {
            assert(a[5] == NodeType::PublishedBookmarks);
        },
        NodeType::HgBonsaiMapping => {
            assert(a[6] == NodeType::HgBonsaiMapping);
        },
        NodeType::HgChangeset => {
            assert(a[7] == NodeType::HgChangeset);
        },
        NodeType::HgManifest => {
            assert(a[8] == NodeType::HgManifest);
        },
        NodeType::HgFileEnvelope => {
            assert(a[9] == NodeType::HgFileEnvelope);
        },
        NodeType::HgFileNode => {
            assert(a[10] == NodeType::HgFileNode);
        },
        NodeType::FileContent => {
            assert(a[11] == NodeType::FileContent);
        },
        NodeType::FileContentMetadata => {
            assert(a[12] == NodeType::FileContentMetadata);
        },
        NodeType::AliasContentMapping => {
            assert(a[13] == NodeType::AliasContentMapping);
        },
        NodeType::BonsaiFsnodeMapping => {
            assert(a[14] == NodeType::BonsaiFsnodeMapping);
        },
        NodeType::ChangesetInfo => {
            assert(a[15] == NodeType::ChangesetInfo);
        },
        NodeType::BonsaiChangesetInfoMapping => {
            assert(a[16] == NodeType::BonsaiChangesetInfoMapping);
        },
        NodeType::Fsnode => {
            assert(a[17] == NodeType::Fsnode);
        },
    }
}

/// Whether two strings are equal.
pub fn same_text(a: &str, b: &str) -> (r: bool)
    ensures
        r == (a@ == b@),
{
    let n = a.unicode_len();
    if n != b.unicode_len() {
        return false;
    }
    let mut i: usize = 0;
    while i < n
        invariant
            n == a@.len(),
            n == b@.len(),
            i <= n,
            a@.subrange(0, i as int) == b@.subrange(0, i as int),
        decreases n - i,
    {
        if a.get_char(i) != b.get_char(i) {
            assert(a@.subrange(0, n as int)[i as int] != b@[i as int]);
            return false;
        }
        assert(a@.subrange(0, i + 1) =~= b@.subrange(0, i + 1));
        i = i + 1;
    }
    assert(a@ =~= a@.subrange(0, n as int));
    assert(b@ =~= b@.subrange(0, n as int));
    true
}

/// Whether `registry` holds the name `n`.
fn is_registered(registry: &Vec<String>, n: &str) -> (r: bool)
    ensures
        r == registered(registry@, n@),
{
    let mut i: usize = 0;
    while i < registry.len()
        invariant
            i <= registry@.len(),
            forall|j: int| 0 <= j < i ==> (#[trigger] registry@[j])@ != n@,
        decreases registry@.len() - i,
    {
        if same_text(registry[i].as_str(), n) {
            return true;
        }
        i = i + 1;
    }
    false
}

/// Checks that every derived data family some kind needs is in `registry`; the
/// converse is not asked. On failure, names the first kind whose family is missing.
pub fn check_derived_data_registered(registry: &Vec<String>) -> (r: Result<(), SchemaInconsistency>)
    ensures
        r.is_ok() <==> all_names_registered(registry@),
        r.is_err() ==> derived_name_of(r->Err_0.node_type) == Some(r->Err_0.name@)
            && !registered(registry@, r->Err_0.name@),
{
    let all = NodeType::iter();
    let mut i: usize = 0;
    while i < all.len()
        invariant
            all@ == all_node_types(),
            i <= all@.len(),
            forall|j: int|
                0 <= j < i ==> (#[trigger] derived_name_of(all@[j])).is_some() ==> registered(
                    registry@,
                    derived_name_of(all@[j]).unwrap(),
                ),
        decreases all@.len() - i,
    {
        let t = all[i];
        if let Some(name) = t.derived_data_name() {
            if !is_registered(registry, name) {
                return Err(SchemaInconsistency { node_type: t, name: name.to_string() });
            }
        }
        i = i + 1;
    }
    assert forall|t: NodeType| #[trigger]
        derived_name_of(t).is_some() implies registered(registry@, derived_name_of(t).unwrap()) by {
        lemma_all_node_types(t);
        let j = choose|j: int| 0 <= j < all@.len() && all@[j] == t;
        assert(derived_name_of(all@[j]).is_some());
    }
    Ok(())
}

/// A registry that lacks a name some kind needs fails the check.
pub proof fn lemma_missing_name_fails(registry: Seq<String>, t: NodeType)
    requires
        derived_name_of(t).is_some(),
        !registered(registry, derived_name_of(t).unwrap()),
    ensures
        !all_names_registered(registry),
{
}


/// The name of a kind.
pub open spec fn node_type_name(t: NodeType) -> Seq<char> {
    match t {
        NodeType::Root => "Root"@,
        NodeType::Bookmark => "Bookmark"@,
        NodeType::BonsaiChangeset => "BonsaiChangeset"@,
        NodeType::BonsaiHgMapping => "BonsaiHgMapping"@,
        NodeType::BonsaiPhaseMapping => "BonsaiPhaseMapping"@,
        NodeType::PublishedBookmarks => "PublishedBookmarks"@,
        NodeType::HgBonsaiMapping => "HgBonsaiMapping"@,
        NodeType::HgChangeset => "HgChangeset"@,
        NodeType::HgManifest => "HgManifest"@,
        NodeType::HgFileEnvelope => "HgFileEnvelope"@,
        NodeType::HgFileNode => "HgFileNode"@,
        NodeType::FileContent => "FileContent"@,
        NodeType::FileContentMetadata => "FileContentMetadata"@,
        NodeType::AliasContentMapping => "AliasContentMapping"@,
        NodeType::BonsaiFsnodeMapping => "BonsaiFsnodeMapping"@,
        NodeType::ChangesetInfo => "ChangesetInfo"@,
        NodeType::BonsaiChangesetInfoMapping => "BonsaiChangesetInfoMapping"@,
        NodeType::Fsnode => "Fsnode"@,
    }
}

/// The name of an edge kind: its source kind, `To`, and its label.
pub open spec fn edge_type_name(e: EdgeType) -> Seq<char> {
    match e {
        EdgeType::RootToBookmark => "RootToBookmark"@,
        EdgeType::RootToBonsaiChangeset => "RootToBonsaiChangeset"@,
        EdgeType::RootToBonsaiHgMapping => "RootToBonsaiHgMapping"@,
        EdgeType::RootToBonsaiPhaseMapping => "RootToBonsaiPhaseMapping"@,
        EdgeType::RootToPublishedBookmarks => "RootToPublishedBookmarks"@,
        EdgeType::RootToHgBonsaiMapping => "RootToHgBonsaiMapping"@,
        EdgeType::RootToHgChangeset => "RootToHgChangeset"@,
        EdgeType::RootToHgManifest => "RootToHgManifest"@,
        EdgeType::RootToHgFileEnvelope => "RootToHgFileEnvelope"@,
        EdgeType::RootToHgFileNode => "RootToHgFileNode"@,
        EdgeType::RootToFileContent => "RootToFileContent"@,
        EdgeType::RootToFileContentMetadata => "RootToFileContentMetadata"@,
        EdgeType::RootToAliasContentMapping => "RootToAliasContentMapping"@,
        EdgeType::RootToBonsaiChangesetInfoMapping => "RootToBonsaiChangesetInfoMapping"@,
        EdgeType::RootToBonsaiFsnodeMapping => "RootToBonsaiFsnodeMapping"@,
        EdgeType::RootToChangesetInfo => "RootToChangesetInfo"@,
        EdgeType::RootToFsnode => "RootToFsnode"@,
        EdgeType::BookmarkToBonsaiChangeset => "BookmarkToBonsaiChangeset"@,
        EdgeType::BookmarkToBonsaiHgMapping => "BookmarkToBonsaiHgMapping"@,
        EdgeType::BonsaiChangesetToFileContent => "BonsaiChangesetToFileContent"@,
        EdgeType::BonsaiChangesetToBonsaiParent => "BonsaiChangesetToBonsaiParent"@,
        EdgeType::BonsaiChangesetToBonsaiHgMapping => "BonsaiChangesetToBonsaiHgMapping"@,
        EdgeType::BonsaiChangesetToBonsaiPhaseMapping => "BonsaiChangesetToBonsaiPhaseMapping"@,
        EdgeType::BonsaiChangesetToBonsaiChangesetInfoMapping => "BonsaiChangesetToBonsaiChangesetInfoMapping"@,
        EdgeType::BonsaiChangesetToBonsaiFsnodeMapping => "BonsaiChangesetToBonsaiFsnodeMapping"@,
        EdgeType::BonsaiHgMappingToHgChangeset => "BonsaiHgMappingToHgChangeset"@,
        EdgeType::PublishedBookmarksToBonsaiChangeset => "PublishedBookmarksToBonsaiChangeset"@,
        EdgeType::PublishedBookmarksToBonsaiHgMapping => "PublishedBookmarksToBonsaiHgMapping"@,
        EdgeType::HgBonsaiMappingToBonsaiChangeset => "HgBonsaiMappingToBonsaiChangeset"@,
        EdgeType::HgChangesetToHgParent => "HgChangesetToHgParent"@,
        EdgeType::HgChangesetToHgManifest => "HgChangesetToHgManifest"@,
        EdgeType::HgManifestToHgFileEnvelope => "HgManifestToHgFileEnvelope"@,
        EdgeType::HgManifestToHgFileNode => "HgManifestToHgFileNode"@,
        EdgeType::HgManifestToChildHgManifest => "HgManifestToChildHgManifest"@,
        EdgeType::HgFileEnvelopeToFileContent => "HgFileEnvelopeToFileContent"@,
        EdgeType::HgFileNodeToLinkedHgBonsaiMapping => "HgFileNodeToLinkedHgBonsaiMapping"@,
        EdgeType::HgFileNodeToLinkedHgChangeset => "HgFileNodeToLinkedHgChangeset"@,
        EdgeType::HgFileNodeToHgParentFileNode => "HgFileNodeToHgParentFileNode"@,
        EdgeType::HgFileNodeToHgCopyfromFileNode => "HgFileNodeToHgCopyfromFileNode"@,
        EdgeType::FileContentToFileContentMetadata => "FileContentToFileContentMetadata"@,
        EdgeType::FileContentMetadataToSha1Alias => "FileContentMetadataToSha1Alias"@,
        EdgeType::FileContentMetadataToSha256Alias => "FileContentMetadataToSha256Alias"@,
        EdgeType::FileContentMetadataToGitSha1Alias => "FileContentMetadataToGitSha1Alias"@,
        EdgeType::AliasContentMappingToFileContent => "AliasContentMappingToFileContent"@,
        EdgeType::BonsaiFsnodeMappingToRootFsnode => "BonsaiFsnodeMappingToRootFsnode"@,
        EdgeType::ChangesetInfoToChangesetInfoParent => "ChangesetInfoToChangesetInfoParent"@,
        EdgeType::BonsaiChangesetInfoMappingToChangesetInfo => "BonsaiChangesetInfoMappingToChangesetInfo"@,
        EdgeType::FsnodeToChildFsnode => "FsnodeToChildFsnode"@,
        EdgeType::FsnodeToFileContent => "FsnodeToFileContent"@,
    }
}

impl NodeType {
    /// The name of the kind.
    pub fn to_string(&self) -> (r: String)
        ensures
            r@ == node_type_name(*self),
    {
        proof {
            reveal_strlit("Root");
            reveal_strlit("Bookmark");
            reveal_strlit("BonsaiChangeset");
            reveal_strlit("BonsaiHgMapping");
            reveal_strlit("BonsaiPhaseMapping");
            reveal_strlit("PublishedBookmarks");
            reveal_strlit("HgBonsaiMapping");
            reveal_strlit("HgChangeset");
            reveal_strlit("HgManifest");
            reveal_strlit("HgFileEnvelope");
            reveal_strlit("HgFileNode");
            reveal_strlit("FileContent");
            reveal_strlit("FileContentMetadata");
            reveal_strlit("AliasContentMapping");
            reveal_strlit("BonsaiFsnodeMapping");
            reveal_strlit("ChangesetInfo");
            reveal_strlit("BonsaiChangesetInfoMapping");
            reveal_strlit("Fsnode");
        }
        let s = match self {
            NodeType::Root => "Root",
            NodeType::Bookmark => "Bookmark",
            NodeType::BonsaiChangeset => "BonsaiChangeset",
            NodeType::BonsaiHgMapping => "BonsaiHgMapping",
            NodeType::BonsaiPhaseMapping => "BonsaiPhaseMapping",
            NodeType::PublishedBookmarks => "PublishedBookmarks",
            NodeType::HgBonsaiMapping => "HgBonsaiMapping",
            NodeType::HgChangeset => "HgChangeset",
            NodeType::HgManifest => "HgManifest",
            NodeType::HgFileEnvelope => "HgFileEnvelope",
            NodeType::HgFileNode => "HgFileNode",
            NodeType::FileContent => "FileContent",
            NodeType::FileContentMetadata => "FileContentMetadata",
            NodeType::AliasContentMapping => "AliasContentMapping",
            NodeType::BonsaiFsnodeMapping => "BonsaiFsnodeMapping",
            NodeType::ChangesetInfo => "ChangesetInfo",
            NodeType::BonsaiChangesetInfoMapping => "BonsaiChangesetInfoMapping",
            NodeType::Fsnode => "Fsnode",
        };
        s.to_string()
    }
}

impl EdgeType {
    /// The name of the edge kind.
    pub fn to_string(&self) -> (r: String)
        ensures
            r@ == edge_type_name(*self),
    {
        proof {
            reveal_strlit("RootToBookmark");
            reveal_strlit("RootToBonsaiChangeset");
            reveal_strlit("RootToBonsaiHgMapping");
            reveal_strlit("RootToBonsaiPhaseMapping");
            reveal_strlit("RootToPublishedBookmarks");
            reveal_strlit("RootToHgBonsaiMapping");
            reveal_strlit("RootToHgChangeset");
            reveal_strlit("RootToHgManifest");
            reveal_strlit("RootToHgFileEnvelope");
            reveal_strlit("RootToHgFileNode");
            reveal_strlit("RootToFileContent");
            reveal_strlit("RootToFileContentMetadata");
            reveal_strlit("RootToAliasContentMapping");
            reveal_strlit("RootToBonsaiChangesetInfoMapping");
            reveal_strlit("RootToBonsaiFsnodeMapping");
            reveal_strlit("RootToChangesetInfo");
            reveal_strlit("RootToFsnode");
            reveal_strlit("BookmarkToBonsaiChangeset");
            reveal_strlit("BookmarkToBonsaiHgMapping");
            reveal_strlit("BonsaiChangesetToFileContent");
            reveal_strlit("BonsaiChangesetToBonsaiParent");
            reveal_strlit("BonsaiChangesetToBonsaiHgMapping");
            reveal_strlit("BonsaiChangesetToBonsaiPhaseMapping");
            reveal_strlit("BonsaiChangesetToBonsaiChangesetInfoMapping");
            reveal_strlit("BonsaiChangesetToBonsaiFsnodeMapping");
            reveal_strlit("BonsaiHgMappingToHgChangeset");
            reveal_strlit("PublishedBookmarksToBonsaiChangeset");
            reveal_strlit("PublishedBookmarksToBonsaiHgMapping");
            reveal_strlit("HgBonsaiMappingToBonsaiChangeset");
            reveal_strlit("HgChangesetToHgParent");
            reveal_strlit("HgChangesetToHgManifest");
            reveal_strlit("HgManifestToHgFileEnvelope");
            reveal_strlit("HgManifestToHgFileNode");
            reveal_strlit("HgManifestToChildHgManifest");
            reveal_strlit("HgFileEnvelopeToFileContent");
            reveal_strlit("HgFileNodeToLinkedHgBonsaiMapping");
            reveal_strlit("HgFileNodeToLinkedHgChangeset");
            reveal_strlit("HgFileNodeToHgParentFileNode");
            reveal_strlit("HgFileNodeToHgCopyfromFileNode");
            reveal_strlit("FileContentToFileContentMetadata");
            reveal_strlit("FileContentMetadataToSha1Alias");
            reveal_strlit("FileContentMetadataToSha256Alias");
            reveal_strlit("FileContentMetadataToGitSha1Alias");
            reveal_strlit("AliasContentMappingToFileContent");
            reveal_strlit("BonsaiFsnodeMappingToRootFsnode");
            reveal_strlit("ChangesetInfoToChangesetInfoParent");
            reveal_strlit("BonsaiChangesetInfoMappingToChangesetInfo");
            reveal_strlit("FsnodeToChildFsnode");
            reveal_strlit("FsnodeToFileContent");
        }
        let s = match self {
            EdgeType::RootToBookmark => "RootToBookmark",
            EdgeType::RootToBonsaiChangeset => "RootToBonsaiChangeset",
            EdgeType::RootToBonsaiHgMapping => "RootToBonsaiHgMapping",
            EdgeType::RootToBonsaiPhaseMapping => "RootToBonsaiPhaseMapping",
            EdgeType::RootToPublishedBookmarks => "RootToPublishedBookmarks",
            EdgeType::RootToHgBonsaiMapping => "RootToHgBonsaiMapping",
            EdgeType::RootToHgChangeset => "RootToHgChangeset",
            EdgeType::RootToHgManifest => "RootToHgManifest",
            EdgeType::RootToHgFileEnvelope => "RootToHgFileEnvelope",
            EdgeType::RootToHgFileNode => "RootToHgFileNode",
            EdgeType::RootToFileContent => "RootToFileContent",
            EdgeType::RootToFileContentMetadata => "RootToFileContentMetadata",
            EdgeType::RootToAliasContentMapping => "RootToAliasContentMapping",
            EdgeType::RootToBonsaiChangesetInfoMapping => "RootToBonsaiChangesetInfoMapping",
            EdgeType::RootToBonsaiFsnodeMapping => "RootToBonsaiFsnodeMapping",
            EdgeType::RootToChangesetInfo => "RootToChangesetInfo",
            EdgeType::RootToFsnode => "RootToFsnode",
            EdgeType::BookmarkToBonsaiChangeset => "BookmarkToBonsaiChangeset",
            EdgeType::BookmarkToBonsaiHgMapping => "BookmarkToBonsaiHgMapping",
            EdgeType::BonsaiChangesetToFileContent => "BonsaiChangesetToFileContent",
            EdgeType::BonsaiChangesetToBonsaiParent => "BonsaiChangesetToBonsaiParent",
            EdgeType::BonsaiChangesetToBonsaiHgMapping => "BonsaiChangesetToBonsaiHgMapping",
            EdgeType::BonsaiChangesetToBonsaiPhaseMapping => "BonsaiChangesetToBonsaiPhaseMapping",
            EdgeType::BonsaiChangesetToBonsaiChangesetInfoMapping => "BonsaiChangesetToBonsaiChangesetInfoMapping",
            EdgeType::BonsaiChangesetToBonsaiFsnodeMapping => "BonsaiChangesetToBonsaiFsnodeMapping",
            EdgeType::BonsaiHgMappingToHgChangeset => "BonsaiHgMappingToHgChangeset",
            EdgeType::PublishedBookmarksToBonsaiChangeset => "PublishedBookmarksToBonsaiChangeset",
            EdgeType::PublishedBookmarksToBonsaiHgMapping => "PublishedBookmarksToBonsaiHgMapping",
            EdgeType::HgBonsaiMappingToBonsaiChangeset => "HgBonsaiMappingToBonsaiChangeset",
            EdgeType::HgChangesetToHgParent => "HgChangesetToHgParent",
            EdgeType::HgChangesetToHgManifest => "HgChangesetToHgManifest",
            EdgeType::HgManifestToHgFileEnvelope => "HgManifestToHgFileEnvelope",
            EdgeType::HgManifestToHgFileNode => "HgManifestToHgFileNode",
            EdgeType::HgManifestToChildHgManifest => "HgManifestToChildHgManifest",
            EdgeType::HgFileEnvelopeToFileContent => "HgFileEnvelopeToFileContent",
            EdgeType::HgFileNodeToLinkedHgBonsaiMapping => "HgFileNodeToLinkedHgBonsaiMapping",
            EdgeType::HgFileNodeToLinkedHgChangeset => "HgFileNodeToLinkedHgChangeset",
            EdgeType::HgFileNodeToHgParentFileNode => "HgFileNodeToHgParentFileNode",
            EdgeType::HgFileNodeToHgCopyfromFileNode => "HgFileNodeToHgCopyfromFileNode",
            EdgeType::FileContentToFileContentMetadata => "FileContentToFileContentMetadata",
            EdgeType::FileContentMetadataToSha1Alias => "FileContentMetadataToSha1Alias",
            EdgeType::FileContentMetadataToSha256Alias => "FileContentMetadataToSha256Alias",
            EdgeType::FileContentMetadataToGitSha1Alias => "FileContentMetadataToGitSha1Alias",
            EdgeType::AliasContentMappingToFileContent => "AliasContentMappingToFileContent",
            EdgeType::BonsaiFsnodeMappingToRootFsnode => "BonsaiFsnodeMappingToRootFsnode",
            EdgeType::ChangesetInfoToChangesetInfoParent => "ChangesetInfoToChangesetInfoParent",
            EdgeType::BonsaiChangesetInfoMappingToChangesetInfo => "BonsaiChangesetInfoMappingToChangesetInfo",
            EdgeType::FsnodeToChildFsnode => "FsnodeToChildFsnode",
            EdgeType::FsnodeToFileContent => "FsnodeToFileContent",
        };
        s.to_string()
    }
}


impl NodeType {
    /// The kind with the name `s`, if there is one.
    pub fn from_name(s: &str) -> (r: Option<NodeType>)
        ensures
            r.is_some() ==> node_type_name(r.unwrap()) == s@,
            r.is_none() ==> forall|t: NodeType| node_type_name(t) != s@,
    {
        if same_text(s, "Root") {
            proof {
                reveal_strlit("Root");
            }
            return Some(NodeType::Root);
        }
        if same_text(s, "Bookmark") {
            proof {
                reveal_strlit("Bookmark");
            }
            return Some(NodeType::Bookmark);
        }
        if same_text(s, "BonsaiChangeset") {
            proof {
                reveal_strlit("BonsaiChangeset");
            }
            return Some(NodeType::BonsaiChangeset);
        }
        if same_text(s, "BonsaiHgMapping") {
            proof {
                reveal_strlit("BonsaiHgMapping");
            }
            return Some(NodeType::BonsaiHgMapping);
        }
        if same_text(s, "BonsaiPhaseMapping") {
            proof {
                reveal_strlit("BonsaiPhaseMapping");
            }
            return Some(NodeType::BonsaiPhaseMapping);
        }
        if same_text(s, "PublishedBookmarks") {
            proof {
                reveal_strlit("PublishedBookmarks");
            }
            return Some(NodeType::PublishedBookmarks);
        }
        if same_text(s, "HgBonsaiMapping") {
            proof {
                reveal_strlit("HgBonsaiMapping");
            }
            return Some(NodeType::HgBonsaiMapping);
        }
        if same_text(s, "HgChangeset") {
            proof {
                reveal_strlit("HgChangeset");
            }
            return Some(NodeType::HgChangeset);
        }
        if same_text(s, "HgManifest") {
            proof {
                reveal_strlit("HgManifest");
            }
            return Some(NodeType::HgManifest);
        }
        if same_text(s, "HgFileEnvelope") {
            proof {
                reveal_strlit("HgFileEnvelope");
            }
            return Some(NodeType::HgFileEnvelope);
        }
        if same_text(s, "HgFileNode") {
            proof {
                reveal_strlit("HgFileNode");
            }
            return Some(NodeType::HgFileNode);
        }
        if same_text(s, "FileContent") {
            proof {
                reveal_strlit("FileContent");
            }
            return Some(NodeType::FileContent);
        }
        if same_text(s, "FileContentMetadata") {
            proof {
                reveal_strlit("FileContentMetadata");
            }
            return Some(NodeType::FileContentMetadata);
        }
        if same_text(s, "AliasContentMapping") {
            proof {
                reveal_strlit("AliasContentMapping");
            }
            return Some(NodeType::AliasContentMapping);
        }
        if same_text(s, "BonsaiFsnodeMapping") {
            proof {
                reveal_strlit("BonsaiFsnodeMapping");
            }
            return Some(NodeType::BonsaiFsnodeMapping);
        }
        if same_text(s, "ChangesetInfo") {
            proof {
                reveal_strlit("ChangesetInfo");
            }
            return Some(NodeType::ChangesetInfo);
        }
        if same_text(s, "BonsaiChangesetInfoMapping") {
            proof {
                reveal_strlit("BonsaiChangesetInfoMapping");
            }
            return Some(NodeType::BonsaiChangesetInfoMapping);
        }
        if same_text(s, "Fsnode") {
            proof {
                reveal_strlit("Fsnode");
            }
            return Some(NodeType::Fsnode);
        }
        proof {
            reveal_strlit("Root");
            reveal_strlit("Bookmark");
            reveal_strlit("BonsaiChangeset");
            reveal_strlit("BonsaiHgMapping");
            reveal_strlit("BonsaiPhaseMapping");
            reveal_strlit("PublishedBookmarks");
            reveal_strlit("HgBonsaiMapping");
            reveal_strlit("HgChangeset");
            reveal_strlit("HgManifest");
            reveal_strlit("HgFileEnvelope");
            reveal_strlit("HgFileNode");
            reveal_strlit("FileContent");
            reveal_strlit("FileContentMetadata");
            reveal_strlit("AliasContentMapping");
            reveal_strlit("BonsaiFsnodeMapping");
            reveal_strlit("ChangesetInfo");
            reveal_strlit("BonsaiChangesetInfoMapping");
            reveal_strlit("Fsnode");
        }
        None
    }
}

impl EdgeType {
    /// The kind with the name `s`, if there is one.
    pub fn from_name(s: &str) -> (r: Option<EdgeType>)
        ensures
            r.is_some() ==> edge_type_name(r.unwrap()) == s@,
            r.is_none() ==> forall|t: EdgeType| edge_type_name(t) != s@,
    {
        if same_text(s, "RootToBookmark") {
            proof {
                reveal_strlit("RootToBookmark");
            }
            return Some(EdgeType::RootToBookmark);
        }
        if same_text(s, "RootToBonsaiChangeset") {
            proof {
                reveal_strlit("RootToBonsaiChangeset");
            }
            return Some(EdgeType::RootToBonsaiChangeset);
        }
        if same_text(s, "RootToBonsaiHgMapping") {
            proof {
                reveal_strlit("RootToBonsaiHgMapping");
            }
            return Some(EdgeType::RootToBonsaiHgMapping);
        }
        if same_text(s, "RootToBonsaiPhaseMapping") {
            proof {
                reveal_strlit("RootToBonsaiPhaseMapping");
            }
            return Some(EdgeType::RootToBonsaiPhaseMapping);
        }
        if same_text(s, "RootToPublishedBookmarks") {
            proof {
                reveal_strlit("RootToPublishedBookmarks");
            }
            return Some(EdgeType::RootToPublishedBookmarks);
        }
        if same_text(s, "RootToHgBonsaiMapping") {
            proof {
                reveal_strlit("RootToHgBonsaiMapping");
            }
            return Some(EdgeType::RootToHgBonsaiMapping);
        }
        if same_text(s, "RootToHgChangeset") {
            proof {
                reveal_strlit("RootToHgChangeset");
            }
            return Some(EdgeType::RootToHgChangeset);
        }
        if same_text(s, "RootToHgManifest") {
            proof {
                reveal_strlit("RootToHgManifest");
            }
            return Some(EdgeType::RootToHgManifest);
        }
        if same_text(s, "RootToHgFileEnvelope") {
            proof {
                reveal_strlit("RootToHgFileEnvelope");
            }
            return Some(EdgeType::RootToHgFileEnvelope);
        }
        if same_text(s, "RootToHgFileNode") {
            proof {
                reveal_strlit("RootToHgFileNode");
            }
            return Some(EdgeType::RootToHgFileNode);
        }
        if same_text(s, "RootToFileContent") {
            proof {
                reveal_strlit("RootToFileContent");
            }
            return Some(EdgeType::RootToFileContent);
        }
        if same_text(s, "RootToFileContentMetadata") {
            proof {
                reveal_strlit("RootToFileContentMetadata");
            }
            return Some(EdgeType::RootToFileContentMetadata);
        }
        if same_text(s, "RootToAliasContentMapping") {
            proof {
                reveal_strlit("RootToAliasContentMapping");
            }
            return Some(EdgeType::RootToAliasContentMapping);
        }
        if same_text(s, "RootToBonsaiChangesetInfoMapping") {
            proof {
                reveal_strlit("RootToBonsaiChangesetInfoMapping");
            }
            return Some(EdgeType::RootToBonsaiChangesetInfoMapping);
        }
        if same_text(s, "RootToBonsaiFsnodeMapping") {
            proof {
                reveal_strlit("RootToBonsaiFsnodeMapping");
            }
            return Some(EdgeType::RootToBonsaiFsnodeMapping);
        }
        if same_text(s, "RootToChangesetInfo") {
            proof {
                reveal_strlit("RootToChangesetInfo");
            }
            return Some(EdgeType::RootToChangesetInfo);
        }
        if same_text(s, "RootToFsnode") {
            proof {
                reveal_strlit("RootToFsnode");
            }
            return Some(EdgeType::RootToFsnode);
        }
        if same_text(s, "BookmarkToBonsaiChangeset") {
            proof {
                reveal_strlit("BookmarkToBonsaiChangeset");
            }
            return Some(EdgeType::BookmarkToBonsaiChangeset);
        }
        if same_text(s, "BookmarkToBonsaiHgMapping") {
            proof {
                reveal_strlit("BookmarkToBonsaiHgMapping");
            }
            return Some(EdgeType::BookmarkToBonsaiHgMapping);
        }
        if same_text(s, "BonsaiChangesetToFileContent") {
            proof {
                reveal_strlit("BonsaiChangesetToFileContent");
            }
            return Some(EdgeType::BonsaiChangesetToFileContent);
        }
        if same_text(s, "BonsaiChangesetToBonsaiParent") {
            proof {
                reveal_strlit("BonsaiChangesetToBonsaiParent");
            }
            return Some(EdgeType::BonsaiChangesetToBonsaiParent);
        }
        if same_text(s, "BonsaiChangesetToBonsaiHgMapping") {
            proof {
                reveal_strlit("BonsaiChangesetToBonsaiHgMapping");
            }
            return Some(EdgeType::BonsaiChangesetToBonsaiHgMapping);
        }
        if same_text(s, "BonsaiChangesetToBonsaiPhaseMapping") {
            proof {
                reveal_strlit("BonsaiChangesetToBonsaiPhaseMapping");
            }
            return Some(EdgeType::BonsaiChangesetToBonsaiPhaseMapping);
        }
        if same_text(s, "BonsaiChangesetToBonsaiChangesetInfoMapping") {
            proof {
                reveal_strlit("BonsaiChangesetToBonsaiChangesetInfoMapping");
            }
            return Some(EdgeType::BonsaiChangesetToBonsaiChangesetInfoMapping);
        }
        if same_text(s, "BonsaiChangesetToBonsaiFsnodeMapping") {
            proof {
                reveal_strlit("BonsaiChangesetToBonsaiFsnodeMapping");
            }
            return Some(EdgeType::BonsaiChangesetToBonsaiFsnodeMapping);
        }
        if same_text(s, "BonsaiHgMappingToHgChangeset") {
            proof {
                reveal_strlit("BonsaiHgMappingToHgChangeset");
            }
            return Some(EdgeType::BonsaiHgMappingToHgChangeset);
        }
        if same_text(s, "PublishedBookmarksToBonsaiChangeset") {
            proof {
                reveal_strlit("PublishedBookmarksToBonsaiChangeset");
            }
            return Some(EdgeType::PublishedBookmarksToBonsaiChangeset);
        }
        if same_text(s, "PublishedBookmarksToBonsaiHgMapping") {
            proof {
                reveal_strlit("PublishedBookmarksToBonsaiHgMapping");
            }
            return Some(EdgeType::PublishedBookmarksToBonsaiHgMapping);
        }
        if same_text(s, "HgBonsaiMappingToBonsaiChangeset") {
            proof {
                reveal_strlit("HgBonsaiMappingToBonsaiChangeset");
            }
            return Some(EdgeType::HgBonsaiMappingToBonsaiChangeset);
        }
        if same_text(s, "HgChangesetToHgParent") {
            proof {
                reveal_strlit("HgChangesetToHgParent");
            }
            return Some(EdgeType::HgChangesetToHgParent);
        }
        if same_text(s, "HgChangesetToHgManifest") {
            proof {
                reveal_strlit("HgChangesetToHgManifest");
            }
            return Some(EdgeType::HgChangesetToHgManifest);
        }
        if same_text(s, "HgManifestToHgFileEnvelope") {
            proof {
                reveal_strlit("HgManifestToHgFileEnvelope");
            }
            return Some(EdgeType::HgManifestToHgFileEnvelope);
        }
        if same_text(s, "HgManifestToHgFileNode") {
            proof {
                reveal_strlit("HgManifestToHgFileNode");
            }
            return Some(EdgeType::HgManifestToHgFileNode);
        }
        if same_text(s, "HgManifestToChildHgManifest") {
            proof {
                reveal_strlit("HgManifestToChildHgManifest");
            }
            return Some(EdgeType::HgManifestToChildHgManifest);
        }
        if same_text(s, "HgFileEnvelopeToFileContent") {
            proof {
                reveal_strlit("HgFileEnvelopeToFileContent");
            }
            return Some(EdgeType::HgFileEnvelopeToFileContent);
        }
        if same_text(s, "HgFileNodeToLinkedHgBonsaiMapping") {
            proof {
                reveal_strlit("HgFileNodeToLinkedHgBonsaiMapping");
            }
            return Some(EdgeType::HgFileNodeToLinkedHgBonsaiMapping);
        }
        if same_text(s, "HgFileNodeToLinkedHgChangeset") {
            proof {
                reveal_strlit("HgFileNodeToLinkedHgChangeset");
            }
            return Some(EdgeType::HgFileNodeToLinkedHgChangeset);
        }
        if same_text(s, "HgFileNodeToHgParentFileNode") {
            proof {
                reveal_strlit("HgFileNodeToHgParentFileNode");
            }
            return Some(EdgeType::HgFileNodeToHgParentFileNode);
        }
        if same_text(s, "HgFileNodeToHgCopyfromFileNode") {
            proof {
                reveal_strlit("HgFileNodeToHgCopyfromFileNode");
            }
            return Some(EdgeType::HgFileNodeToHgCopyfromFileNode);
        }
        if same_text(s, "FileContentToFileContentMetadata") {
            proof {
                reveal_strlit("FileContentToFileContentMetadata");
            }
            return Some(EdgeType::FileContentToFileContentMetadata);
        }
        if same_text(s, "FileContentMetadataToSha1Alias") {
            proof {
                reveal_strlit("FileContentMetadataToSha1Alias");
            }
            return Some(EdgeType::FileContentMetadataToSha1Alias);
        }
        if same_text(s, "FileContentMetadataToSha256Alias") {
            proof {
                reveal_strlit("FileContentMetadataToSha256Alias");
            }
            return Some(EdgeType::FileContentMetadataToSha256Alias);
        }
        if same_text(s, "FileContentMetadataToGitSha1Alias") {
            proof {
                reveal_strlit("FileContentMetadataToGitSha1Alias");
            }
            return Some(EdgeType::FileContentMetadataToGitSha1Alias);
        }
        if same_text(s, "AliasContentMappingToFileContent") {
            proof {
                reveal_strlit("AliasContentMappingToFileContent");
            }
            return Some(EdgeType::AliasContentMappingToFileContent);
        }
        if same_text(s, "BonsaiFsnodeMappingToRootFsnode") {
            proof {
                reveal_strlit("BonsaiFsnodeMappingToRootFsnode");
            }
            return Some(EdgeType::BonsaiFsnodeMappingToRootFsnode);
        }
        if same_text(s, "ChangesetInfoToChangesetInfoParent") {
            proof {
                reveal_strlit("ChangesetInfoToChangesetInfoParent");
            }
            return Some(EdgeType::ChangesetInfoToChangesetInfoParent);
        }
        if same_text(s, "BonsaiChangesetInfoMappingToChangesetInfo") {
            proof {
                reveal_strlit("BonsaiChangesetInfoMappingToChangesetInfo");
            }
            return Some(EdgeType::BonsaiChangesetInfoMappingToChangesetInfo);
        }
        if same_text(s, "FsnodeToChildFsnode") {
            proof {
                reveal_strlit("FsnodeToChildFsnode");
            }
            return Some(EdgeType::FsnodeToChildFsnode);
        }
        if same_text(s, "FsnodeToFileContent") {
            proof {
                reveal_strlit("FsnodeToFileContent");
            }
            return Some(EdgeType::FsnodeToFileContent);
        }
        proof {
            reveal_strlit("RootToBookmark");
            reveal_strlit("RootToBonsaiChangeset");
            reveal_strlit("RootToBonsaiHgMapping");
            reveal_strlit("RootToBonsaiPhaseMapping");
            reveal_strlit("RootToPublishedBookmarks");
            reveal_strlit("RootToHgBonsaiMapping");
            reveal_strlit("RootToHgChangeset");
            reveal_strlit("RootToHgManifest");
            reveal_strlit("RootToHgFileEnvelope");
            reveal_strlit("RootToHgFileNode");
            reveal_strlit("RootToFileContent");
            reveal_strlit("RootToFileContentMetadata");
            reveal_strlit("RootToAliasContentMapping");
            reveal_strlit("RootToBonsaiChangesetInfoMapping");
            reveal_strlit("RootToBonsaiFsnodeMapping");
            reveal_strlit("RootToChangesetInfo");
            reveal_strlit("RootToFsnode");
            reveal_strlit("BookmarkToBonsaiChangeset");
            reveal_strlit("BookmarkToBonsaiHgMapping");
            reveal_strlit("BonsaiChangesetToFileContent");
            reveal_strlit("BonsaiChangesetToBonsaiParent");
            reveal_strlit("BonsaiChangesetToBonsaiHgMapping");
            reveal_strlit("BonsaiChangesetToBonsaiPhaseMapping");
            reveal_strlit("BonsaiChangesetToBonsaiChangesetInfoMapping");
            reveal_strlit("BonsaiChangesetToBonsaiFsnodeMapping");
            reveal_strlit("BonsaiHgMappingToHgChangeset");
            reveal_strlit("PublishedBookmarksToBonsaiChangeset");
            reveal_strlit("PublishedBookmarksToBonsaiHgMapping");
            reveal_strlit("HgBonsaiMappingToBonsaiChangeset");
            reveal_strlit("HgChangesetToHgParent");
            reveal_strlit("HgChangesetToHgManifest");
            reveal_strlit("HgManifestToHgFileEnvelope");
            reveal_strlit("HgManifestToHgFileNode");
            reveal_strlit("HgManifestToChildHgManifest");
            reveal_strlit("HgFileEnvelopeToFileContent");
            reveal_strlit("HgFileNodeToLinkedHgBonsaiMapping");
            reveal_strlit("HgFileNodeToLinkedHgChangeset");
            reveal_strlit("HgFileNodeToHgParentFileNode");
            reveal_strlit("HgFileNodeToHgCopyfromFileNode");
            reveal_strlit("FileContentToFileContentMetadata");
            reveal_strlit("FileContentMetadataToSha1Alias");
            reveal_strlit("FileContentMetadataToSha256Alias");
            reveal_strlit("FileContentMetadataToGitSha1Alias");
            reveal_strlit("AliasContentMappingToFileContent");
            reveal_strlit("BonsaiFsnodeMappingToRootFsnode");
            reveal_strlit("ChangesetInfoToChangesetInfoParent");
            reveal_strlit("BonsaiChangesetInfoMappingToChangesetInfo");
            reveal_strlit("FsnodeToChildFsnode");
            reveal_strlit("FsnodeToFileContent");
        }
        None
    }
}

/// Every edge kind, in ordinal order.
pub open spec fn all_edge_types() -> Seq<EdgeType> {
    seq![
        EdgeType::RootToBookmark,
        EdgeType::RootToBonsaiChangeset,
        EdgeType::RootToBonsaiHgMapping,
        EdgeType::RootToBonsaiPhaseMapping,
        EdgeType::RootToPublishedBookmarks,
        EdgeType::RootToHgBonsaiMapping,
        EdgeType::RootToHgChangeset,
        EdgeType::RootToHgManifest,
        EdgeType::RootToHgFileEnvelope,
        EdgeType::RootToHgFileNode,
        EdgeType::RootToFileContent,
        EdgeType::RootToFileContentMetadata,
        EdgeType::RootToAliasContentMapping,
        EdgeType::RootToBonsaiChangesetInfoMapping,
        EdgeType::RootToBonsaiFsnodeMapping,
        EdgeType::RootToChangesetInfo,
        EdgeType::RootToFsnode,
        EdgeType::BookmarkToBonsaiChangeset,
        EdgeType::BookmarkToBonsaiHgMapping,
        EdgeType::BonsaiChangesetToFileContent,
        EdgeType::BonsaiChangesetToBonsaiParent,
        EdgeType::BonsaiChangesetToBonsaiHgMapping,
        EdgeType::BonsaiChangesetToBonsaiPhaseMapping,
        EdgeType::BonsaiChangesetToBonsaiChangesetInfoMapping,
        EdgeType::BonsaiChangesetToBonsaiFsnodeMapping,
        EdgeType::BonsaiHgMappingToHgChangeset,
        EdgeType::PublishedBookmarksToBonsaiChangeset,
        EdgeType::PublishedBookmarksToBonsaiHgMapping,
        EdgeType::HgBonsaiMappingToBonsaiChangeset,
        EdgeType::HgChangesetToHgParent,
        EdgeType::HgChangesetToHgManifest,
        EdgeType::HgManifestToHgFileEnvelope,
        EdgeType::HgManifestToHgFileNode,
        EdgeType::HgManifestToChildHgManifest,
        EdgeType::HgFileEnvelopeToFileContent,
        EdgeType::HgFileNodeToLinkedHgBonsaiMapping,
        EdgeType::HgFileNodeToLinkedHgChangeset,
        EdgeType::HgFileNodeToHgParentFileNode,
        EdgeType::HgFileNodeToHgCopyfromFileNode,
        EdgeType::FileContentToFileContentMetadata,
        EdgeType::FileContentMetadataToSha1Alias,
        EdgeType::FileContentMetadataToSha256Alias,
        EdgeType::FileContentMetadataToGitSha1Alias,
        EdgeType::AliasContentMappingToFileContent,
        EdgeType::BonsaiFsnodeMappingToRootFsnode,
        EdgeType::ChangesetInfoToChangesetInfoParent,
        EdgeType::BonsaiChangesetInfoMappingToChangesetInfo,
        EdgeType::FsnodeToChildFsnode,
        EdgeType::FsnodeToFileContent,
    ]
}

impl EdgeType {
    /// The number of edge kinds.
    pub const COUNT: usize = 49;

    /// Every edge kind, in ordinal order.
    pub fn iter() -> (r: Vec<EdgeType>)
        ensures
            r@ == all_edge_types(),
    {
        let r = vec![
            EdgeType::RootToBookmark,
            EdgeType::RootToBonsaiChangeset,
            EdgeType::RootToBonsaiHgMapping,
            EdgeType::RootToBonsaiPhaseMapping,
            EdgeType::RootToPublishedBookmarks,
            EdgeType::RootToHgBonsaiMapping,
            EdgeType::RootToHgChangeset,
            EdgeType::RootToHgManifest,
            EdgeType::RootToHgFileEnvelope,
            EdgeType::RootToHgFileNode,
            EdgeType::RootToFileContent,
            EdgeType::RootToFileContentMetadata,
            EdgeType::RootToAliasContentMapping,
            EdgeType::RootToBonsaiChangesetInfoMapping,
            EdgeType::RootToBonsaiFsnodeMapping,
            EdgeType::RootToChangesetInfo,
            EdgeType::RootToFsnode,
            EdgeType::BookmarkToBonsaiChangeset,
            EdgeType::BookmarkToBonsaiHgMapping,
            EdgeType::BonsaiChangesetToFileContent,
            EdgeType::BonsaiChangesetToBonsaiParent,
            EdgeType::BonsaiChangesetToBonsaiHgMapping,
            EdgeType::BonsaiChangesetToBonsaiPhaseMapping,
            EdgeType::BonsaiChangesetToBonsaiChangesetInfoMapping,
            EdgeType::BonsaiChangesetToBonsaiFsnodeMapping,
            EdgeType::BonsaiHgMappingToHgChangeset,
            EdgeType::PublishedBookmarksToBonsaiChangeset,
            EdgeType::PublishedBookmarksToBonsaiHgMapping,
            EdgeType::HgBonsaiMappingToBonsaiChangeset,
            EdgeType::HgChangesetToHgParent,
            EdgeType::HgChangesetToHgManifest,
            EdgeType::HgManifestToHgFileEnvelope,
            EdgeType::HgManifestToHgFileNode,
            EdgeType::HgManifestToChildHgManifest,
            EdgeType::HgFileEnvelopeToFileContent,
            EdgeType::HgFileNodeToLinkedHgBonsaiMapping,
            EdgeType::HgFileNodeToLinkedHgChangeset,
            EdgeType::HgFileNodeToHgParentFileNode,
            EdgeType::HgFileNodeToHgCopyfromFileNode,
            EdgeType::FileContentToFileContentMetadata,
            EdgeType::FileContentMetadataToSha1Alias,
            EdgeType::FileContentMetadataToSha256Alias,
            EdgeType::FileContentMetadataToGitSha1Alias,
            EdgeType::AliasContentMappingToFileContent,
            EdgeType::BonsaiFsnodeMappingToRootFsnode,
            EdgeType::ChangesetInfoToChangesetInfoParent,
            EdgeType::BonsaiChangesetInfoMappingToChangesetInfo,
            EdgeType::FsnodeToChildFsnode,
            EdgeType::FsnodeToFileContent,
        ];
        assert(r@ =~= all_edge_types());
        r
    }
}


/// `s` begins with `p`.
pub open spec fn starts_with(s: Seq<char>, p: Seq<char>) -> bool {
    p.len() <= s.len() && s.subrange(0, p.len() as int) == p
}

/// An edge kind has no incoming kind exactly when it comes from the root, and that
/// is exactly when its name starts with `RootTo`.
pub proof fn lemma_root_edge_names(e: EdgeType)
    ensures
        incoming_of(e).is_none() <==> source_of(e) == NodeType::Root,
        source_of(e) == NodeType::Root <==> starts_with(edge_type_name(e), "RootTo"@),
{
    reveal_strlit("RootTo");
    match e {
        EdgeType::RootToBookmark => {
            reveal_strlit("RootToBookmark");
            assert("RootToBookmark"@.subrange(0, 6) =~= "RootTo"@);
        },
        EdgeType::RootToBonsaiChangeset => {
            reveal_strlit("RootToBonsaiChangeset");
            assert("RootToBonsaiChangeset"@.subrange(0, 6) =~= "RootTo"@);
        },
        EdgeType::RootToBonsaiHgMapping => {
            reveal_strlit("RootToBonsaiHgMapping");
            assert("RootToBonsaiHgMapping"@.subrange(0, 6) =~= "RootTo"@);
        },
        EdgeType::RootToBonsaiPhaseMapping => {
            reveal_strlit("RootToBonsaiPhaseMapping");
            assert("RootToBonsaiPhaseMapping"@.subrange(0, 6) =~= "RootTo"@);
        },
        EdgeType::RootToPublishedBookmarks => {
            reveal_strlit("RootToPublishedBookmarks");
            assert("RootToPublishedBookmarks"@.subrange(0, 6) =~= "RootTo"@);
        },
        EdgeType::RootToHgBonsaiMapping => {
            reveal_strlit("RootToHgBonsaiMapping");
            assert("RootToHgBonsaiMapping"@.subrange(0, 6) =~= "RootTo"@);
        },
        EdgeType::RootToHgChangeset => {
            reveal_strlit("RootToHgChangeset");
            assert("RootToHgChangeset"@.subrange(0, 6) =~= "RootTo"@);
        },
        EdgeType::RootToHgManifest => {
            reveal_strlit("RootToHgManifest");
            assert("RootToHgManifest"@.subrange(0, 6) =~= "RootTo"@);
        },
        EdgeType::RootToHgFileEnvelope => {
            reveal_strlit("RootToHgFileEnvelope");
            assert("RootToHgFileEnvelope"@.subrange(0, 6) =~= "RootTo"@);
        },
        EdgeType::RootToHgFileNode => {
            reveal_strlit("RootToHgFileNode");
            assert("RootToHgFileNode"@.subrange(0, 6) =~= "RootTo"@);
        },
        EdgeType::RootToFileContent => {
            reveal_strlit("RootToFileContent");
            assert("RootToFileContent"@.subrange(0, 6) =~= "RootTo"@);
        },
        EdgeType::RootToFileContentMetadata => {
            reveal_strlit("RootToFileContentMetadata");
            assert("RootToFileContentMetadata"@.subrange(0, 6) =~= "RootTo"@);
        },
        EdgeType::RootToAliasContentMapping => {
            reveal_strlit("RootToAliasContentMapping");
            assert("RootToAliasContentMapping"@.subrange(0, 6) =~= "RootTo"@);
        },
        EdgeType::RootToBonsaiChangesetInfoMapping => {
            reveal_strlit("RootToBonsaiChangesetInfoMapping");
            assert("RootToBonsaiChangesetInfoMapping"@.subrange(0, 6) =~= "RootTo"@);
        },
        EdgeType::RootToBonsaiFsnodeMapping => {
            reveal_strlit("RootToBonsaiFsnodeMapping");
            assert("RootToBonsaiFsnodeMapping"@.subrange(0, 6) =~= "RootTo"@);
        },
        EdgeType::RootToChangesetInfo => {
            reveal_strlit("RootToChangesetInfo");
            assert("RootToChangesetInfo"@.subrange(0, 6) =~= "RootTo"@);
        },
        EdgeType::RootToFsnode => {
            reveal_strlit("RootToFsnode");
            assert("RootToFsnode"@.subrange(0, 6) =~= "RootTo"@);
        },
        EdgeType::BookmarkToBonsaiChangeset => {
            reveal_strlit("BookmarkToBonsaiChangeset");
            assert("BookmarkToBonsaiChangeset"@.subrange(0, 6)[0] != "RootTo"@[0]);
        },
        EdgeType::BookmarkToBonsaiHgMapping => {
            reveal_strlit("BookmarkToBonsaiHgMapping");
            assert("BookmarkToBonsaiHgMapping"@.subrange(0, 6)[0] != "RootTo"@[0]);
        },
        EdgeType::BonsaiChangesetToFileContent => {
            reveal_strlit("BonsaiChangesetToFileContent");
            assert("BonsaiChangesetToFileContent"@.subrange(0, 6)[0] != "RootTo"@[0]);
        },
        EdgeType::BonsaiChangesetToBonsaiParent => {
            reveal_strlit("BonsaiChangesetToBonsaiParent");
            assert("BonsaiChangesetToBonsaiParent"@.subrange(0, 6)[0] != "RootTo"@[0]);
        },
        EdgeType::BonsaiChangesetToBonsaiHgMapping => {
            reveal_strlit("BonsaiChangesetToBonsaiHgMapping");
            assert("BonsaiChangesetToBonsaiHgMapping"@.subrange(0, 6)[0] != "RootTo"@[0]);
        },
        EdgeType::BonsaiChangesetToBonsaiPhaseMapping => {
            reveal_strlit("BonsaiChangesetToBonsaiPhaseMapping");
            assert("BonsaiChangesetToBonsaiPhaseMapping"@.subrange(0, 6)[0] != "RootTo"@[0]);
        },
        EdgeType::BonsaiChangesetToBonsaiChangesetInfoMapping => {
            reveal_strlit("BonsaiChangesetToBonsaiChangesetInfoMapping");
            assert("BonsaiChangesetToBonsaiChangesetInfoMapping"@.subrange(0, 6)[0] != "RootTo"@[0]);
        },
        EdgeType::BonsaiChangesetToBonsaiFsnodeMapping => {
            reveal_strlit("BonsaiChangesetToBonsaiFsnodeMapping");
            assert("BonsaiChangesetToBonsaiFsnodeMapping"@.subrange(0, 6)[0] != "RootTo"@[0]);
        },
        EdgeType::BonsaiHgMappingToHgChangeset => {
            reveal_strlit("BonsaiHgMappingToHgChangeset");
            assert("BonsaiHgMappingToHgChangeset"@.subrange(0, 6)[0] != "RootTo"@[0]);
        },
        EdgeType::PublishedBookmarksToBonsaiChangeset => {
            reveal_strlit("PublishedBookmarksToBonsaiChangeset");
            assert("PublishedBookmarksToBonsaiChangeset"@.subrange(0, 6)[0] != "RootTo"@[0]);
        },
        EdgeType::PublishedBookmarksToBonsaiHgMapping => {
            reveal_strlit("PublishedBookmarksToBonsaiHgMapping");
            assert("PublishedBookmarksToBonsaiHgMapping"@.subrange(0, 6)[0] != "RootTo"@[0]);
        },
        EdgeType::HgBonsaiMappingToBonsaiChangeset => {
            reveal_strlit("HgBonsaiMappingToBonsaiChangeset");
            assert("HgBonsaiMappingToBonsaiChangeset"@.subrange(0, 6)[0] != "RootTo"@[0]);
        },
        EdgeType::HgChangesetToHgParent => {
            reveal_strlit("HgChangesetToHgParent");
            assert("HgChangesetToHgParent"@.subrange(0, 6)[0] != "RootTo"@[0]);
        },
        EdgeType::HgChangesetToHgManifest => {
            reveal_strlit("HgChangesetToHgManifest");
            assert("HgChangesetToHgManifest"@.subrange(0, 6)[0] != "RootTo"@[0]);
        },
        EdgeType::HgManifestToHgFileEnvelope => {
            reveal_strlit("HgManifestToHgFileEnvelope");
            assert("HgManifestToHgFileEnvelope"@.subrange(0, 6)[0] != "RootTo"@[0]);
        },
        EdgeType::HgManifestToHgFileNode => {
            reveal_strlit("HgManifestToHgFileNode");
            assert("HgManifestToHgFileNode"@.subrange(0, 6)[0] != "RootTo"@[0]);
        },
        EdgeType::HgManifestToChildHgManifest => {
            reveal_strlit("HgManifestToChildHgManifest");
            assert("HgManifestToChildHgManifest"@.subrange(0, 6)[0] != "RootTo"@[0]);
        },
        EdgeType::HgFileEnvelopeToFileContent => {
            reveal_strlit("HgFileEnvelopeToFileContent");
            assert("HgFileEnvelopeToFileContent"@.subrange(0, 6)[0] != "RootTo"@[0]);
        },
        EdgeType::HgFileNodeToLinkedHgBonsaiMapping => {
            reveal_strlit("HgFileNodeToLinkedHgBonsaiMapping");
            assert("HgFileNodeToLinkedHgBonsaiMapping"@.subrange(0, 6)[0] != "RootTo"@[0]);
        },
        EdgeType::HgFileNodeToLinkedHgChangeset => {
            reveal_strlit("HgFileNodeToLinkedHgChangeset");
            assert("HgFileNodeToLinkedHgChangeset"@.subrange(0, 6)[0] != "RootTo"@[0]);
        },
        EdgeType::HgFileNodeToHgParentFileNode => {
            reveal_strlit("HgFileNodeToHgParentFileNode");
            assert("HgFileNodeToHgParentFileNode"@.subrange(0, 6)[0] != "RootTo"@[0]);
        },
        EdgeType::HgFileNodeToHgCopyfromFileNode => {
            reveal_strlit("HgFileNodeToHgCopyfromFileNode");
            assert("HgFileNodeToHgCopyfromFileNode"@.subrange(0, 6)[0] != "RootTo"@[0]);
        },
        EdgeType::FileContentToFileContentMetadata => {
            reveal_strlit("FileContentToFileContentMetadata");
            assert("FileContentToFileContentMetadata"@.subrange(0, 6)[0] != "RootTo"@[0]);
        },
        EdgeType::FileContentMetadataToSha1Alias => {
            reveal_strlit("FileContentMetadataToSha1Alias");
            assert("FileContentMetadataToSha1Alias"@.subrange(0, 6)[0] != "RootTo"@[0]);
        },
        EdgeType::FileContentMetadataToSha256Alias => {
            reveal_strlit("FileContentMetadataToSha256Alias");
            assert("FileContentMetadataToSha256Alias"@.subrange(0, 6)[0] != "RootTo"@[0]);
        },
        EdgeType::FileContentMetadataToGitSha1Alias => {
            reveal_strlit("FileContentMetadataToGitSha1Alias");
            assert("FileContentMetadataToGitSha1Alias"@.subrange(0, 6)[0] != "RootTo"@[0]);
        },
        EdgeType::AliasContentMappingToFileContent => {
            reveal_strlit("AliasContentMappingToFileContent");
            assert("AliasContentMappingToFileContent"@.subrange(0, 6)[0] != "RootTo"@[0]);
        },
        EdgeType::BonsaiFsnodeMappingToRootFsnode => {
            reveal_strlit("BonsaiFsnodeMappingToRootFsnode");
            assert("BonsaiFsnodeMappingToRootFsnode"@.subrange(0, 6)[0] != "RootTo"@[0]);
        },
        EdgeType::ChangesetInfoToChangesetInfoParent => {
            reveal_strlit("ChangesetInfoToChangesetInfoParent");
            assert("ChangesetInfoToChangesetInfoParent"@.subrange(0, 6)[0] != "RootTo"@[0]);
        },
        EdgeType::BonsaiChangesetInfoMappingToChangesetInfo => {
            reveal_strlit("BonsaiChangesetInfoMappingToChangesetInfo");
            assert("BonsaiChangesetInfoMappingToChangesetInfo"@.subrange(0, 6)[0] != "RootTo"@[0]);
        },
        EdgeType::FsnodeToChildFsnode => {
            reveal_strlit("FsnodeToChildFsnode");
            assert("FsnodeToChildFsnode"@.subrange(0, 6)[0] != "RootTo"@[0]);
        },
        EdgeType::FsnodeToFileContent => {
            reveal_strlit("FsnodeToFileContent");
            assert("FsnodeToFileContent"@.subrange(0, 6)[0] != "RootTo"@[0]);
        },
    }
}

/// Where an edge kind stands in the order of declaration.
spec fn edge_ordinal(e: EdgeType) -> int {
    match e {
        EdgeType::RootToBookmark => 0,
        EdgeType::RootToBonsaiChangeset => 1,
        EdgeType::RootToBonsaiHgMapping => 2,
        EdgeType::RootToBonsaiPhaseMapping => 3,
        EdgeType::RootToPublishedBookmarks => 4,
        EdgeType::RootToHgBonsaiMapping => 5,
        EdgeType::RootToHgChangeset => 6,
        EdgeType::RootToHgManifest => 7,
        EdgeType::RootToHgFileEnvelope => 8,
        EdgeType::RootToHgFileNode => 9,
        EdgeType::RootToFileContent => 10,
        EdgeType::RootToFileContentMetadata => 11,
        EdgeType::RootToAliasContentMapping => 12,
        EdgeType::RootToBonsaiChangesetInfoMapping => 13,
        EdgeType::RootToBonsaiFsnodeMapping => 14,
        EdgeType::RootToChangesetInfo => 15,
        EdgeType::RootToFsnode => 16,
        EdgeType::BookmarkToBonsaiChangeset => 17,
        EdgeType::BookmarkToBonsaiHgMapping => 18,
        EdgeType::BonsaiChangesetToFileContent => 19,
        EdgeType::BonsaiChangesetToBonsaiParent => 20,
        EdgeType::BonsaiChangesetToBonsaiHgMapping => 21,
        EdgeType::BonsaiChangesetToBonsaiPhaseMapping => 22,
        EdgeType::BonsaiChangesetToBonsaiChangesetInfoMapping => 23,
        EdgeType::BonsaiChangesetToBonsaiFsnodeMapping => 24,
        EdgeType::BonsaiHgMappingToHgChangeset => 25,
        EdgeType::PublishedBookmarksToBonsaiChangeset => 26,
        EdgeType::PublishedBookmarksToBonsaiHgMapping => 27,
        EdgeType::HgBonsaiMappingToBonsaiChangeset => 28,
        EdgeType::HgChangesetToHgParent => 29,
        EdgeType::HgChangesetToHgManifest => 30,
        EdgeType::HgManifestToHgFileEnvelope => 31,
        EdgeType::HgManifestToHgFileNode => 32,
        EdgeType::HgManifestToChildHgManifest => 33,
        EdgeType::HgFileEnvelopeToFileContent => 34,
        EdgeType::HgFileNodeToLinkedHgBonsaiMapping => 35,
        EdgeType::HgFileNodeToLinkedHgChangeset => 36,
        EdgeType::HgFileNodeToHgParentFileNode => 37,
        EdgeType::HgFileNodeToHgCopyfromFileNode => 38,
        EdgeType::FileContentToFileContentMetadata => 39,
        EdgeType::FileContentMetadataToSha1Alias => 40,
        EdgeType::FileContentMetadataToSha256Alias => 41,
        EdgeType::FileContentMetadataToGitSha1Alias => 42,
        EdgeType::AliasContentMappingToFileContent => 43,
        EdgeType::BonsaiFsnodeMappingToRootFsnode => 44,
        EdgeType::ChangesetInfoToChangesetInfoParent => 45,
        EdgeType::BonsaiChangesetInfoMappingToChangesetInfo => 46,
        EdgeType::FsnodeToChildFsnode => 47,
        EdgeType::FsnodeToFileContent => 48,
    }
}

/// The root declares seventeen edge kinds, all different. By `lemma_edge_is_declared`
/// and `lemma_declared_edge` they are exactly the edge kinds that come from the root.
pub proof fn lemma_root_edges_distinct()
    ensures
        declared_edges(NodeType::Root).len() == 17,
        forall|a: int, b: int|
            0 <= a < b < 17 ==> (#[trigger] declared_edges(NodeType::Root)[a]).0 != (
            #[trigger] declared_edges(NodeType::Root)[b]).0,
{
    let d = declared_edges(NodeType::Root);
    assert forall|a: int| 0 <= a < 17 implies edge_ordinal((#[trigger] d[a]).0) == a by {
        if a == 0 {
            assert(d[0].0 == EdgeType::RootToBookmark);
        } else if a == 1 {
            assert(d[1].0 == EdgeType::RootToBonsaiChangeset);
        } else if a == 2 {
            assert(d[2].0 == EdgeType::RootToBonsaiHgMapping);
        } else if a == 3 {
            assert(d[3].0 == EdgeType::RootToBonsaiPhaseMapping);
        } else if a == 4 {
            assert(d[4].0 == EdgeType::RootToPublishedBookmarks);
        } else if a == 5 {
            assert(d[5].0 == EdgeType::RootToHgBonsaiMapping);
        } else if a == 6 {
            assert(d[6].0 == EdgeType::RootToHgChangeset);
        } else if a == 7 {
            assert(d[7].0 == EdgeType::RootToHgManifest);
        } else if a == 8 {
            assert(d[8].0 == EdgeType::RootToHgFileEnvelope);
        } else if a == 9 {
            assert(d[9].0 == EdgeType::RootToHgFileNode);
        } else if a == 10 {
            assert(d[10].0 == EdgeType::RootToFileContent);
        } else if a == 11 {
            assert(d[11].0 == EdgeType::RootToFileContentMetadata);
        } else if a == 12 {
            assert(d[12].0 == EdgeType::RootToAliasContentMapping);
        } else if a == 13 {
            assert(d[13].0 == EdgeType::RootToBonsaiChangesetInfoMapping);
        } else if a == 14 {
            assert(d[14].0 == EdgeType::RootToBonsaiFsnodeMapping);
        } else if a == 15 {
            assert(d[15].0 == EdgeType::RootToChangesetInfo);
        } else if a == 16 {
            assert(d[16].0 == EdgeType::RootToFsnode);
        }
    }
    assert forall|a: int, b: int| 0 <= a < b < 17 implies (#[trigger] d[a]).0 != (#[trigger] d[b]).0 by {
        assert(edge_ordinal(d[a].0) == a);
        assert(edge_ordinal(d[b].0) == b);
    }
}

/// What loading a file's content gave: its bytes, or how many bytes were
/// read and passed on already.
#[derive(Clone, Debug, PartialEq, Eq)]
pub enum FileContentData {
    Content(Vec<u8>),
    Consumed(usize),
}

/// What loading a node gave: one variant for each kind, with the payload of that
/// kind. Structured objects are held as the bytes of their stored form; an absent
/// optional payload is a valid result, not an error.
#[derive(Clone, Debug, PartialEq, Eq)]
pub enum NodeData {
    ErrorAsData(Node),
    NotRequired,
    Bookmark(ChangesetId),
    BonsaiChangeset(Vec<u8>),
    BonsaiHgMapping(Option<HgChangesetId>),
    BonsaiPhaseMapping(Option<Phase>),
    PublishedBookmarks,
    HgBonsaiMapping(Option<ChangesetId>),
    HgChangeset(Vec<u8>),
    HgManifest(Vec<u8>),
    HgFileEnvelope(Vec<u8>),
    HgFileNode(Option<Vec<u8>>),
    FileContent(FileContentData),
    FileContentMetadata(Option<Vec<u8>>),
    AliasContentMapping(ContentId),
    BonsaiChangesetInfoMapping(Option<ChangesetId>),
    BonsaiFsnodeMapping(Option<FsnodeId>),
    ChangesetInfo(Option<Vec<u8>>),
    Fsnode(Vec<u8>),
}

} // verus!
