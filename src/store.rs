use vstd::prelude::*;

use crate::ids::{sha256_digest, sha256_of};

verus! {

/// A SHA-256 digest.
#[derive(Clone, Copy, Debug, PartialEq, Eq, Hash, PartialOrd, Ord)]
pub struct Sha256(pub [u8; 32]);

/// A Mercurial node hash.
#[derive(Clone, Copy, Debug, PartialEq, Eq, Hash, PartialOrd, Ord)]
pub struct HgId(pub [u8; 20]);

/// A file revision: a path and the node hash of the file at that path.
#[derive(Clone, Debug, PartialEq, Eq, Hash, PartialOrd, Ord)]
pub struct Key {
    pub path: String,
    pub hgid: HgId,
}

impl Key {
    pub fn new(path: String, hgid: HgId) -> (r: Key)
        ensures
            r.path@ == path@,
            r.hgid == hgid,
    {
        Key { path, hgid }
    }
}

/// The kind of content hash stored in a large-file pointer. New kinds may be
/// added; kinds are never reordered or removed.
#[derive(Clone, Copy, Debug, PartialEq, Eq, Hash, PartialOrd, Ord)]
pub enum ContentHash {
    Sha256(Sha256),
}

/// What a store is asked for: a file revision, or content by its hash.
#[derive(Clone, Debug, PartialEq, Eq, Hash, PartialOrd, Ord)]
pub enum StoreKey {
    HgId(Key),
    /// The key lets a lookup fall back from content to a file revision.
    Content(ContentHash, Option<Key>),
}

impl ContentHash {
    /// The SHA-256 content hash of `data`.
    pub fn sha256(data: &[u8]) -> (r: ContentHash)
        ensures
            r->Sha256_0.0@ == sha256_of(data@),
    {
        ContentHash::Sha256(Sha256(sha256_digest(data)))
    }

    pub fn unwrap_sha256(self) -> (r: Sha256)
        ensures
            self == ContentHash::Sha256(r),
    {
        match self {
            ContentHash::Sha256(hash) => hash,
        }
    }
}

impl StoreKey {
    pub fn hgid(key: Key) -> (r: StoreKey)
        ensures
            r == StoreKey::HgId(key),
    {
        StoreKey::HgId(key)
    }

    pub fn content(hash: ContentHash) -> (r: StoreKey)
        ensures
            r == StoreKey::Content(hash, None),
    {
        StoreKey::Content(hash, None)
    }
}

impl From<Key> for StoreKey {
    fn from(k: Key) -> (r: StoreKey) {
        StoreKey::HgId(k)
    }
}

impl vstd::std_specs::convert::FromSpecImpl<Key> for StoreKey {
    open spec fn obeys_from_spec() -> bool {
        true
    }

    open spec fn from_spec(k: Key) -> StoreKey {
        StoreKey::HgId(k)
    }
}

impl From<ContentHash> for StoreKey {
    fn from(hash: ContentHash) -> (r: StoreKey) {
        StoreKey::Content(hash, None)
    }
}

impl vstd::std_specs::convert::FromSpecImpl<ContentHash> for StoreKey {
    open spec fn obeys_from_spec() -> bool {
        true
    }

    open spec fn from_spec(hash: ContentHash) -> StoreKey {
        StoreKey::Content(hash, None)
    }
}

impl<'a> From<&'a ContentHash> for StoreKey {
    fn from(hash: &'a ContentHash) -> (r: StoreKey) {
        StoreKey::Content(*hash, None)
    }
}

impl<'a> vstd::std_specs::convert::FromSpecImpl<&'a ContentHash> for StoreKey {
    open spec fn obeys_from_spec() -> bool {
        true
    }

    open spec fn from_spec(hash: &'a ContentHash) -> StoreKey {
        StoreKey::Content(*hash, None)
    }
}

} // verus!
