use vstd::prelude::*;

use crate::ids::{fingerprint, fingerprint_of, sha256_digest, sha256_of};
use vstd::std_specs::cmp::PartialEqSpec;
use vstd::utf8::{decode_utf8, valid_utf8};

verus! {

/// A path in the repository, held as the bytes of its slash-separated form.
#[derive(Clone, Debug, PartialEq, Eq, Hash)]
pub struct MPath {
    pub path: Vec<u8>,
}

/// The hash of a path: the SHA-256 digest of the path's bytes.
#[derive(Clone, Copy, Debug, PartialEq, Eq, Hash)]
pub struct MPathHash(pub [u8; 32]);

/// The hash that a path with the bytes `p` has.
pub open spec fn path_hash_of(p: Seq<u8>) -> Seq<u8> {
    sha256_of(p)
}

impl MPath {
    pub fn new(path: Vec<u8>) -> (r: MPath)
        ensures
            r.path@ == path@,
    {
        MPath { path }
    }

    /// Computes the hash of the path's bytes.
    pub fn get_path_hash(&self) -> (r: MPathHash)
        ensures
            r.0@ == path_hash_of(self.path@),
    {
        MPathHash(sha256_digest(self.path.as_slice()))
    }
}

impl MPathHash {
    pub fn sampling_fingerprint(&self) -> (r: u64)
        ensures
            r == fingerprint_of(self.0@),
    {
        fingerprint(self.0.as_slice())
    }
}

/// Whether two byte strings are equal.
pub fn same_bytes(a: &[u8], b: &[u8]) -> (r: bool)
    ensures
        r == (a@ == b@),
{
    if a.len() != b.len() {
        return false;
    }
    let mut i: usize = 0;
    while i < a.len()
        invariant
            a@.len() == b@.len(),
            i <= a@.len(),
            a@.subrange(0, i as int) == b@.subrange(0, i as int),
        decreases a@.len() - i,
    {
        if a[i] != b[i] {
            assert(a@[i as int] != b@[i as int]);
            return false;
        }
        assert(a@.subrange(0, i + 1) =~= b@.subrange(0, i + 1));
        i = i + 1;
    }
    assert(a@ =~= a@.subrange(0, a@.len() as int));
    assert(b@ =~= b@.subrange(0, b@.len() as int));
    true
}

/// A path together with its hash, computed once when the memo is made.
#[derive(Debug, Hash)]
pub struct MPathHashMemo {
    mpath: MPath,
    memoized_hash: MPathHash,
}

impl MPathHashMemo {
    /// The bytes of the path.
    pub closed spec fn path(&self) -> Seq<u8> {
        self.mpath.path@
    }

    #[verifier::type_invariant]
    spec fn hash_matches(&self) -> bool {
        self.memoized_hash.0@ == path_hash_of(self.mpath.path@)
    }

    fn new(mpath: MPath) -> (r: MPathHashMemo)
        ensures
            r.path() == mpath.path@,
    {
        let memoized_hash = mpath.get_path_hash();
        MPathHashMemo { mpath, memoized_hash }
    }

    /// The memoized hash; reading it computes nothing.
    pub fn get_path_hash(&self) -> (r: &MPathHash)
        ensures
            r.0@ == path_hash_of(self.path()),
    {
        proof {
            use_type_invariant(self);
        }
        &self.memoized_hash
    }

    pub fn mpath(&self) -> (r: &MPath)
        ensures
            r.path@ == self.path(),
    {
        &self.mpath
    }
}

impl PartialEq for MPathHashMemo {
    fn eq(&self, other: &Self) -> (r: bool)
        ensures
            r == (self.path() == other.path()),
    {
        same_bytes(self.mpath.path.as_slice(), other.mpath.path.as_slice())
    }
}

impl vstd::std_specs::cmp::PartialEqSpecImpl for MPathHashMemo {
    open spec fn obeys_eq_spec() -> bool {
        true
    }

    open spec fn eq_spec(&self, other: &MPathHashMemo) -> bool {
        self.path() == other.path()
    }
}

impl Eq for MPathHashMemo {

}

#[verifier::external_type_specification]
#[verifier::external_body]
#[verifier::reject_recursive_types(T)]
pub struct ExArcIntern<T: ?Sized + Eq + std::hash::Hash + Send + Sync + 'static>(
    internment::ArcIntern<T>,
);

/// The bytes of the path in the memo that an interned handle points at.
pub uninterp spec fn interned_path(a: internment::ArcIntern<MPathHashMemo>) -> Seq<u8>;

/// Relies on internment::ArcIntern::new: the handle points at `memo`, or at a memo
/// interned before that is equal to it, and memos are equal when their paths are.
#[verifier::external_body]
fn intern(memo: MPathHashMemo) -> (r: internment::ArcIntern<MPathHashMemo>)
    ensures
        interned_path(r) == memo.path(),
{
    internment::ArcIntern::new(memo)
}

/// Relies on ArcIntern's Deref: the interned memo the handle points at.
#[verifier::external_body]
fn interned(a: &internment::ArcIntern<MPathHashMemo>) -> (r: &MPathHashMemo)
    ensures
        r.path() == interned_path(*a),
{
    &**a
}

/// Relies on ArcIntern's Clone: a second handle to the same interned memo.
#[verifier::external_body]
fn share(a: &internment::ArcIntern<MPathHashMemo>) -> (r: internment::ArcIntern<MPathHashMemo>)
    ensures
        interned_path(r) == interned_path(*a),
{
    a.clone()
}

/// A handle to a memoized path, interned so that each distinct path is held once.
/// Beside the pointer it keeps the path's sampling fingerprint, so that sampling a
/// path never follows the pointer.
#[derive(Debug, Hash)]
pub struct PathHandle {
    memo: internment::ArcIntern<MPathHashMemo>,
    fingerprint: u64,
}

impl PathHandle {
    /// The bytes of the path.
    pub closed spec fn path(&self) -> Seq<u8> {
        interned_path(self.memo)
    }

    #[verifier::type_invariant]
    spec fn fingerprint_matches(&self) -> bool {
        self.fingerprint == fingerprint_of(path_hash_of(interned_path(self.memo)))
    }

    fn new(mpath: MPath) -> (r: PathHandle)
        ensures
            r.path() == mpath.path@,
    {
        let memo = MPathHashMemo::new(mpath);
        let fingerprint = memo.get_path_hash().sampling_fingerprint();
        PathHandle { memo: intern(memo), fingerprint }
    }

    pub fn memo(&self) -> (r: &MPathHashMemo)
        ensures
            r.path() == self.path(),
    {
        interned(&self.memo)
    }

    pub fn sampling_fingerprint(&self) -> (r: u64)
        ensures
            r == fingerprint_of(path_hash_of(self.path())),
    {
        proof {
            use_type_invariant(self);
        }
        self.fingerprint
    }
}

impl Clone for PathHandle {
    /// Another handle to the same interned path.
    fn clone(&self) -> (r: PathHandle)
        ensures
            r.path() == self.path(),
    {
        proof {
            use_type_invariant(self);
        }
        PathHandle { memo: share(&self.memo), fingerprint: self.fingerprint }
    }
}

/// The path of a node: the root, which has none, or a shared memoized path.
#[derive(Clone, Debug, Hash)]
pub enum WrappedPath {
    Root,
    NonRoot(PathHandle),
}

impl View for WrappedPath {
    type V = Option<Seq<u8>>;

    open spec fn view(&self) -> Option<Seq<u8>> {
        match self {
            WrappedPath::Root => None,
            WrappedPath::NonRoot(h) => Some(h.path()),
        }
    }
}

impl WrappedPath {
    /// Wraps an optional path: no path is the root.
    pub fn from(mpath: Option<MPath>) -> (r: WrappedPath)
        ensures
            r@ == (match mpath {
                Some(p) => Some(p.path@),
                None => None::<Seq<u8>>,
            }),
    {
        match mpath {
            Some(p) => WrappedPath::NonRoot(PathHandle::new(p)),
            None => WrappedPath::Root,
        }
    }

    pub fn as_ref(&self) -> (r: Option<&MPath>)
        ensures
            r.is_some() == self@.is_some(),
            r.is_some() ==> r.unwrap().path@ == self@.unwrap(),
    {
        match self {
            WrappedPath::Root => None,
            WrappedPath::NonRoot(h) => Some(h.memo().mpath()),
        }
    }

    pub fn get_path_hash(&self) -> (r: Option<&MPathHash>)
        ensures
            r.is_some() == self@.is_some(),
            r.is_some() ==> r.unwrap().0@ == path_hash_of(self@.unwrap()),
    {
        match self {
            WrappedPath::Root => None,
            WrappedPath::NonRoot(h) => Some(h.memo().get_path_hash()),
        }
    }

    pub fn sampling_fingerprint(&self) -> (r: Option<u64>)
        ensures
            r == (match self@ {
                Some(p) => Some(fingerprint_of(path_hash_of(p))),
                None => None::<u64>,
            }),
    {
        match self {
            WrappedPath::Root => None,
            WrappedPath::NonRoot(h) => Some(h.sampling_fingerprint()),
        }
    }
}

/// The bytes are all ASCII.
pub open spec fn is_ascii_bytes(b: Seq<u8>) -> bool {
    forall|i: int| 0 <= i < b.len() ==> #[trigger] b[i] < 128
}

/// Names the text that lossy UTF-8 decoding gives for some bytes.
pub uninterp spec fn lossy_text_of(b: Seq<u8>) -> Seq<char>;

/// Relies on String::from_utf8_lossy: the text depends on the bytes alone, valid
/// UTF-8 (and so ASCII) is decoded as it is, and each invalid sequence becomes
/// U+FFFD.
#[verifier::external_body]
fn text_of_bytes(b: &[u8]) -> (r: String)
    ensures
        r@ == lossy_text_of(b@),
        valid_utf8(b@) ==> r@ == decode_utf8(b@),
        is_ascii_bytes(b@) ==> r@.len() == b@.len() && forall|i: int|
            0 <= i < b@.len() ==> #[trigger] r@[i] as u32 == b@[i] as u32,
{
    String::from_utf8_lossy(b).into_owned()
}

impl WrappedPath {
    /// The path as text: its bytes decoded as UTF-8, with each invalid sequence
    /// replaced; empty for the root.
    pub fn to_string(&self) -> (r: String)
        ensures
            self@.is_none() ==> r@.len() == 0,
            self@.is_some() ==> r@ == lossy_text_of(self@.unwrap()),
            self@.is_some() && valid_utf8(self@.unwrap()) ==> r@ == decode_utf8(self@.unwrap()),
            self@.is_some() && is_ascii_bytes(self@.unwrap()) ==> r@.len() == self@.unwrap().len()
                && forall|i: int|
                0 <= i < r@.len() ==> #[trigger] r@[i] as u32 == self@.unwrap()[i] as u32,
    {
        match self {
            WrappedPath::Root => String::new(),
            WrappedPath::NonRoot(h) => text_of_bytes(h.memo().mpath().path.as_slice()),
        }
    }
}

impl PartialEq for WrappedPath {
    fn eq(&self, other: &Self) -> (r: bool)
        ensures
            r == (self@ == other@),
    {
        match (self, other) {
            (WrappedPath::Root, WrappedPath::Root) => true,
            (WrappedPath::NonRoot(a), WrappedPath::NonRoot(b)) => {
                same_bytes(a.memo().mpath().path.as_slice(), b.memo().mpath().path.as_slice())
            },
            _ => false,
        }
    }
}

impl vstd::std_specs::cmp::PartialEqSpecImpl for WrappedPath {
    open spec fn obeys_eq_spec() -> bool {
        true
    }

    open spec fn eq_spec(&self, other: &WrappedPath) -> bool {
        self@ == other@
    }
}

impl Eq for WrappedPath {

}

/// Handles made from equal paths are equal and carry equal hashes and fingerprints;
/// a handle made from no path has neither.
pub proof fn lemma_equal_paths(first: Option<MPath>, second: Option<MPath>, first_handle: WrappedPath, second_handle: WrappedPath)
    requires
        first_handle@ == (match first {
            Some(p) => Some(p.path@),
            None => None::<Seq<u8>>,
        }),
        second_handle@ == (match second {
            Some(p) => Some(p.path@),
            None => None::<Seq<u8>>,
        }),
        first.is_some() == second.is_some(),
        first.is_some() ==> first.unwrap().path@ == second.unwrap().path@,
    ensures
        first_handle.eq_spec(&second_handle),
        first_handle@.is_some() ==> path_hash_of(first_handle@.unwrap()) == path_hash_of(second_handle@.unwrap()),
        first.is_none() ==> first_handle@.is_none(),
{
}

/// Every read of a path's memoized hash gives the same hash: the one of its path.
pub proof fn lemma_memoized_hash_stable(w: WrappedPath, h1: MPathHash, h2: MPathHash)
    requires
        w@.is_some(),
        h1.0@ == path_hash_of(w@.unwrap()),
        h2.0@ == path_hash_of(w@.unwrap()),
    ensures
        h1 == h2,
{
    assert(h1.0 == h2.0);
}

} // verus!
