use vstd::prelude::*;

use crate::hex::{decode_hex, hex_of, is_hex_of_len, parse_hex, push_hex};
use vstd::utf8::encode_utf8;

verus! {

/// Why a string could not be read as a key.
#[derive(Clone, Copy, Debug, PartialEq, Eq, Structural)]
pub enum KeyParseError {
    /// Not the expected number of hexadecimal digits.
    InvalidHash,
    /// A bookmark name with a character outside ASCII.
    InvalidBookmark,
    /// An alias without one of the known hash kinds in front.
    InvalidAlias,
    /// Not a number in range.
    InvalidNumber,
}

/// The little-endian value of a byte sequence.
pub open spec fn le_value(s: Seq<u8>) -> nat
    decreases s.len(),
{
    if s.len() == 0 {
        0
    } else {
        s[0] as nat + 256 * le_value(s.drop_first())
    }
}

/// The first eight bytes of a hash read as a little-endian integer.
pub open spec fn fingerprint_of(s: Seq<u8>) -> u64 {
    le_value(s.subrange(0, 8)) as u64
}

pub open spec fn pow256(k: nat) -> nat
    decreases k,
{
    if k == 0 {
        1
    } else {
        256 * pow256((k - 1) as nat)
    }
}

proof fn lemma_le_value_bound(s: Seq<u8>)
    ensures
        le_value(s) < pow256(s.len()),
    decreases s.len(),
{
    if s.len() > 0 {
        lemma_le_value_bound(s.drop_first());
        let r = le_value(s.drop_first());
        let p = pow256((s.len() - 1) as nat);
        assert(s[0] as nat + 256 * r < 256 * p) by (nonlinear_arith)
            requires
                r < p,
                s[0] < 256,
        ;
    }
}

/// The sampling fingerprint of a hash: its first eight bytes, little-endian.
pub fn fingerprint(bytes: &[u8]) -> (r: u64)
    requires
        bytes@.len() >= 8,
    ensures
        r == fingerprint_of(bytes@),
{
    let mut acc: u64 = 0;
    let mut i: usize = 8;
    while i > 0
        invariant
            i <= 8,
            bytes@.len() >= 8,
            acc as nat == le_value(bytes@.subrange(i as int, 8)),
        decreases i,
    {
        let ghost tail = bytes@.subrange(i as int, 8);
        let ghost ext = bytes@.subrange(i - 1, 8);
        proof {
            assert(ext.drop_first() =~= tail);
            lemma_le_value_bound(ext);
            reveal_with_fuel(pow256, 9);
            assert(pow256(8) == 18446744073709551616nat);
            assert(pow256(ext.len()) <= pow256(8)) by {
                lemma_pow256_mono(ext.len(), 8);
            }
        }
        acc = bytes[i - 1] as u64 + 256 * acc;
        i = i - 1;
    }
    acc
}

proof fn lemma_pow256_mono(a: nat, b: nat)
    requires
        a <= b,
    ensures
        pow256(a) <= pow256(b),
    decreases b,
{
    if a < b {
        lemma_pow256_mono(a, (b - 1) as nat);
    }
}

/// `prefix` followed by the hexadecimal form of `bytes`.
pub fn key_with_prefix(prefix: &str, bytes: &[u8]) -> (r: String)
    ensures
        r@ == prefix@ + hex_of(bytes@),
{
    let mut out = prefix.to_string();
    push_hex(&mut out, bytes);
    out
}

fn to_array20(v: &Vec<u8>) -> (r: [u8; 20])
    requires
        v@.len() == 20,
    ensures
        r@ == v@,
{
    let mut a = [0u8; 20];
    let mut i: usize = 0;
    while i < 20
        invariant
            i <= 20,
            v@.len() == 20,
            forall|j: int| 0 <= j < i ==> a@[j] == v@[j],
        decreases 20 - i,
    {
        a[i] = v[i];
        i = i + 1;
    }
    assert(a@ =~= v@);
    a
}

fn to_array32(v: &Vec<u8>) -> (r: [u8; 32])
    requires
        v@.len() == 32,
    ensures
        r@ == v@,
{
    let mut a = [0u8; 32];
    let mut i: usize = 0;
    while i < 32
        invariant
            i <= 32,
            v@.len() == 32,
            forall|j: int| 0 <= j < i ==> a@[j] == v@[j],
        decreases 32 - i,
    {
        a[i] = v[i];
        i = i + 1;
    }
    assert(a@ =~= v@);
    a
}

/// A bonsai changeset, named by its Blake2 hash.
#[derive(Clone, Copy, Debug, PartialEq, Eq, Hash)]
pub struct ChangesetId(pub [u8; 32]);

impl ChangesetId {
    /// The key under which the object is stored.
    pub open spec fn key_spec(&self) -> Seq<char> {
        "changeset.blake2."@ + hex_of(self.0@)
    }

    pub fn blobstore_key(&self) -> (r: String)
        ensures
            r@ == self.key_spec(),
    {
        key_with_prefix("changeset.blake2.", self.0.as_slice())
    }

    pub fn sampling_fingerprint(&self) -> (r: u64)
        ensures
            r == fingerprint_of(self.0@),
    {
        fingerprint(self.0.as_slice())
    }

    /// Reads the id from its 64 hexadecimal digits.
    pub fn parse(s: &str) -> (r: Result<ChangesetId, KeyParseError>)
        ensures
            r.is_ok() <==> is_hex_of_len(s@, 32),
            r.is_ok() ==> r.unwrap().0@ == decode_hex(s@),
            r.is_err() ==> r == Err::<ChangesetId, KeyParseError>(KeyParseError::InvalidHash),
    {
        match parse_hex(s, 32) {
            Some(v) => Ok(ChangesetId(to_array32(&v))),
            None => Err(KeyParseError::InvalidHash),
        }
    }
}

/// A Mercurial changeset, named by its SHA-1 node hash.
#[derive(Clone, Copy, Debug, PartialEq, Eq, Hash)]
pub struct HgChangesetId(pub [u8; 20]);

impl HgChangesetId {
    /// The key under which the object is stored.
    pub open spec fn key_spec(&self) -> Seq<char> {
        "hgchangeset.sha1."@ + hex_of(self.0@)
    }

    pub fn blobstore_key(&self) -> (r: String)
        ensures
            r@ == self.key_spec(),
    {
        key_with_prefix("hgchangeset.sha1.", self.0.as_slice())
    }

    pub fn sampling_fingerprint(&self) -> (r: u64)
        ensures
            r == fingerprint_of(self.0@),
    {
        fingerprint(self.0.as_slice())
    }

    /// Reads the id from its 40 hexadecimal digits.
    pub fn parse(s: &str) -> (r: Result<HgChangesetId, KeyParseError>)
        ensures
            r.is_ok() <==> is_hex_of_len(s@, 20),
            r.is_ok() ==> r.unwrap().0@ == decode_hex(s@),
            r.is_err() ==> r == Err::<HgChangesetId, KeyParseError>(KeyParseError::InvalidHash),
    {
        match parse_hex(s, 20) {
            Some(v) => Ok(HgChangesetId(to_array20(&v))),
            None => Err(KeyParseError::InvalidHash),
        }
    }
}

/// A Mercurial manifest, named by its SHA-1 node hash.
#[derive(Clone, Copy, Debug, PartialEq, Eq, Hash)]
pub struct HgManifestId(pub [u8; 20]);

impl HgManifestId {
    /// The key under which the object is stored.
    pub open spec fn key_spec(&self) -> Seq<char> {
        "hgmanifest.sha1."@ + hex_of(self.0@)
    }

    pub fn blobstore_key(&self) -> (r: String)
        ensures
            r@ == self.key_spec(),
    {
        key_with_prefix("hgmanifest.sha1.", self.0.as_slice())
    }

    pub fn sampling_fingerprint(&self) -> (r: u64)
        ensures
            r == fingerprint_of(self.0@),
    {
        fingerprint(self.0.as_slice())
    }

    /// Reads the id from its 40 hexadecimal digits.
    pub fn parse(s: &str) -> (r: Result<HgManifestId, KeyParseError>)
        ensures
            r.is_ok() <==> is_hex_of_len(s@, 20),
            r.is_ok() ==> r.unwrap().0@ == decode_hex(s@),
            r.is_err() ==> r == Err::<HgManifestId, KeyParseError>(KeyParseError::InvalidHash),
    {
        match parse_hex(s, 20) {
            Some(v) => Ok(HgManifestId(to_array20(&v))),
            None => Err(KeyParseError::InvalidHash),
        }
    }
}

/// A Mercurial file node, named by its SHA-1 node hash.
#[derive(Clone, Copy, Debug, PartialEq, Eq, Hash)]
pub struct HgFileNodeId(pub [u8; 20]);

impl HgFileNodeId {
    /// The key under which the object is stored.
    pub open spec fn key_spec(&self) -> Seq<char> {
        "hgfilenode.sha1."@ + hex_of(self.0@)
    }

    pub fn blobstore_key(&self) -> (r: String)
        ensures
            r@ == self.key_spec(),
    {
        key_with_prefix("hgfilenode.sha1.", self.0.as_slice())
    }

    pub fn sampling_fingerprint(&self) -> (r: u64)
        ensures
            r == fingerprint_of(self.0@),
    {
        fingerprint(self.0.as_slice())
    }

    /// Reads the id from its 40 hexadecimal digits.
    pub fn parse(s: &str) -> (r: Result<HgFileNodeId, KeyParseError>)
        ensures
            r.is_ok() <==> is_hex_of_len(s@, 20),
            r.is_ok() ==> r.unwrap().0@ == decode_hex(s@),
            r.is_err() ==> r == Err::<HgFileNodeId, KeyParseError>(KeyParseError::InvalidHash),
    {
        match parse_hex(s, 20) {
            Some(v) => Ok(HgFileNodeId(to_array20(&v))),
            None => Err(KeyParseError::InvalidHash),
        }
    }
}

/// File content, named by its Blake2 hash.
#[derive(Clone, Copy, Debug, PartialEq, Eq, Hash)]
pub struct ContentId(pub [u8; 32]);

impl ContentId {
    /// The key under which the object is stored.
    pub open spec fn key_spec(&self) -> Seq<char> {
        "content.blake2."@ + hex_of(self.0@)
    }

    pub fn blobstore_key(&self) -> (r: String)
        ensures
            r@ == self.key_spec(),
    {
        key_with_prefix("content.blake2.", self.0.as_slice())
    }

    pub fn sampling_fingerprint(&self) -> (r: u64)
        ensures
            r == fingerprint_of(self.0@),
    {
        fingerprint(self.0.as_slice())
    }

    /// Reads the id from its 64 hexadecimal digits.
    pub fn parse(s: &str) -> (r: Result<ContentId, KeyParseError>)
        ensures
            r.is_ok() <==> is_hex_of_len(s@, 32),
            r.is_ok() ==> r.unwrap().0@ == decode_hex(s@),
            r.is_err() ==> r == Err::<ContentId, KeyParseError>(KeyParseError::InvalidHash),
    {
        match parse_hex(s, 32) {
            Some(v) => Ok(ContentId(to_array32(&v))),
            None => Err(KeyParseError::InvalidHash),
        }
    }
}

/// An fsnode, named by its Blake2 hash.
#[derive(Clone, Copy, Debug, PartialEq, Eq, Hash)]
pub struct FsnodeId(pub [u8; 32]);

impl FsnodeId {
    /// The key under which the object is stored.
    pub open spec fn key_spec(&self) -> Seq<char> {
        "fsnode.blake2."@ + hex_of(self.0@)
    }

    pub fn blobstore_key(&self) -> (r: String)
        ensures
            r@ == self.key_spec(),
    {
        key_with_prefix("fsnode.blake2.", self.0.as_slice())
    }

    pub fn sampling_fingerprint(&self) -> (r: u64)
        ensures
            r == fingerprint_of(self.0@),
    {
        fingerprint(self.0.as_slice())
    }

    /// Reads the id from its 64 hexadecimal digits.
    pub fn parse(s: &str) -> (r: Result<FsnodeId, KeyParseError>)
        ensures
            r.is_ok() <==> is_hex_of_len(s@, 32),
            r.is_ok() ==> r.unwrap().0@ == decode_hex(s@),
            r.is_err() ==> r == Err::<FsnodeId, KeyParseError>(KeyParseError::InvalidHash),
    {
        match parse_hex(s, 32) {
            Some(v) => Ok(FsnodeId(to_array32(&v))),
            None => Err(KeyParseError::InvalidHash),
        }
    }
}
/// The name of a bookmark.
#[derive(Clone, Debug, PartialEq, Eq, Hash)]
pub struct BookmarkName {
    pub bookmark: String,
}

impl BookmarkName {
    /// Makes a bookmark name; only ASCII names are accepted.
    pub fn new(s: &str) -> (r: Result<BookmarkName, KeyParseError>)
        ensures
            r.is_ok() <==> vstd::string::is_ascii(s),
            r.is_ok() ==> r.unwrap().bookmark@ == s@,
            r.is_err() ==> r == Err::<BookmarkName, KeyParseError>(KeyParseError::InvalidBookmark),
    {
        if s.is_ascii() {
            Ok(BookmarkName { bookmark: s.to_string() })
        } else {
            Err(KeyParseError::InvalidBookmark)
        }
    }

    pub fn to_string(&self) -> (r: String)
        ensures
            r@ == self.bookmark@,
    {
        self.bookmark.clone()
    }

    /// The sampling fingerprint of a bookmark: that of the SHA-256 hash of its name's bytes.
    pub fn sampling_fingerprint(&self) -> (r: u64)
        ensures
            r == fingerprint_of(sha256_of(encode_utf8(self.bookmark@))),
    {
        let h = sha256_digest(self.bookmark.as_str().as_bytes());
        fingerprint(h.as_slice())
    }
}

/// A secondary hash under which file content can also be found.
#[derive(Clone, Copy, Debug, PartialEq, Eq, Hash)]
pub enum Alias {
    Sha1([u8; 20]),
    Sha256([u8; 32]),
    GitSha1([u8; 20]),
}

/// The text that names each kind of alias, in keys and when parsing.
pub open spec fn alias_kind_prefix(a: Alias) -> Seq<char> {
    match a {
        Alias::Sha1(_) => "sha1."@,
        Alias::Sha256(_) => "sha256."@,
        Alias::GitSha1(_) => "gitsha1."@,
    }
}

pub open spec fn alias_bytes(a: Alias) -> Seq<u8> {
    match a {
        Alias::Sha1(h) => h@,
        Alias::Sha256(h) => h@,
        Alias::GitSha1(h) => h@,
    }
}

/// `s` is `p` followed by `n` bytes in hexadecimal.
pub open spec fn is_prefixed_hex(s: Seq<char>, p: Seq<char>, n: nat) -> bool {
    p.len() <= s.len() && s.subrange(0, p.len() as int) == p && is_hex_of_len(
        s.subrange(p.len() as int, s.len() as int),
        n,
    )
}

/// `s` is the textual form of some alias.
pub open spec fn is_alias_text(s: Seq<char>) -> bool {
    is_prefixed_hex(s, "sha1."@, 20) || is_prefixed_hex(s, "sha256."@, 32) || is_prefixed_hex(
        s,
        "gitsha1."@,
        20,
    )
}

/// `a` is the alias that `s` spells.
pub open spec fn alias_spelled(s: Seq<char>, a: Alias) -> bool {
    let p = alias_kind_prefix(a);
    is_prefixed_hex(s, p, alias_bytes(a).len()) && alias_bytes(a) == decode_hex(
        s.subrange(p.len() as int, s.len() as int),
    )
}

/// Whether `s` begins with `p`.
fn has_prefix(s: &str, p: &str) -> (r: bool)
    ensures
        r == (p@.len() <= s@.len() && s@.subrange(0, p@.len() as int) == p@),
{
    let n = s.unicode_len();
    let m = p.unicode_len();
    if m > n {
        return false;
    }
    let mut i: usize = 0;
    while i < m
        invariant
            m == p@.len(),
            n == s@.len(),
            m <= n,
            i <= m,
            s@.subrange(0, i as int) == p@.subrange(0, i as int),
        decreases m - i,
    {
        if s.get_char(i) != p.get_char(i) {
            assert(s@.subrange(0, m as int)[i as int] != p@[i as int]);
            return false;
        }
        assert(s@.subrange(0, i + 1) =~= p@.subrange(0, i + 1));
        i = i + 1;
    }
    assert(p@.subrange(0, m as int) =~= p@);
    true
}

/// The hash that follows the first `k` characters of `s`, if they are exactly `n` bytes of hexadecimal.
fn hex_after(s: &str, k: usize, n: usize) -> (r: Option<Vec<u8>>)
    requires
        k <= s@.len(),
    ensures
        r.is_some() <==> is_hex_of_len(s@.subrange(k as int, s@.len() as int), n as nat),
        r.is_some() ==> r.unwrap()@ == decode_hex(s@.subrange(k as int, s@.len() as int)),
{
    let len = s.unicode_len();
    let rest = s.substring_char(k, len);
    parse_hex(rest, n)
}

impl Alias {
    pub fn blobstore_key(&self) -> (r: String)
        ensures
            r@ == "alias."@ + alias_kind_prefix(*self) + hex_of(alias_bytes(*self)),
    {
        proof {
            reveal_strlit("alias.sha1.");
            reveal_strlit("alias.sha256.");
            reveal_strlit("alias.gitsha1.");
            reveal_strlit("alias.");
            reveal_strlit("sha1.");
            reveal_strlit("sha256.");
            reveal_strlit("gitsha1.");
        }
        match self {
            Alias::Sha1(h) => {
                let r = key_with_prefix("alias.sha1.", h.as_slice());
                assert("alias.sha1."@ =~= "alias."@ + "sha1."@);
                r
            },
            Alias::Sha256(h) => {
                let r = key_with_prefix("alias.sha256.", h.as_slice());
                assert("alias.sha256."@ =~= "alias."@ + "sha256."@);
                r
            },
            Alias::GitSha1(h) => {
                let r = key_with_prefix("alias.gitsha1.", h.as_slice());
                assert("alias.gitsha1."@ =~= "alias."@ + "gitsha1."@);
                r
            },
        }
    }

    pub fn sampling_fingerprint(&self) -> (r: u64)
        ensures
            r == fingerprint_of(alias_bytes(*self)),
    {
        match self {
            Alias::Sha1(h) => fingerprint(h.as_slice()),
            Alias::Sha256(h) => fingerprint(h.as_slice()),
            Alias::GitSha1(h) => fingerprint(h.as_slice()),
        }
    }

    /// Reads an alias written as its kind, a dot, and its hash in hexadecimal.
    pub fn parse(s: &str) -> (r: Result<Alias, KeyParseError>)
        ensures
            r.is_ok() <==> is_alias_text(s@),
            r.is_ok() ==> alias_spelled(s@, r.unwrap()),
            r.is_err() ==> r == Err::<Alias, KeyParseError>(KeyParseError::InvalidAlias),
    {
        proof {
            reveal_strlit("sha1.");
            reveal_strlit("sha256.");
            reveal_strlit("gitsha1.");
        }
        if has_prefix(s, "sha1.") {
            if let Some(v) = hex_after(s, 5, 20) {
                return Ok(Alias::Sha1(to_array20(&v)));
            }
        }
        if has_prefix(s, "sha256.") {
            if let Some(v) = hex_after(s, 7, 32) {
                return Ok(Alias::Sha256(to_array32(&v)));
            }
        }
        if has_prefix(s, "gitsha1.") {
            if let Some(v) = hex_after(s, 8, 20) {
                return Ok(Alias::GitSha1(to_array20(&v)));
            }
        }
        Err(KeyParseError::InvalidAlias)
    }
}

/// Names the SHA-256 digest of a byte string.
pub uninterp spec fn sha256_of(data: Seq<u8>) -> Seq<u8>;

/// Relies on sha2::Sha256::digest: the 32-byte SHA-256 digest, a function of the input bytes alone.
#[verifier::external_body]
pub(crate) fn sha256_digest(data: &[u8]) -> (r: [u8; 32])
    ensures
        r@ == sha256_of(data@),
{
    <sha2::Sha256 as sha2::Digest>::digest(data).into()
}

} // verus!
