use walker_graph::ids::{ChangesetId, HgChangesetId, KeyParseError};
use walker_graph::phases::{phase_from_reachability, phase_query, Phase, PhaseQuery};
use walker_graph::store::{ContentHash, HgId, Key, Sha256, StoreKey};

fn hex(bytes: &[u8]) -> String {
    bytes.iter().map(|b| format!("{:02x}", b)).collect()
}

#[test]
fn content_hash_sha256() {
    let h = ContentHash::sha256(b"abc");
    assert_eq!(
        hex(&h.unwrap_sha256().0),
        "ba7816bf8f01cfea414140de5dae2223b00361a396177a9cb410ff61f20015ad"
    );
    let empty = ContentHash::sha256(b"");
    assert_eq!(
        hex(&empty.unwrap_sha256().0),
        "e3b0c44298fc1c149afbf4c8996fb92427ae41e4649b934ca495991b7852b855"
    );
}

#[test]
fn unwrap_gives_the_hash() {
    let s = Sha256([7; 32]);
    assert_eq!(ContentHash::Sha256(s).unwrap_sha256(), s);
}

#[test]
fn store_keys() {
    let key = Key::new("a/b".to_string(), HgId([1; 20]));
    assert_eq!(StoreKey::hgid(key.clone()), StoreKey::HgId(key.clone()));
    assert_eq!(StoreKey::from(key.clone()), StoreKey::HgId(key));
    let hash = ContentHash::Sha256(Sha256([2; 32]));
    assert_eq!(StoreKey::content(hash), StoreKey::Content(hash, None));
    assert_eq!(StoreKey::from(hash), StoreKey::Content(hash, None));
    assert_eq!(StoreKey::from(&hash), StoreKey::Content(hash, None));
}

#[test]
fn id_parsing() {
    let id = HgChangesetId::parse("0123456789ABCDEF0123456789abcdef01234567").unwrap();
    assert_eq!(id.0[0], 0x01);
    assert_eq!(id.0[7], 0xef);
    assert_eq!(id.blobstore_key(), "hgchangeset.sha1.0123456789abcdef0123456789abcdef01234567");
    assert_eq!(ChangesetId::parse(""), Err(KeyParseError::InvalidHash));
    assert_eq!(ChangesetId::parse(&"g".repeat(64)), Err(KeyParseError::InvalidHash));
}

#[test]
fn phases() {
    let a = ChangesetId([1; 32]);
    let b = ChangesetId([2; 32]);
    let c = ChangesetId([3; 32]);
    assert_eq!(phase_query(&a, &vec![b, a]), PhaseQuery::Known(Phase::Public));
    assert_eq!(phase_query(&c, &vec![a, b]), PhaseQuery::Reachability(vec![a, b]));
    assert_eq!(phase_query(&c, &vec![]), PhaseQuery::Reachability(vec![]));
    assert_eq!(phase_from_reachability(&vec![false, true]), Phase::Public);
    assert_eq!(phase_from_reachability(&vec![false, false]), Phase::Draft);
    assert_eq!(phase_from_reachability(&vec![]), Phase::Draft);
}
