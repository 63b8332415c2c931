use walker_graph::path::{MPath, WrappedPath};

const ABC_SHA256: &str = "ba7816bf8f01cfea414140de5dae2223b00361a396177a9cb410ff61f20015ad";

fn hex(bytes: &[u8]) -> String {
    bytes.iter().map(|b| format!("{:02x}", b)).collect()
}

#[test]
fn equal_paths_make_equal_handles() {
    let first = MPath::new(b"some/dir/file".to_vec());
    let second = MPath::new(b"some/dir/file".to_vec());
    assert_eq!(first, second);
    let first_handle = WrappedPath::from(Some(first));
    let second_handle = WrappedPath::from(Some(second));
    assert_eq!(first_handle, second_handle);
    assert_eq!(first_handle.get_path_hash(), second_handle.get_path_hash());
    assert_eq!(first_handle.sampling_fingerprint(), second_handle.sampling_fingerprint());
}

#[test]
fn different_paths_differ() {
    let first_handle = WrappedPath::from(Some(MPath::new(b"a".to_vec())));
    let second_handle = WrappedPath::from(Some(MPath::new(b"b".to_vec())));
    assert_ne!(first_handle, second_handle);
    assert_ne!(first_handle, WrappedPath::Root);
}

#[test]
fn root_has_no_hash() {
    let w = WrappedPath::from(None);
    assert_eq!(w, WrappedPath::Root);
    assert_eq!(w.get_path_hash(), None);
    assert_eq!(w.sampling_fingerprint(), None);
    assert_eq!(w.as_ref(), None);
}

#[test]
fn path_hash_is_sha256_of_the_path() {
    let w = WrappedPath::from(Some(MPath::new(b"abc".to_vec())));
    let h = w.get_path_hash().unwrap();
    assert_eq!(hex(&h.0), ABC_SHA256);
    assert_eq!(w.sampling_fingerprint(), Some(0xeacf018fbf1678ba));
    assert_eq!(w.as_ref().unwrap().path, b"abc".to_vec());
}

#[test]
fn memoized_hash_is_stable() {
    let w = WrappedPath::from(Some(MPath::new(b"x/y".to_vec())));
    let first = *w.get_path_hash().unwrap();
    let second = *w.get_path_hash().unwrap();
    assert_eq!(first, second);
    let copy = w.clone();
    assert_eq!(copy.get_path_hash(), Some(&first));
    assert!(std::ptr::eq(w.get_path_hash().unwrap(), w.get_path_hash().unwrap()));
}

#[test]
fn equal_paths_share_one_memo() {
    let first_handle = WrappedPath::from(Some(MPath::new(b"shared/path".to_vec())));
    let second_handle = WrappedPath::from(Some(MPath::new(b"shared/path".to_vec())));
    assert!(std::ptr::eq(first_handle.get_path_hash().unwrap(), second_handle.get_path_hash().unwrap()));
}

#[test]
fn path_text() {
    assert_eq!(WrappedPath::Root.to_string(), "");
    let w = WrappedPath::from(Some(MPath::new(b"dir/file.txt".to_vec())));
    assert_eq!(w.to_string(), "dir/file.txt");
    let odd = WrappedPath::from(Some(MPath::new(vec![b'a', 0xff])));
    assert_eq!(odd.to_string(), "a\u{fffd}");
}
