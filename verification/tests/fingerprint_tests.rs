use clipboard_watcher::fingerprint;

#[test]
fn equal_bytes_have_equal_fingerprints() {
    let a = vec![1u8, 2, 3, 4, 5, 6, 7, 8];
    let b = a.clone();
    assert_eq!(fingerprint(&a), fingerprint(&b));
}

#[test]
fn fingerprint_is_the_same_each_time() {
    let bytes = vec![9u8; 4096];
    let first = fingerprint(&bytes);
    for _ in 0..10 {
        assert_eq!(fingerprint(&bytes), first);
    }
}

#[test]
fn one_changed_byte_changes_the_fingerprint() {
    let base = vec![0u8; 64];
    let digest = fingerprint(&base);
    for i in 0..base.len() {
        let mut other = base.clone();
        other[i] = 1;
        assert_ne!(fingerprint(&other), digest);
    }
}

#[test]
fn length_changes_the_fingerprint() {
    assert_ne!(fingerprint(&[]), fingerprint(&[0]));
    assert_ne!(fingerprint(&[0]), fingerprint(&[0, 0]));
    assert_ne!(fingerprint(&[0, 0, 0, 0]), fingerprint(&[0, 0, 0, 0, 0, 0, 0, 0]));
}

#[test]
fn order_changes_the_fingerprint() {
    assert_ne!(fingerprint(&[1, 2, 3, 4]), fingerprint(&[4, 3, 2, 1]));
}
