use xorstring::key::{key_from_seconds, KeyProvider};

#[test]
fn key_is_seconds_modulo_255() {
    assert_eq!(key_from_seconds(0), 0);
    assert_eq!(key_from_seconds(254), 254);
    assert_eq!(key_from_seconds(255), 0);
    assert_eq!(key_from_seconds(256), 1);
    assert_eq!(key_from_seconds(1000), 235);
    assert_eq!(key_from_seconds(1_700_000_000), 170);
    assert_eq!(key_from_seconds(u64::MAX), 0);
}

#[test]
fn key_is_never_255() {
    for seconds in 0..2000u64 {
        assert!(key_from_seconds(seconds) < 255);
    }
}

#[test]
fn first_reading_fixes_the_key() {
    let mut provider = KeyProvider::new();
    assert_eq!(provider.get_key_at(1000), 235);
    assert_eq!(provider.get_key_at(2000), 235);
    assert_eq!(provider.get_key_at(0), 235);
    assert_eq!(provider.get_key(), Ok(235));
}

#[test]
fn two_calls_return_the_same_key() {
    let mut provider = KeyProvider::new();
    let first = provider.get_key().expect("clock before the Unix epoch");
    let second = provider.get_key().expect("clock before the Unix epoch");
    assert_eq!(first, second);
    assert!(first < 255);
    assert_eq!(provider.get_key_at(first as u64 + 1), first);
}

#[test]
fn key_follows_the_clock() {
    let before = std::time::SystemTime::now()
        .duration_since(std::time::UNIX_EPOCH)
        .expect("clock before the Unix epoch")
        .as_secs();
    let key = KeyProvider::new().get_key().expect("clock before the Unix epoch");
    let after = std::time::SystemTime::now()
        .duration_since(std::time::UNIX_EPOCH)
        .expect("clock before the Unix epoch")
        .as_secs();
    assert!((before..=after).any(|seconds| key_from_seconds(seconds) == key));
}
