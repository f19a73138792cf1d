use slidevoice::cache::CacheKey;
use slidevoice::cache::SynthesisConfig;
use slidevoice::cache::bytes_equal;
use slidevoice::cache::is_cached;
use slidevoice::cache::serialize_cache_key;
use slidevoice::codec::text_bytes;
use slidevoice::codec::u64_le;

fn key(text: &str, config: &[u8]) -> CacheKey {
    CacheKey {
        text: text.to_string(),
        config: SynthesisConfig { canonical: config.to_vec() },
    }
}

#[test]
fn u64_le_exact() {
    assert_eq!(u64_le(0), vec![0, 0, 0, 0, 0, 0, 0, 0]);
    assert_eq!(u64_le(1), vec![1, 0, 0, 0, 0, 0, 0, 0]);
    assert_eq!(
        u64_le(0x0102030405060708),
        vec![8, 7, 6, 5, 4, 3, 2, 1]
    );
    assert_eq!(u64_le(u64::MAX), vec![0xff; 8]);
}

#[test]
fn text_bytes_exact() {
    assert_eq!(text_bytes(""), Vec::<u8>::new());
    // 'A' is scalar 65; each character takes four little-endian bytes.
    assert_eq!(text_bytes("A"), vec![65, 0, 0, 0]);
    assert_eq!(text_bytes("AB"), vec![65, 0, 0, 0, 66, 0, 0, 0]);
    // a non-ASCII scalar: 'é' is U+00E9
    assert_eq!(text_bytes("é"), vec![0xe9, 0, 0, 0]);
}

#[test]
fn serialized_record_exact() {
    let k = key("A", &[7]);
    let mut expected = vec![1, 0, 0, 0, 0, 0, 0, 0]; // one character
    expected.extend_from_slice(&[65, 0, 0, 0]); // 'A'
    expected.extend_from_slice(&[1, 0, 0, 0, 0, 0, 0, 0]); // one config byte
    expected.push(7);
    assert_eq!(serialize_cache_key(&k), expected);
}

#[test]
fn serialization_is_deterministic() {
    let a = serialize_cache_key(&key("hello world", &[1, 2, 3]));
    let b = serialize_cache_key(&key("hello world", &[1, 2, 3]));
    assert_eq!(a, b);
}

#[test]
fn serialization_differs_on_config() {
    let a = serialize_cache_key(&key("hello world", &[1, 2, 3]));
    let b = serialize_cache_key(&key("hello world", &[1, 2, 4]));
    assert_ne!(a, b);
}

#[test]
fn serialization_differs_on_text() {
    let a = serialize_cache_key(&key("hello world", &[1, 2, 3]));
    let b = serialize_cache_key(&key("hello world!", &[1, 2, 3]));
    assert_ne!(a, b);
}

#[test]
fn serialization_differs_on_swapped_fields() {
    // text "A" with config [66,0,0,0] versus text "AB" with empty-ish config:
    // framing keeps them apart even when the raw payloads could be confused.
    let a = serialize_cache_key(&key("A", &[66, 0, 0, 0]));
    let b = serialize_cache_key(&key("AB", &[]));
    assert_ne!(a, b);
}

#[test]
fn bytes_equal_basics() {
    assert!(bytes_equal(&vec![], &vec![]));
    assert!(bytes_equal(&vec![1, 2], &vec![1, 2]));
    assert!(!bytes_equal(&vec![1, 2], &vec![1, 3]));
    assert!(!bytes_equal(&vec![1, 2], &vec![1, 2, 3]));
}

#[test]
fn is_cached_requires_artifact_and_matching_record() {
    let k = key("note", &[9]);
    let fresh = serialize_cache_key(&k);

    // valid: artifact present, record identical
    assert!(is_cached(true, &Some(fresh.clone()), &k));
    // artifact missing: never valid, even with a matching record
    assert!(!is_cached(false, &Some(fresh.clone()), &k));
    // record missing: never valid, even with an artifact present
    assert!(!is_cached(true, &None, &k));
    // stale record: never valid, even with an artifact present
    let stale = serialize_cache_key(&key("old note", &[9]));
    assert!(!is_cached(true, &Some(stale), &k));
    // truncated (partially written) record: never valid
    let mut partial = fresh.clone();
    partial.pop();
    assert!(!is_cached(true, &Some(partial), &k));
}
