use webtor::hexfmt::hex_encode;
use webtor::netdoc::MicrodescInfo;
use webtor::relay::Relay;
use webtor::resolve::{
    apply_microdescs, contains_string, digest_map, filter_usable, find_relay_index, join_digests,
    lookup_fingerprint, microdesc_batch_urls, resolve_relays, unique_digests, BATCH_SIZE,
};

#[test]
fn hex_encoding() {
    assert_eq!(hex_encode(&vec![]), "");
    assert_eq!(hex_encode(&vec![0x00]), "00");
    assert_eq!(hex_encode(&vec![0x00, 0xff, 0x1a]), "00ff1a");
    assert_eq!(hex_encode(&vec![0xde, 0xad, 0xbe, 0xef]), "deadbeef");
    // Agrees with the reference encoder on a spread of bytes.
    let bytes: Vec<u8> = (0u8..=255).collect();
    assert_eq!(hex_encode(&bytes), hex::encode(&bytes));
}

fn relay_with_digest(fp: &str, digest: &str) -> Relay {
    let mut r = Relay::new(
        fp.to_string(),
        format!("nick-{}", fp),
        "10.0.0.1".to_string(),
        9001,
        vec!["Fast".to_string()],
        String::new(),
    );
    r.microdescriptor_hash = digest.to_string();
    r
}

fn info(digest: &str, ntor: &str) -> MicrodescInfo {
    MicrodescInfo {
        digest: digest.to_string(),
        ntor_key: ntor.to_string(),
        ed_id: "ed".to_string(),
    }
}

#[test]
fn digest_map_reverses_pairs_and_last_wins() {
    let pairs = vec![
        ("fp1".to_string(), "d1".to_string()),
        ("fp2".to_string(), "d2".to_string()),
        ("fp3".to_string(), "d1".to_string()),
    ];
    let m = digest_map(&pairs);
    assert_eq!(m[0], ("d1".to_string(), "fp1".to_string()));
    assert_eq!(m[1], ("d2".to_string(), "fp2".to_string()));
    // A digest collision keeps only the later mapping.
    assert_eq!(lookup_fingerprint(&m, &"d1".to_string()), Some("fp3".to_string()));
    assert_eq!(lookup_fingerprint(&m, &"d2".to_string()), Some("fp2".to_string()));
    assert_eq!(lookup_fingerprint(&m, &"dx".to_string()), None);
}

#[test]
fn find_first_matching_relay() {
    let relays = vec![
        relay_with_digest("aa", "d1"),
        relay_with_digest("bb", "d2"),
        relay_with_digest("aa", "d3"),
    ];
    assert_eq!(find_relay_index(&relays, &"aa".to_string()), Some(0));
    assert_eq!(find_relay_index(&relays, &"bb".to_string()), Some(1));
    assert_eq!(find_relay_index(&relays, &"cc".to_string()), None);
}

#[test]
fn apply_sets_keys_by_digest() {
    let mut relays = vec![relay_with_digest("aa", "d1"), relay_with_digest("bb", "d2")];
    let pairs = vec![
        ("aa".to_string(), "d1".to_string()),
        ("bb".to_string(), "d2".to_string()),
    ];
    let m = digest_map(&pairs);
    let infos = vec![info("d2", "key-bb")];
    apply_microdescs(&mut relays, &infos, &m);
    assert_eq!(relays[0].ntor_onion_key, "");
    assert_eq!(relays[1].ntor_onion_key, "key-bb");
    assert_eq!(relays[1].ed25519_identity, Some("ed".to_string()));
}

#[test]
fn filter_drops_unresolved() {
    let mut resolved = relay_with_digest("aa", "d1");
    resolved.ntor_onion_key = "key".to_string();
    let unresolved = relay_with_digest("bb", "d2");
    let kept = filter_usable(vec![resolved, unresolved]);
    assert_eq!(kept.len(), 1);
    assert_eq!(kept[0].fingerprint, "aa");
}

#[test]
fn never_fetched_relay_is_absent() {
    // The relay whose secondary document never arrives is dropped.
    let relays = vec![relay_with_digest("aa", "d1"), relay_with_digest("bb", "d2")];
    let pairs = vec![
        ("aa".to_string(), "d1".to_string()),
        ("bb".to_string(), "d2".to_string()),
    ];
    let m = digest_map(&pairs);
    let batches = vec![Some(vec![info("d2", "key-bb")])];
    let result = resolve_relays(relays, &batches, &m);
    assert_eq!(result.len(), 1);
    assert!(result.iter().all(|r| r.fingerprint != "aa"));
}

#[test]
fn later_batch_resolves_after_earlier_failure() {
    // An earlier failed batch is non-fatal: the relay resolved by a
    // later batch is present and fully resolved.
    let relays = vec![relay_with_digest("aa", "d1"), relay_with_digest("bb", "d2")];
    let pairs = vec![
        ("aa".to_string(), "d1".to_string()),
        ("bb".to_string(), "d2".to_string()),
    ];
    let m = digest_map(&pairs);
    let batches = vec![None, Some(vec![info("d2", "key-bb")])];
    let result = resolve_relays(relays, &batches, &m);
    assert_eq!(result.len(), 1);
    assert_eq!(result[0].fingerprint, "bb");
    assert_eq!(result[0].ntor_onion_key, "key-bb");
}

#[test]
fn resolution_end_to_end_once() {
    // The primary document lists relay R with digest D; a batch
    // returns the document with digest D; afterwards R carries that
    // document's key and appears exactly once.
    let relays = vec![
        relay_with_digest("rr", "dd"),
        relay_with_digest("ss", "d2"),
        relay_with_digest("tt", "d3"),
    ];
    let pairs = vec![
        ("rr".to_string(), "dd".to_string()),
        ("ss".to_string(), "d2".to_string()),
        ("tt".to_string(), "d3".to_string()),
    ];
    let m = digest_map(&pairs);
    let batches = vec![
        Some(vec![info("dd", "the-handshake-key"), info("d3", "other-key")]),
    ];
    let result = resolve_relays(relays, &batches, &m);
    let matching: Vec<_> = result.iter().filter(|r| r.fingerprint == "rr").collect();
    assert_eq!(matching.len(), 1);
    assert_eq!(matching[0].ntor_onion_key, "the-handshake-key");
}

#[test]
fn batch_urls_split_at_limit() {
    let prefix = "http://10.0.0.1:80/tor/micro/d/".to_string();
    // No digests: no requests.
    assert!(microdesc_batch_urls(&prefix, &vec![]).is_empty());
    // A single digest: one request, no separator.
    let one = microdesc_batch_urls(&prefix, &vec!["abc".to_string()]);
    assert_eq!(one, vec!["http://10.0.0.1:80/tor/micro/d/abc".to_string()]);
    // A few digests: joined by the fixed separator.
    let few = microdesc_batch_urls(
        &prefix,
        &vec!["a".to_string(), "b".to_string(), "c".to_string()],
    );
    assert_eq!(few, vec!["http://10.0.0.1:80/tor/micro/d/a-b-c".to_string()]);
    // One more digest than a batch may carry: two requests.
    let digests: Vec<String> = (0..BATCH_SIZE + 1).map(|i| format!("{:03}", i)).collect();
    let urls = microdesc_batch_urls(&prefix, &digests);
    assert_eq!(urls.len(), 2);
    assert!(urls[0].ends_with(&format!("{:03}", BATCH_SIZE - 1)));
    assert_eq!(urls[1], format!("{}{:03}", prefix, BATCH_SIZE));
}

#[test]
fn join_ranges() {
    let v = vec!["x".to_string(), "y".to_string(), "z".to_string()];
    assert_eq!(join_digests(&v, 0, 3), "x-y-z");
    assert_eq!(join_digests(&v, 1, 2), "y");
    assert_eq!(join_digests(&v, 2, 2), "");
}

#[test]
fn digests_deduplicated_for_batching() {
    let pairs = vec![
        ("fp1".to_string(), "d1".to_string()),
        ("fp2".to_string(), "d2".to_string()),
        ("fp3".to_string(), "d1".to_string()),
    ];
    let m = digest_map(&pairs);
    let digests = unique_digests(&m);
    assert_eq!(digests.len(), 2);
    assert!(contains_string(&digests, &"d1".to_string()));
    assert!(contains_string(&digests, &"d2".to_string()));
    assert!(!contains_string(&digests, &"fp1".to_string()));
}
