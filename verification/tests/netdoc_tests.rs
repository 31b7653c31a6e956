use webtor::directory::DirectoryManager;
use webtor::error::TorError;
use webtor::netdoc::{parse_consensus, parse_microdescriptors, weight_value, WeightInfo};

#[test]
fn weight_selection() {
    assert_eq!(weight_value(&WeightInfo::Measured(830)), 830);
    assert_eq!(weight_value(&WeightInfo::Unmeasured(25)), 25);
    // A future variant with no usable number contributes zero.
    assert_eq!(weight_value(&WeightInfo::Other), 0);
}

#[test]
fn malformed_consensus_is_a_parse_error() {
    let err = parse_consensus("this is not a consensus document").unwrap_err();
    assert!(err.is_parse());
    let err = parse_consensus("").unwrap_err();
    assert!(err.is_parse());
}

#[test]
fn directory_manager_rejects_garbage() {
    let mut mgr = DirectoryManager::new();
    let err = mgr.process_consensus("garbage").unwrap_err();
    assert!(matches!(err, TorError::Parse(_)));
    assert!(mgr.relays.is_empty());
}

#[test]
fn microdescriptor_batch_parses_documents() {
    // One well-formed microdescriptor: the intro item, the ntor key
    // and the ed25519 identity (both all-zero here, in base64).
    let b64_zero32 = "AAAAAAAAAAAAAAAAAAAAAAAAAAAAAAAAAAAAAAAAAAA";
    let text = format!(
        "onion-key\nntor-onion-key {}\nid ed25519 {}\n",
        b64_zero32, b64_zero32
    );
    match parse_microdescriptors(&text) {
        Some(infos) if infos.len() == 1 => {
            // The handshake key is handed out in hex, never empty.
            assert_eq!(infos[0].ntor_key, "00".repeat(32));
            assert_eq!(infos[0].ed_id, "00".repeat(32));
            assert_eq!(infos[0].digest.len(), 64);
        }
        other => panic!("expected one parsed document, got {:?}", other),
    }
}

#[test]
fn microdescriptor_batch_skips_bad_documents() {
    // A payload with no parseable document yields no documents, and
    // never a fabricated key.
    match parse_microdescriptors("not a document") {
        None => {}
        Some(infos) => assert!(infos.is_empty()),
    }
}
