use webtor::marker::MonotonicMarker;
use webtor::relay::{flag_strings, Relay, RelayFlagSet};

fn no_flags() -> RelayFlagSet {
    RelayFlagSet {
        authority: false,
        bad_exit: false,
        exit: false,
        fast: false,
        guard: false,
        hsdir: false,
        stable: false,
        running: false,
        valid: false,
        v2dir: false,
    }
}

#[test]
fn flag_vocabulary_order() {
    assert!(flag_strings(&no_flags()).is_empty());

    let f = RelayFlagSet { fast: true, guard: true, running: true, ..no_flags() };
    assert_eq!(flag_strings(&f), vec!["Fast", "Guard", "Running"]);

    let all = RelayFlagSet {
        authority: true,
        bad_exit: true,
        exit: true,
        fast: true,
        guard: true,
        hsdir: true,
        stable: true,
        running: true,
        valid: true,
        v2dir: true,
    };
    assert_eq!(
        flag_strings(&all),
        vec![
            "Authority", "BadExit", "Exit", "Fast", "Guard", "HSDir", "Stable", "Running",
            "Valid", "V2Dir",
        ]
    );
}

#[test]
fn relay_usability_and_clone() {
    let relay = Relay::new(
        "ab".repeat(20),
        "nick".to_string(),
        "10.0.0.1".to_string(),
        443,
        flag_strings(&RelayFlagSet { exit: true, ..no_flags() }),
        String::new(),
    );
    assert!(!relay.is_usable());
    assert_eq!(relay.consensus_weight, 0);
    assert_eq!(relay.bandwidth, 0);
    assert!(relay.ed25519_identity.is_none());

    let mut resolved = relay.clone();
    resolved.ntor_onion_key = "cd".repeat(32);
    assert!(resolved.is_usable());
    assert_eq!(resolved.fingerprint, relay.fingerprint);
    assert_eq!(resolved.flags, vec!["Exit"]);
}

#[test]
fn marker_zero_tick_collides_with_unset() {
    // Zero is both the sentinel and a possible real tick: advancing
    // to instant zero is indistinguishable from never advancing.
    let mut m = MonotonicMarker::new();
    m.advance_to(0);
    assert!(m.elapsed_since(5).is_none());
}
