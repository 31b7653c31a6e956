use webtor::consensus::{
    consensus_url, fallback_directories, microdesc_url_prefix, CachedConsensus, ConsensusManager,
    DirectorySource, RefreshState, FRESH_SECONDS, VALID_SECONDS,
};
use webtor::error::TorError;
use webtor::relay::Relay;

#[test]
fn test_fallback_directories() {
    let dirs = fallback_directories();
    assert!(!dirs.is_empty());
    for dir in dirs {
        assert!(!dir.name.is_empty());
        assert!(!dir.address.is_empty());
        assert!(dir.port > 0);
    }
}

#[test]
fn test_cached_consensus_freshness() {
    let now: u64 = 50_000;
    let cached = CachedConsensus {
        relays: vec![],
        fetched_at: now,
        fresh_until: 3600,
        valid_until: 3600 * 3,
    };

    assert!(cached.is_fresh(now));
    assert!(cached.is_valid(now));
}

#[test]
fn test_consensus_manager_creation() {
    let manager = ConsensusManager::new();
    assert_eq!(manager.directory_count(), fallback_directories().len());
}

#[test]
fn test_directory_source() {
    let dir = DirectorySource::new("test", "127.0.0.1", 80);
    assert_eq!(dir.name, "test");
    assert_eq!(dir.address, "127.0.0.1");
    assert_eq!(dir.port, 80);
}

#[test]
fn cache_window_progression() {
    let cached = CachedConsensus {
        relays: vec![],
        fetched_at: 1000,
        fresh_until: 10,
        valid_until: 30,
    };
    // Immediately after the fetch: both fresh and valid.
    assert!(cached.is_fresh(1000) && cached.is_valid(1000));
    // After the fresh window but inside the valid one.
    assert!(!cached.is_fresh(1010) && cached.is_valid(1010));
    assert!(!cached.is_fresh(1029) && cached.is_valid(1029));
    // After the valid window: neither.
    assert!(!cached.is_fresh(1030) && !cached.is_valid(1030));
    // A clock that ran backwards counts as zero elapsed.
    assert!(cached.is_fresh(900) && cached.is_valid(900));
}

fn one_relay(fp: &str) -> Relay {
    Relay::new(
        fp.to_string(),
        "nick".to_string(),
        "10.0.0.1".to_string(),
        9001,
        vec![],
        "aa".to_string(),
    )
}

#[test]
fn needs_refresh_and_get_relays() {
    let dirs = vec![DirectorySource::new("a", "10.0.0.1", 80)];
    let mut manager = ConsensusManager::with_directories(dirs);
    assert!(manager.needs_refresh(0));
    assert!(manager.get_relays(0).is_none());

    let state = manager.start_refresh();
    let outcome: Result<Vec<Relay>, TorError> = Ok(vec![one_relay("ff")]);
    let state = manager.record_outcome(state, outcome, 1000);
    assert!(matches!(state, RefreshState::Succeeded { .. }));

    // Fresh: returned, no refresh needed.
    assert!(!manager.needs_refresh(1000));
    let got = manager.get_relays(1000).expect("fresh cache");
    assert_eq!(got.len(), 1);
    assert_eq!(got[0].fingerprint, "ff");

    // Stale but valid: still returned, though a refresh is due.
    let stale = 1000 + FRESH_SECONDS;
    assert!(manager.needs_refresh(stale));
    assert!(manager.get_relays(stale).is_some());

    // Past the valid window: nothing returned.
    let dead = 1000 + VALID_SECONDS;
    assert!(manager.get_relays(dead).is_none());
}

#[test]
fn refresh_tries_sources_in_order() {
    let dirs = vec![
        DirectorySource::new("a", "10.0.0.1", 80),
        DirectorySource::new("b", "10.0.0.2", 80),
        DirectorySource::new("c", "10.0.0.3", 80),
    ];
    let mut manager = ConsensusManager::with_directories(dirs);
    let state = manager.start_refresh();

    // First source fails.
    let d = manager.next_source(&state).expect("first source");
    assert_eq!(d.name, "a");
    let state = manager.record_outcome(state, Err(TorError::Network("down".to_string())), 7);

    // Second source succeeds; no further source is consulted.
    let d = manager.next_source(&state).expect("second source");
    assert_eq!(d.name, "b");
    let state = manager.record_outcome(state, Ok(vec![one_relay("ab")]), 7);
    assert!(manager.next_source(&state).is_none());

    let relays = manager.finish_refresh(state).expect("refresh succeeded");
    assert_eq!(relays.len(), 1);
    assert_eq!(relays[0].fingerprint, "ab");
    assert!(manager.get_relays(7).is_some());
}

#[test]
fn refresh_exhaustion_reports_last_error() {
    let dirs = vec![
        DirectorySource::new("a", "10.0.0.1", 80),
        DirectorySource::new("b", "10.0.0.2", 80),
    ];
    let mut manager = ConsensusManager::with_directories(dirs);
    let mut state = manager.start_refresh();
    state = manager.record_outcome(state, Err(TorError::Network("one".to_string())), 0);
    state = manager.record_outcome(state, Err(TorError::Parse("two".to_string())), 0);
    assert!(manager.next_source(&state).is_none());
    let err = manager.finish_refresh(state).unwrap_err();
    assert!(err.is_parse());
    // The failed pass left no cache behind.
    assert!(manager.get_relays(0).is_none());
}

#[test]
fn refresh_with_no_sources() {
    let manager = ConsensusManager::with_directories(vec![]);
    let state = manager.start_refresh();
    assert!(manager.next_source(&state).is_none());
    let err = manager.finish_refresh(state).unwrap_err();
    assert!(matches!(err, TorError::NoSources));
}

#[test]
fn consensus_and_microdesc_urls() {
    let dir = DirectorySource::new("moria1", "128.31.0.39", 9131);
    assert_eq!(
        consensus_url(&dir),
        "http://128.31.0.39:9131/tor/status-vote/current/consensus-microdesc"
    );
    assert_eq!(
        microdesc_url_prefix(&dir),
        "http://128.31.0.39:9131/tor/micro/d/"
    );
}

#[test]
fn cache_status_text() {
    let manager = ConsensusManager::with_directories(vec![]);
    assert_eq!(manager.cache_status(0), "No cached consensus");

    let mut manager = ConsensusManager::with_directories(vec![DirectorySource::new(
        "a", "10.0.0.1", 80,
    )]);
    let state = manager.start_refresh();
    manager.record_outcome(state, Ok(vec![one_relay("cc")]), 100);
    assert_eq!(
        manager.cache_status(160),
        "Cached 1 relays, age 60, fresh: true, valid: true"
    );
}
