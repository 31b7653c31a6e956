//! Consensus acquisition and caching: fallback directory sources, the
//! two-tier time-to-live cache, and the refresh iteration over
//! sources.
//!
//! Consensus documents are refreshed every hour (the fresh window),
//! with a longer three-hour validity window for safety. The cache is
//! replaced wholesale on every successful fetch and never partially
//! updated.

use vstd::prelude::*;
use vstd::string::*;
use crate::error::TorError;
use crate::relay::Relay;

verus! {

/// Seconds for which a fetched consensus is fresh.
pub const FRESH_SECONDS: u64 = 3600;

/// Seconds for which a fetched consensus stays valid.
pub const VALID_SECONDS: u64 = 3 * 3600;

/// One directory authority or fallback directory.
#[derive(Debug)]
pub struct DirectorySource {
    pub name: String,
    pub address: String,
    pub port: u16,
}

impl Clone for DirectorySource {
    /// Cloning a source preserves its fields exactly.
    fn clone(&self) -> (r: DirectorySource)
        ensures
            r.name@ == self.name@,
            r.address@ == self.address@,
            r.port == self.port,
    {
        DirectorySource {
            name: self.name.clone(),
            address: self.address.clone(),
            port: self.port,
        }
    }
}

impl DirectorySource {
    /// A source from its display name, network address and port.
    pub fn new(name: &str, address: &str, port: u16) -> (r: DirectorySource)
        ensures
            r.name@ == name@,
            r.address@ == address@,
            r.port == port,
    {
        DirectorySource {
            name: String::from_str(name),
            address: String::from_str(address),
            port,
        }
    }
}

/// Exactly the hardcoded fallback list: eight well-known relays that
/// serve directory information, in the fixed bootstrap order.
pub open spec fn is_fallback_list(s: Seq<DirectorySource>) -> bool {
    &&& s.len() == 8
    &&& s[0].name@ == "Faravahar"@ && s[0].address@ == "154.35.175.225"@ && s[0].port == 80
    &&& s[1].name@ == "dannenberg"@ && s[1].address@ == "193.23.244.244"@ && s[1].port == 80
    &&& s[2].name@ == "moria1"@ && s[2].address@ == "128.31.0.39"@ && s[2].port == 9131
    &&& s[3].name@ == "tor26"@ && s[3].address@ == "86.59.21.38"@ && s[3].port == 80
    &&& s[4].name@ == "gabelmoo"@ && s[4].address@ == "131.188.40.189"@ && s[4].port == 80
    &&& s[5].name@ == "maatuska"@ && s[5].address@ == "171.25.193.9"@ && s[5].port == 443
    &&& s[6].name@ == "longclaw"@ && s[6].address@ == "199.58.81.140"@ && s[6].port == 80
    &&& s[7].name@ == "bastet"@ && s[7].address@ == "204.13.164.118"@ && s[7].port == 80
}

/// The hardcoded fallback directories used for initial bootstrap,
/// before any network-derived trust exists.
pub fn fallback_directories() -> (r: Vec<DirectorySource>)
    ensures
        is_fallback_list(r@),
        r@.len() == 8,
        forall|i: int|
            0 <= i < r@.len() ==> r@[i].name@.len() > 0 && r@[i].address@.len() > 0
                && r@[i].port > 0,
{
    let mut v: Vec<DirectorySource> = Vec::new();
    v.push(DirectorySource::new("Faravahar", "154.35.175.225", 80));
    v.push(DirectorySource::new("dannenberg", "193.23.244.244", 80));
    v.push(DirectorySource::new("moria1", "128.31.0.39", 9131));
    v.push(DirectorySource::new("tor26", "86.59.21.38", 80));
    v.push(DirectorySource::new("gabelmoo", "131.188.40.189", 80));
    v.push(DirectorySource::new("maatuska", "171.25.193.9", 443));
    v.push(DirectorySource::new("longclaw", "199.58.81.140", 80));
    v.push(DirectorySource::new("bastet", "204.13.164.118", 80));
    proof {
        reveal_strlit("Faravahar");
        reveal_strlit("154.35.175.225");
        reveal_strlit("dannenberg");
        reveal_strlit("193.23.244.244");
        reveal_strlit("moria1");
        reveal_strlit("128.31.0.39");
        reveal_strlit("tor26");
        reveal_strlit("86.59.21.38");
        reveal_strlit("gabelmoo");
        reveal_strlit("131.188.40.189");
        reveal_strlit("maatuska");
        reveal_strlit("171.25.193.9");
        reveal_strlit("longclaw");
        reveal_strlit("199.58.81.140");
        reveal_strlit("bastet");
        reveal_strlit("204.13.164.118");
    }
    v
}

/// The cached consensus: the resolved relay list and the instant it
/// was fetched, with the fresh and valid windows counted from that
/// single instant. Instants and windows share one time unit, chosen
/// by the caller's clock (seconds here).
#[derive(Debug)]
pub struct CachedConsensus {
    /// The resolved relay list.
    pub relays: Vec<Relay>,
    /// The instant this consensus was fetched.
    pub fetched_at: u64,
    /// How long after `fetched_at` the consensus stays fresh.
    pub fresh_until: u64,
    /// How long after `fetched_at` the consensus stays valid.
    pub valid_until: u64,
}

impl CachedConsensus {
    /// A well-formed cache nests the freshness window inside the
    /// validity window.
    pub open spec fn wf(self) -> bool {
        self.fresh_until <= self.valid_until
    }

    /// Time elapsed since the fetch instant, saturating at zero when
    /// the clock reports an instant before the fetch.
    pub open spec fn elapsed(self, now: u64) -> u64 {
        if now >= self.fetched_at {
            (now - self.fetched_at) as u64
        } else {
            0
        }
    }

    /// Whether the consensus is fresh at `now`.
    pub open spec fn fresh_at(self, now: u64) -> bool {
        self.elapsed(now) < self.fresh_until
    }

    /// Whether the consensus is still valid at `now`.
    pub open spec fn valid_at(self, now: u64) -> bool {
        self.elapsed(now) < self.valid_until
    }

    /// True iff the consensus is still fresh at `now`.
    pub fn is_fresh(&self, now: u64) -> (r: bool)
        ensures
            r == self.fresh_at(now),
    {
        let e = if now >= self.fetched_at {
            now - self.fetched_at
        } else {
            0
        };
        e < self.fresh_until
    }

    /// True iff the consensus is still valid at `now`.
    pub fn is_valid(&self, now: u64) -> (r: bool)
        ensures
            r == self.valid_at(now),
    {
        let e = if now >= self.fetched_at {
            now - self.fetched_at
        } else {
            0
        };
        e < self.valid_until
    }
}

/// The two windows of a cache with nested nonzero windows, over its
/// whole lifetime: at the fetch instant it is both fresh and valid;
/// once the fresh window has elapsed but not the valid window it is
/// valid but no longer fresh; once the valid window has elapsed it is
/// neither.
pub proof fn lemma_cache_windows(c: CachedConsensus)
    requires
        0 < c.fresh_until < c.valid_until,
    ensures
        c.fresh_at(c.fetched_at) && c.valid_at(c.fetched_at),
        forall|now: u64|
            c.fresh_until <= c.elapsed(now) < c.valid_until ==> !c.fresh_at(now) && c.valid_at(
                now,
            ),
        forall|now: u64| c.elapsed(now) >= c.valid_until ==> !c.fresh_at(now) && !c.valid_at(now),
{
}

/// The progress of one refresh pass over the fallback sources:
/// either still trying sources from `next` on, with the most recent
/// error recorded, or finished with a relay list from the first
/// source that succeeded.
pub enum RefreshState {
    /// Sources before `next` have failed; `last_error` is the most
    /// recent failure.
    Trying { next: usize, last_error: Option<TorError> },
    /// A source delivered a complete relay list; no further source is
    /// consulted.
    Succeeded { relays: Vec<Relay> },
}

/// The refresh state after one source's outcome: a success ends the
/// pass with that source's data; a failure records the error and
/// moves to the next source.
pub open spec fn refresh_step(s: RefreshState, outcome: Result<Vec<Relay>, TorError>) -> RefreshState {
    match s {
        RefreshState::Trying { next, last_error } => match outcome {
            Ok(relays) => RefreshState::Succeeded { relays },
            Err(e) => RefreshState::Trying { next: (next + 1) as usize, last_error: Some(e) },
        },
        RefreshState::Succeeded { relays } => RefreshState::Succeeded { relays },
    }
}

/// The refresh state after a whole sequence of per-source outcomes.
pub open spec fn refresh_run(
    s: RefreshState,
    outcomes: Seq<Result<Vec<Relay>, TorError>>,
) -> RefreshState
    decreases outcomes.len(),
{
    if outcomes.len() == 0 {
        s
    } else {
        refresh_run(refresh_step(s, outcomes[0]), outcomes.skip(1))
    }
}

/// Once a refresh pass has succeeded, later outcomes change nothing:
/// the pass keeps the first successful source's data.
pub proof fn lemma_refresh_success_absorbs(relays: Vec<Relay>, outcomes: Seq<Result<Vec<Relay>, TorError>>)
    ensures
        refresh_run(RefreshState::Succeeded { relays }, outcomes) == (RefreshState::Succeeded {
            relays,
        }),
    decreases outcomes.len(),
{
    if outcomes.len() > 0 {
        lemma_refresh_success_absorbs(relays, outcomes.skip(1));
    }
}

/// Fallback iteration: when the first `k` sources fail and the
/// `k+1`-th succeeds, the pass ends with the `k+1`-th source's relay
/// list, whatever any later source would have returned: no source
/// after the successful one contributes.
pub proof fn lemma_refresh_first_success(
    outcomes: Seq<Result<Vec<Relay>, TorError>>,
    k: int,
    start: RefreshState,
)
    requires
        0 <= k < outcomes.len(),
        forall|j: int| 0 <= j < k ==> outcomes[j] is Err,
        outcomes[k] is Ok,
        start matches RefreshState::Trying { .. },
    ensures
        refresh_run(start, outcomes) == (RefreshState::Succeeded {
            relays: outcomes[k]->Ok_0,
        }),
    decreases k,
{
    match start {
        RefreshState::Trying { next, last_error } => {
            if k == 0 {
                let s1 = refresh_step(start, outcomes[0]);
                assert(s1 == (RefreshState::Succeeded { relays: outcomes[0]->Ok_0 }));
                lemma_refresh_success_absorbs(outcomes[0]->Ok_0, outcomes.skip(1));
            } else {
                let s1 = refresh_step(start, outcomes[0]);
                assert(s1 matches RefreshState::Trying { .. });
                lemma_refresh_first_success(outcomes.skip(1), k - 1, s1);
                assert(outcomes.skip(1)[k - 1] == outcomes[k]);
            }
        },
        _ => {},
    }
}

/// The consensus manager: the cached directory, if any, and the
/// ordered fallback sources a refresh pass walks.
pub struct ConsensusManager {
    /// The cached consensus; absent until the first successful fetch.
    pub cache: Option<CachedConsensus>,
    /// Directory sources to fetch from, in the order they are tried.
    pub directories: Vec<DirectorySource>,
}

impl ConsensusManager {
    /// A manager with no cache, over the hardcoded fallback
    /// directories: a fresh manager always needs a first refresh.
    pub fn new() -> (r: ConsensusManager)
        ensures
            r.cache is None,
            is_fallback_list(r.directories@),
    {
        ConsensusManager { cache: None, directories: fallback_directories() }
    }

    /// A manager with no cache, over the given sources.
    pub fn with_directories(directories: Vec<DirectorySource>) -> (r: ConsensusManager)
        ensures
            r.cache is None,
            r.directories == directories,
    {
        ConsensusManager { cache: None, directories }
    }

    /// How many directory sources a refresh pass will try.
    pub fn directory_count(&self) -> (r: usize)
        ensures
            r == self.directories@.len(),
    {
        self.directories.len()
    }

    /// True iff no consensus is cached or the cached one is no longer
    /// fresh.
    pub fn needs_refresh(&self, now: u64) -> (r: bool)
        ensures
            r == match self.cache {
                None => true,
                Some(c) => !c.fresh_at(now),
            },
    {
        match &self.cache {
            None => true,
            Some(c) => !c.is_fresh(now),
        }
    }

    /// The cached relay list when it is fresh, or stale but still
    /// valid (a caller should then schedule a refresh); `None` when
    /// there is no cache or it is no longer valid, in which case a
    /// blocking refresh pass is required.
    pub fn get_relays(&self, now: u64) -> (r: Option<Vec<Relay>>)
        ensures
            match r {
                Some(v) => self.cache matches Some(c) && (c.fresh_at(now) || c.valid_at(now))
                    && v.deep_view() == c.relays.deep_view(),
                None => match self.cache {
                    None => true,
                    Some(c) => !c.fresh_at(now) && !c.valid_at(now),
                },
            },
    {
        match &self.cache {
            None => None,
            Some(c) => {
                if c.is_fresh(now) || c.is_valid(now) {
                    let v = clone_relays(&c.relays);
                    Some(v)
                } else {
                    None
                }
            },
        }
    }

    /// Begin a refresh pass at the first source, with no error
    /// recorded.
    pub fn start_refresh(&self) -> (r: RefreshState)
        ensures
            r == (RefreshState::Trying { next: 0, last_error: None }),
    {
        RefreshState::Trying { next: 0, last_error: None }
    }

    /// The source a refresh pass consults next: `None` once the pass
    /// has succeeded or every source is exhausted.
    pub fn next_source(&self, s: &RefreshState) -> (r: Option<&DirectorySource>)
        ensures
            match r {
                Some(d) => s matches RefreshState::Trying { next, .. } && next
                    < self.directories@.len() && *d == self.directories@[next as int],
                None => !(s matches RefreshState::Trying { next, .. } && next
                    < self.directories@.len()),
            },
    {
        match s {
            RefreshState::Trying { next, .. } => {
                if *next < self.directories.len() {
                    Some(&self.directories[*next])
                } else {
                    None
                }
            },
            RefreshState::Succeeded { .. } => None,
        }
    }

    /// Record one source's outcome. A success replaces the cache
    /// wholesale with the new list under the fixed fresh and valid
    /// windows, and ends the pass; a failure records the error and
    /// moves the pass to the next source, leaving the cache as it
    /// was.
    pub fn record_outcome(
        &mut self,
        s: RefreshState,
        outcome: Result<Vec<Relay>, TorError>,
        now: u64,
    ) -> (r: RefreshState)
        requires
            s matches RefreshState::Trying { next, .. } && next < old(self).directories@.len(),
        ensures
            r == refresh_step(s, outcome),
            final(self).directories == old(self).directories,
            match outcome {
                Ok(relays) => final(self).cache matches Some(c) && c.relays.deep_view()
                    == relays.deep_view() && c.fetched_at == now && c.fresh_until == FRESH_SECONDS
                    && c.valid_until == VALID_SECONDS,
                Err(e) => final(self).cache == old(self).cache,
            },
    {
        let n = self.directories.len();
        match s {
            RefreshState::Trying { next, last_error } => {
                match outcome {
                    Ok(relays) => {
                        let copy = clone_relays(&relays);
                        self.cache = Some(
                            CachedConsensus {
                                relays: copy,
                                fetched_at: now,
                                fresh_until: FRESH_SECONDS,
                                valid_until: VALID_SECONDS,
                            },
                        );
                        RefreshState::Succeeded { relays }
                    },
                    Err(e) => RefreshState::Trying { next: next + 1, last_error: Some(e) },
                }
            },
            RefreshState::Succeeded { relays } => RefreshState::Succeeded { relays },
        }
    }

    /// Conclude an exhausted or successful pass: the first successful
    /// source's list, or the last recorded error, or the generic
    /// exhaustion error when no source was even tried.
    pub fn finish_refresh(&self, s: RefreshState) -> (r: Result<Vec<Relay>, TorError>)
        requires
            !(s matches RefreshState::Trying { next, .. } && next < self.directories@.len()),
        ensures
            match s {
                RefreshState::Succeeded { relays } => r matches Ok(v) && v == relays,
                RefreshState::Trying { next, last_error } => match last_error {
                    Some(e) => r == Result::<Vec<Relay>, TorError>::Err(e),
                    None => r == Result::<Vec<Relay>, TorError>::Err(TorError::NoSources),
                },
            },
    {
        match s {
            RefreshState::Succeeded { relays } => Ok(relays),
            RefreshState::Trying { next: _, last_error } => {
                match last_error {
                    Some(e) => Err(e),
                    None => Err(TorError::NoSources),
                }
            },
        }
    }

    /// A short description of the cache state for diagnostics.
    pub fn cache_status(&self, now: u64) -> (r: String)
        ensures
            self.cache is None ==> r@ == "No cached consensus"@,
            self.cache matches Some(c) ==> r@ == "Cached "@ + crate::numfmt::dec_of(
                c.relays@.len() as nat,
            ) + " relays, age "@ + crate::numfmt::dec_of(c.elapsed(now) as nat) + ", fresh: "@
                + bool_chars(c.fresh_at(now)) + ", valid: "@ + bool_chars(c.valid_at(now)),
    {
        match &self.cache {
            None => String::from_str("No cached consensus"),
            Some(c) => {
                let age = if now >= c.fetched_at {
                    now - c.fetched_at
                } else {
                    0
                };
                let mut s = String::from_str("Cached ");
                let n = crate::numfmt::format_u64(c.relays.len() as u64);
                s.append(n.as_str());
                s.append(" relays, age ");
                let a = crate::numfmt::format_u64(age);
                s.append(a.as_str());
                s.append(", fresh: ");
                s.append(bool_str(c.is_fresh(now)));
                s.append(", valid: ");
                s.append(bool_str(c.is_valid(now)));
                proof {
                    assert(s@ =~= "Cached "@ + crate::numfmt::dec_of(c.relays@.len() as nat)
                        + " relays, age "@ + crate::numfmt::dec_of(c.elapsed(now) as nat)
                        + ", fresh: "@ + bool_chars(c.fresh_at(now)) + ", valid: "@ + bool_chars(
                        c.valid_at(now),
                    ));
                }
                s
            },
        }
    }
}

impl Default for ConsensusManager {
    /// The same manager as [`ConsensusManager::new`].
    fn default() -> (r: ConsensusManager)
        ensures
            r.cache is None,
            is_fallback_list(r.directories@),
    {
        ConsensusManager::new()
    }
}

/// The characters of the URL for a plain directory fetch of `path`
/// from the source at `address`:`port`.
pub open spec fn source_url_chars(address: Seq<char>, port: u16, path: Seq<char>) -> Seq<char> {
    "http://"@ + address + ":"@ + crate::numfmt::dec_of(port as nat) + path
}

/// The URL of the microdescriptor-flavored consensus document on a
/// directory source, fetched in the clear during bootstrap.
pub fn consensus_url(dir: &DirectorySource) -> (r: String)
    ensures
        r@ == source_url_chars(
            dir.address@,
            dir.port,
            "/tor/status-vote/current/consensus-microdesc"@,
        ),
{
    let mut s = String::from_str("http://");
    s.append(dir.address.as_str());
    s.append(":");
    let p = crate::numfmt::format_u64(dir.port as u64);
    s.append(p.as_str());
    s.append("/tor/status-vote/current/consensus-microdesc");
    proof {
        assert(s@ =~= source_url_chars(
            dir.address@,
            dir.port,
            "/tor/status-vote/current/consensus-microdesc"@,
        ));
    }
    s
}

/// The URL prefix of the batched secondary-document requests on a
/// directory source: everything up to the joined digests.
pub fn microdesc_url_prefix(dir: &DirectorySource) -> (r: String)
    ensures
        r@ == source_url_chars(dir.address@, dir.port, "/tor/micro/d/"@),
{
    let mut s = String::from_str("http://");
    s.append(dir.address.as_str());
    s.append(":");
    let p = crate::numfmt::format_u64(dir.port as u64);
    s.append(p.as_str());
    s.append("/tor/micro/d/");
    proof {
        assert(s@ =~= source_url_chars(dir.address@, dir.port, "/tor/micro/d/"@));
    }
    s
}

/// The text of a boolean.
pub open spec fn bool_chars(b: bool) -> Seq<char> {
    if b {
        "true"@
    } else {
        "false"@
    }
}

/// Render a boolean as its text.
fn bool_str(b: bool) -> (r: &'static str)
    ensures
        r@ == bool_chars(b),
{
    if b {
        "true"
    } else {
        "false"
    }
}

/// Clone a relay list, preserving its model exactly.
pub fn clone_relays(v: &Vec<Relay>) -> (r: Vec<Relay>)
    ensures
        r.deep_view() == v.deep_view(),
{
    let r = v.clone();
    proof {
        assert forall|i: int| 0 <= i < v@.len() implies r.deep_view()[i] == v.deep_view()[i] by {
            assert(cloned::<Relay>(v@[i], r@[i]));
        }
        assert(r.deep_view() =~= v.deep_view());
    }
    r
}

} // verus!
