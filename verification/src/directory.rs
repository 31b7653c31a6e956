//! Directory-over-circuit retrieval: once a tunnel through the
//! network exists, the same consensus document is fetched through it
//! instead of in the clear.
//!
//! The tunnel, stream and I/O belong to the external circuit engine
//! and its driver; this module builds the request to send, strips the
//! response headers best-effort, and runs the received body through
//! the same parsing logic as the plaintext bootstrap path. A fetch
//! that fails never corrupts a previously cached directory: nothing
//! here touches a cache.

use vstd::prelude::*;
use crate::error::TorError;
use crate::httpmsg::{build_http_request, consensus_request_path, request_chars};
use crate::netdoc::{md_consensus_ok, md_relay_count, parse_consensus};
use crate::relay::Relay;

verus! {

/// The request sent on a directory-purpose stream: the same compound
/// `GET` as the plaintext path, against the fixed `directory` host.
pub fn dir_consensus_request() -> (r: String)
    ensures
        r@ == request_chars("/tor/status-vote/current/consensus-microdesc"@, "directory"@),
{
    let path = consensus_request_path();
    build_http_request(path.as_str(), "directory")
}

/// Holds what the most recent over-circuit fetch recovered from the
/// primary document: the still unresolved relays and the pairing of
/// each fingerprint with its secondary-document digest.
pub struct DirectoryManager {
    /// Relays of the most recently processed consensus, keys not yet
    /// resolved.
    pub relays: Vec<Relay>,
    /// (fingerprint, digest) pairs of the same consensus.
    pub digests: Vec<(String, String)>,
}

/// The relays of a freshly parsed consensus paired with their
/// secondary-document digests: keys still empty, one digest pair per
/// relay.
pub open spec fn unresolved_pairing(relays: Seq<Relay>, digests: Seq<(String, String)>) -> bool {
    &&& relays.len() == digests.len()
    &&& forall|i: int|
        0 <= i < relays.len() ==> (#[trigger] relays[i])@.ntor_onion_key.len() == 0 && digests[
            i
        ].0@ == relays[i]@.fingerprint && digests[i].1@ == relays[i]@.microdescriptor_hash
}

impl DirectoryManager {
    /// A manager that has processed nothing yet.
    pub fn new() -> (r: DirectoryManager)
        ensures
            r.relays@.len() == 0,
            r.digests@.len() == 0,
    {
        DirectoryManager { relays: Vec::new(), digests: Vec::new() }
    }

    /// Parse a consensus document received over a circuit and keep
    /// its relay list; the count of listed relays is returned. A
    /// parse failure leaves the previous state untouched.
    pub fn process_consensus(&mut self, text: &str) -> (r: Result<usize, TorError>)
        ensures
            (r is Ok) == md_consensus_ok(text@),
            r matches Ok(n) ==> n == md_relay_count(text@),
            r matches Ok(n) ==> n == final(self).relays@.len() && unresolved_pairing(
                final(self).relays@,
                final(self).digests@,
            ),
            r matches Err(e) ==> e is Parse && final(self).relays@ == old(self).relays@
                && final(self).digests@ == old(self).digests@,
    {
        match parse_consensus(text) {
            Ok((relays, digests)) => {
                let n = relays.len();
                self.relays = relays;
                self.digests = digests;
                Ok(n)
            },
            Err(e) => Err(e),
        }
    }
}

} // verus!
