//! Reading the two directory document types through the network
//! document library: the microdescriptor-flavored consensus and the
//! secondary microdescriptor documents.
//!
//! The library's parsers run behind trusted wrappers; everything they
//! hand back is converted to plain values here and processed by
//! verified code. Authority signatures and the validity time range of
//! the consensus are deliberately not checked: this bootstrap core
//! assumes a timely, well-signed document, an explicitly accepted
//! risk that a hardened deployment must revisit.

use vstd::prelude::*;
use vstd::string::*;
use crate::error::TorError;
use crate::hexfmt::{hex_encode, hex_of, lemma_hex_of_len};
use crate::numfmt::{dec_of, format_u64};
use crate::relay::{flag_names, flag_strings, Relay, RelayFlagSet};
use tor_netdoc::types::relay_flags::RelayFlag;
use tor_netdoc::doc::netstatus::RelayWeight;
use tor_netdoc::doc::microdesc::MicrodescReader;

verus! {

/// Whether the network document library accepts `text` as a
/// microdescriptor-flavored consensus: parsing is a function of the
/// text alone.
pub uninterp spec fn md_consensus_ok(text: Seq<char>) -> bool;

/// How many relays the parsed consensus lists, on a text the
/// library accepts.
pub uninterp spec fn md_relay_count(text: Seq<char>) -> nat;

/// Whether the network document library can construct a document
/// reader over `text`: a function of the text alone.
pub uninterp spec fn microdescs_readable(text: Seq<char>) -> bool;

/// How many documents of `text` parse individually, on a text the
/// reader accepts.
pub uninterp spec fn microdesc_count(text: Seq<char>) -> nat;

#[verifier::external_type_specification]
#[verifier::external_body]
pub struct ExMdRouterStatus(tor_netdoc::doc::netstatus::MdRouterStatus);

#[verifier::external_type_specification]
#[verifier::external_body]
pub struct ExMicrodescAndHash(tor_netdoc::doc::microdesc::MicrodescAndHash);

/// Relies on `MdConsensus::parse` and the public `relays` field of
/// the parsed consensus (one router status entry per relay): both
/// are functions of the text alone. The returned time-range bound
/// and signature group are deliberately discarded unchecked.
#[verifier::external_body]
fn parse_md_consensus(text: &str) -> (r: Result<
    Vec<tor_netdoc::doc::netstatus::MdRouterStatus>,
    String,
>)
    ensures
        (r is Ok) == md_consensus_ok(text@),
        r matches Ok(v) ==> v@.len() == md_relay_count(text@),
{
    match tor_netdoc::doc::netstatus::MdConsensus::parse(text) {
        Ok((_, _, unchecked)) => {
            let (unvalidated, _timerange) = unchecked.dangerously_into_parts();
            Ok(unvalidated.consensus.relays)
        },
        Err(e) => Err(e.to_string()),
    }
}

/// Relies on `rsa_identity` and `RsaIdentity::as_bytes`: the RSA
/// identity digest is exactly twenty bytes.
#[verifier::external_body]
fn rs_identity(rs: &tor_netdoc::doc::netstatus::MdRouterStatus) -> (r: Vec<u8>)
    ensures
        r@.len() == 20,
{
    rs.rsa_identity().as_bytes().to_vec()
}

/// Relies on the `nickname` accessor of a router status entry.
#[verifier::external_body]
fn rs_nickname(rs: &tor_netdoc::doc::netstatus::MdRouterStatus) -> (r: String) {
    rs.nickname().to_owned()
}

/// Relies on the public IPv4 address field of the entry's intro item,
/// handed out as its four octets.
#[verifier::external_body]
fn rs_ip_octets(rs: &tor_netdoc::doc::netstatus::MdRouterStatus) -> (r: (u8, u8, u8, u8)) {
    let o = rs.r.ip.octets();
    (o[0], o[1], o[2], o[3])
}

/// Relies on the public relay port field of the entry's intro item.
#[verifier::external_body]
fn rs_or_port(rs: &tor_netdoc::doc::netstatus::MdRouterStatus) -> (r: u16) {
    rs.r.or_port
}

/// Relies on `flags` and `EnumSet::contains`: each field reports
/// membership of one recognized flag.
#[verifier::external_body]
fn rs_flag_set(rs: &tor_netdoc::doc::netstatus::MdRouterStatus) -> (r: RelayFlagSet) {
    let f = rs.flags();
    RelayFlagSet {
        authority: f.contains(RelayFlag::Authority), bad_exit: f.contains(RelayFlag::BadExit),
        exit: f.contains(RelayFlag::Exit), fast: f.contains(RelayFlag::Fast),
        guard: f.contains(RelayFlag::Guard), hsdir: f.contains(RelayFlag::HSDir),
        stable: f.contains(RelayFlag::Stable), running: f.contains(RelayFlag::Running),
        valid: f.contains(RelayFlag::Valid), v2dir: f.contains(RelayFlag::V2Dir),
    }
}

/// The consensus weight of one relay: measured, unmeasured, or a
/// future variant carrying no usable number.
pub enum WeightInfo {
    Measured(u32),
    Unmeasured(u32),
    Other,
}

/// Relies on the `weight` accessor and the two `RelayWeight`
/// variants; any future variant becomes `Other`.
#[verifier::external_body]
fn rs_weight(rs: &tor_netdoc::doc::netstatus::MdRouterStatus) -> (r: WeightInfo) {
    match rs.weight() {
        RelayWeight::Measured(w) => WeightInfo::Measured(*w),
        RelayWeight::Unmeasured(w) => WeightInfo::Unmeasured(*w),
        _ => WeightInfo::Other,
    }
}

/// Relies on `md_digest`: the secondary document digest is exactly
/// thirty-two bytes.
#[verifier::external_body]
fn rs_md_digest(rs: &tor_netdoc::doc::netstatus::MdRouterStatus) -> (r: Vec<u8>)
    ensures
        r@.len() == 32,
{
    rs.md_digest().to_vec()
}

/// Relies on `MicrodescReader`: whether a reader can be constructed
/// is a function of the text alone; each successfully parsed
/// document is collected and per-document parse failures are
/// skipped.
#[verifier::external_body]
fn collect_microdescs(text: &str) -> (r: Option<Vec<tor_netdoc::doc::microdesc::MicrodescAndHash>>)
    ensures
        (r is Some) == microdescs_readable(text@),
        r matches Some(v) ==> v@.len() == microdesc_count(text@),
{
    let reader = match MicrodescReader::new(text, &tor_netdoc::AllowAnnotations::AnnotationsNotAllowed) {
        Ok(r) => r,
        Err(_) => return None,
    };
    Some(reader.flatten().map(|a| a.into_microdesc()).collect())
}

/// Relies on the public `sha256` field: the document's digest is
/// exactly thirty-two bytes.
#[verifier::external_body]
fn md_sha256(md: &tor_netdoc::doc::microdesc::MicrodescAndHash) -> (r: Vec<u8>)
    ensures
        r@.len() == 32,
{
    md.sha256.to_vec()
}

/// Relies on `ntor_key` and `PublicKey::as_bytes`: a curve25519
/// public key is exactly thirty-two bytes.
#[verifier::external_body]
fn md_ntor_key(md: &tor_netdoc::doc::microdesc::MicrodescAndHash) -> (r: Vec<u8>)
    ensures
        r@.len() == 32,
{
    md.md.ntor_key().as_bytes().to_vec()
}

/// Relies on `ed25519_id` and `Ed25519Identity::as_bytes`: an ed25519
/// identity is exactly thirty-two bytes.
#[verifier::external_body]
fn md_ed25519_id(md: &tor_netdoc::doc::microdesc::MicrodescAndHash) -> (r: Vec<u8>)
    ensures
        r@.len() == 32,
{
    md.md.ed25519_id().as_bytes().to_vec()
}

/// The numeric weight of a relay: whichever of the measured or
/// unmeasured variants the entry carries, and zero for a variant with
/// no usable number.
pub open spec fn weight_of(w: WeightInfo) -> u32 {
    match w {
        WeightInfo::Measured(x) => x,
        WeightInfo::Unmeasured(x) => x,
        WeightInfo::Other => 0,
    }
}

/// Select the numeric weight of a relay entry.
pub fn weight_value(w: &WeightInfo) -> (r: u32)
    ensures
        r == weight_of(*w),
{
    match w {
        WeightInfo::Measured(x) => *x,
        WeightInfo::Unmeasured(x) => *x,
        WeightInfo::Other => 0,
    }
}

/// The dotted-decimal text of an IPv4 address.
pub open spec fn ipv4_chars(a: u8, b: u8, c: u8, d: u8) -> Seq<char> {
    dec_of(a as nat) + "."@ + dec_of(b as nat) + "."@ + dec_of(c as nat) + "."@ + dec_of(d as nat)
}

/// Render an IPv4 address from its octets in dotted decimal.
pub fn format_ipv4(a: u8, b: u8, c: u8, d: u8) -> (r: String)
    ensures
        r@ == ipv4_chars(a, b, c, d),
{
    let mut s = format_u64(a as u64);
    s.append(".");
    let sb = format_u64(b as u64);
    s.append(sb.as_str());
    s.append(".");
    let sc = format_u64(c as u64);
    s.append(sc.as_str());
    s.append(".");
    let sd = format_u64(d as u64);
    s.append(sd.as_str());
    proof {
        assert(s@ =~= ipv4_chars(a, b, c, d));
    }
    s
}

/// Build one relay from the plain fields of its router status entry:
/// hex fingerprint and document digest, the flag vocabulary, the
/// selected weight, and an empty handshake key awaiting resolution.
pub fn relay_from_status(
    identity: &Vec<u8>,
    nickname: String,
    address: String,
    or_port: u16,
    flags: &RelayFlagSet,
    weight: &WeightInfo,
    md_digest: &Vec<u8>,
) -> (r: Relay)
    ensures
        r@.fingerprint == hex_of(identity@),
        r@.fingerprint.len() == 2 * identity@.len(),
        r@.nickname == nickname@,
        r@.address == address@,
        r@.or_port == or_port,
        r@.flags == flag_names(*flags),
        r@.ntor_onion_key.len() == 0,
        r@.consensus_weight == weight_of(*weight),
        r@.bandwidth == weight_of(*weight) as u64,
        r@.microdescriptor_hash == hex_of(md_digest@),
        r@.microdescriptor_hash.len() == 2 * md_digest@.len(),
        r@.ed25519_identity is None,
{
    proof {
        lemma_hex_of_len(identity@);
        lemma_hex_of_len(md_digest@);
    }
    let fingerprint = hex_encode(identity);
    let flag_vec = flag_strings(flags);
    let w = weight_value(weight);
    let hash = hex_encode(md_digest);
    let mut relay = Relay::new(
        fingerprint,
        nickname,
        address,
        or_port,
        flag_vec,
        String::new(),
    );
    relay.consensus_weight = w;
    relay.microdescriptor_hash = hash;
    relay.bandwidth = w as u64;
    relay
}

/// One parsed secondary document, reduced to hex text: its own
/// digest, the handshake key it carries, and the optional long-term
/// identity key.
#[derive(Debug)]
pub struct MicrodescInfo {
    /// Hex digest of the document text.
    pub digest: String,
    /// Hex curve25519 handshake key.
    pub ntor_key: String,
    /// Hex ed25519 identity.
    pub ed_id: String,
}

/// The mathematical model of one parsed secondary document.
pub ghost struct MicrodescInfoModel {
    pub digest: Seq<char>,
    pub ntor_key: Seq<char>,
    pub ed_id: Seq<char>,
}

impl View for MicrodescInfo {
    type V = MicrodescInfoModel;

    open spec fn view(&self) -> MicrodescInfoModel {
        MicrodescInfoModel { digest: self.digest@, ntor_key: self.ntor_key@, ed_id: self.ed_id@ }
    }
}

impl DeepView for MicrodescInfo {
    type V = MicrodescInfoModel;

    open spec fn deep_view(&self) -> MicrodescInfoModel {
        self.view()
    }
}

/// Parse a batch of secondary documents. Documents that fail to parse
/// individually are skipped; a payload on which no reader can be
/// constructed yields `None`. Every document handed back carries a
/// sixty-four character digest and key, so a resolved handshake key
/// is never empty.
pub fn parse_microdescriptors(text: &str) -> (r: Option<Vec<MicrodescInfo>>)
    ensures
        (r is Some) == microdescs_readable(text@),
        r matches Some(infos) ==> infos@.len() == microdesc_count(text@),
        r matches Some(infos) ==> forall|i: int|
            0 <= i < infos@.len() ==> (#[trigger] infos@[i])@.digest.len() == 64
                && infos@[i]@.ntor_key.len() == 64 && infos@[i]@.ed_id.len() == 64,
{
    match collect_microdescs(text) {
        None => None,
        Some(mds) => {
            let mut infos: Vec<MicrodescInfo> = Vec::new();
            let mut i: usize = 0;
            while i < mds.len()
                invariant
                    i <= mds@.len(),
                    infos@.len() == i,
                    forall|j: int|
                        0 <= j < infos@.len() ==> (#[trigger] infos@[j])@.digest.len() == 64
                            && infos@[j]@.ntor_key.len() == 64 && infos@[j]@.ed_id.len() == 64,
                decreases mds@.len() - i,
            {
                let md = &mds[i];
                let dig = md_sha256(md);
                let ntor = md_ntor_key(md);
                let ed = md_ed25519_id(md);
                proof {
                    lemma_hex_of_len(dig@);
                    lemma_hex_of_len(ntor@);
                    lemma_hex_of_len(ed@);
                }
                infos.push(
                    MicrodescInfo {
                        digest: hex_encode(&dig),
                        ntor_key: hex_encode(&ntor),
                        ed_id: hex_encode(&ed),
                    },
                );
                i = i + 1;
            }
            Some(infos)
        },
    }
}

/// Parse the primary consensus document: one relay per listed router
/// status entry, keyed for later resolution by the hex digest of its
/// secondary document, which is also handed back paired with the
/// relay's fingerprint.
pub fn parse_consensus(text: &str) -> (r: Result<(Vec<Relay>, Vec<(String, String)>), TorError>)
    ensures
        (r is Ok) == md_consensus_ok(text@),
        r matches Err(e) ==> e is Parse,
        r matches Ok(p) ==> p.0@.len() == md_relay_count(text@),
        r matches Ok(p) ==> p.0@.len() == p.1@.len() && forall|i: int|
            0 <= i < p.0@.len() ==> (#[trigger] p.0@[i])@.fingerprint.len() == 40
                && p.0@[i]@.microdescriptor_hash.len() == 64 && p.0@[i]@.ntor_onion_key.len() == 0
                && p.0@[i]@.ed25519_identity is None && p.0@[i]@.bandwidth == p.0@[
                i
            ]@.consensus_weight as u64 && p.1@[i].0@ == p.0@[i]@.fingerprint && p.1@[i].1@ == p.0@[
                i
            ]@.microdescriptor_hash,
{
    match parse_md_consensus(text) {
        Err(msg) => Err(TorError::Parse(msg)),
        Ok(rss) => {
            let mut relays: Vec<Relay> = Vec::new();
            let mut digests: Vec<(String, String)> = Vec::new();
            let mut i: usize = 0;
            while i < rss.len()
                invariant
                    i <= rss@.len(),
                    relays@.len() == i,
                    digests@.len() == i,
                    forall|j: int|
                        0 <= j < i ==> (#[trigger] relays@[j])@.fingerprint.len() == 40
                            && relays@[j]@.microdescriptor_hash.len() == 64
                            && relays@[j]@.ntor_onion_key.len() == 0
                            && relays@[j]@.ed25519_identity is None && relays@[j]@.bandwidth
                            == relays@[j]@.consensus_weight as u64 && digests@[j].0@ == relays@[
                            j
                        ]@.fingerprint && digests@[j].1@ == relays@[j]@.microdescriptor_hash,
                decreases rss@.len() - i,
            {
                let rs = &rss[i];
                let identity = rs_identity(rs);
                let nickname = rs_nickname(rs);
                let octets = rs_ip_octets(rs);
                let address = format_ipv4(octets.0, octets.1, octets.2, octets.3);
                let port = rs_or_port(rs);
                let flags = rs_flag_set(rs);
                let weight = rs_weight(rs);
                let digest = rs_md_digest(rs);
                let relay = relay_from_status(
                    &identity,
                    nickname,
                    address,
                    port,
                    &flags,
                    &weight,
                    &digest,
                );
                let fp = relay.fingerprint.clone();
                let dh = relay.microdescriptor_hash.clone();
                relays.push(relay);
                digests.push((fp, dh));
                i = i + 1;
            }
            Ok((relays, digests))
        },
    }
}

} // verus!
