//! One network relay as listed by the directory, and the fixed
//! vocabulary of status flags a consensus can assign to it.

use vstd::prelude::*;
use vstd::string::*;

verus! {

/// The status flags of one relay, with membership semantics: a field
/// is true iff the consensus lists the corresponding flag.
#[derive(Clone, Copy, Debug, PartialEq, Eq, Structural)]
pub struct RelayFlagSet {
    pub authority: bool,
    pub bad_exit: bool,
    pub exit: bool,
    pub fast: bool,
    pub guard: bool,
    pub hsdir: bool,
    pub stable: bool,
    pub running: bool,
    pub valid: bool,
    pub v2dir: bool,
}

/// `names` with `name` appended when `present` holds, else `names`
/// unchanged.
pub open spec fn with_flag(names: Seq<Seq<char>>, present: bool, name: Seq<char>) -> Seq<
    Seq<char>,
> {
    if present {
        names.push(name)
    } else {
        names
    }
}

/// The flag names of `f`, in the fixed vocabulary order.
pub open spec fn flag_names(f: RelayFlagSet) -> Seq<Seq<char>> {
    with_flag(
        with_flag(
            with_flag(
                with_flag(
                    with_flag(
                        with_flag(
                            with_flag(
                                with_flag(
                                    with_flag(
                                        with_flag(Seq::empty(), f.authority, "Authority"@),
                                        f.bad_exit,
                                        "BadExit"@,
                                    ),
                                    f.exit,
                                    "Exit"@,
                                ),
                                f.fast,
                                "Fast"@,
                            ),
                            f.guard,
                            "Guard"@,
                        ),
                        f.hsdir,
                        "HSDir"@,
                    ),
                    f.stable,
                    "Stable"@,
                ),
                f.running,
                "Running"@,
            ),
            f.valid,
            "Valid"@,
        ),
        f.v2dir,
        "V2Dir"@,
    )
}

/// Append `name` to the list when `present` holds, mirroring
/// [`with_flag`].
fn push_flag(v: &mut Vec<String>, present: bool, name: &str)
    ensures
        final(v).deep_view() == with_flag(old(v).deep_view(), present, name@),
{
    if present {
        v.push(String::from_str(name));
    }
    proof {
        assert(v.deep_view() =~= with_flag(old(v).deep_view(), present, name@));
    }
}

/// Render the flag set as its list of flag name strings, in the fixed
/// vocabulary order.
pub fn flag_strings(f: &RelayFlagSet) -> (r: Vec<String>)
    ensures
        r.deep_view() == flag_names(*f),
{
    let mut v: Vec<String> = Vec::new();
    proof {
        assert(v.deep_view() =~= Seq::<Seq<char>>::empty());
    }
    push_flag(&mut v, f.authority, "Authority");
    push_flag(&mut v, f.bad_exit, "BadExit");
    push_flag(&mut v, f.exit, "Exit");
    push_flag(&mut v, f.fast, "Fast");
    push_flag(&mut v, f.guard, "Guard");
    push_flag(&mut v, f.hsdir, "HSDir");
    push_flag(&mut v, f.stable, "Stable");
    push_flag(&mut v, f.running, "Running");
    push_flag(&mut v, f.valid, "Valid");
    push_flag(&mut v, f.v2dir, "V2Dir");
    v
}

/// The mathematical model of one relay: every field of [`Relay`]
/// abstracted to its view.
pub ghost struct RelayModel {
    pub fingerprint: Seq<char>,
    pub nickname: Seq<char>,
    pub address: Seq<char>,
    pub or_port: u16,
    pub flags: Seq<Seq<char>>,
    pub ntor_onion_key: Seq<char>,
    pub consensus_weight: u32,
    pub microdescriptor_hash: Seq<char>,
    pub bandwidth: u64,
    pub ed25519_identity: Option<Seq<char>>,
}

impl RelayModel {
    /// A relay is usable iff its handshake key has been resolved.
    pub open spec fn usable(self) -> bool {
        self.ntor_onion_key.len() > 0
    }

    /// The same relay with its two key fields replaced.
    pub open spec fn with_keys(self, ntor: Seq<char>, ed: Seq<char>) -> RelayModel {
        RelayModel { ntor_onion_key: ntor, ed25519_identity: Some(ed), ..self }
    }
}

/// One relay of the network, as assembled from the primary directory
/// document and, later, its secondary key document.
///
/// A relay is usable only once `ntor_onion_key` is non-empty; the
/// directory logic never hands an unusable relay to its consumers.
#[derive(Debug)]
pub struct Relay {
    /// Hex identity digest.
    pub fingerprint: String,
    /// Display nickname.
    pub nickname: String,
    /// Network address.
    pub address: String,
    /// Handshake port.
    pub or_port: u16,
    /// Status flag names, in the fixed vocabulary order.
    pub flags: Vec<String>,
    /// Hex handshake public key; empty until the secondary document
    /// with the matching digest has been resolved.
    pub ntor_onion_key: String,
    /// Consensus-assigned selection weight.
    pub consensus_weight: u32,
    /// Hex digest of the secondary document carrying the handshake key.
    pub microdescriptor_hash: String,
    /// Observed bandwidth.
    pub bandwidth: u64,
    /// Optional secondary long-term identity key, in hex.
    pub ed25519_identity: Option<String>,
}

impl View for Relay {
    type V = RelayModel;

    open spec fn view(&self) -> RelayModel {
        RelayModel {
            fingerprint: self.fingerprint@,
            nickname: self.nickname@,
            address: self.address@,
            or_port: self.or_port,
            flags: self.flags.deep_view(),
            ntor_onion_key: self.ntor_onion_key@,
            consensus_weight: self.consensus_weight,
            microdescriptor_hash: self.microdescriptor_hash@,
            bandwidth: self.bandwidth,
            ed25519_identity: match self.ed25519_identity {
                Some(s) => Some(s@),
                None => None,
            },
        }
    }
}

impl DeepView for Relay {
    type V = RelayModel;

    open spec fn deep_view(&self) -> RelayModel {
        self.view()
    }
}

impl Clone for Relay {
    /// Cloning a relay preserves its model exactly.
    fn clone(&self) -> (r: Relay)
        ensures
            r@ == self@,
    {
        let r = Relay {
            fingerprint: self.fingerprint.clone(),
            nickname: self.nickname.clone(),
            address: self.address.clone(),
            or_port: self.or_port,
            flags: clone_strings(&self.flags),
            ntor_onion_key: self.ntor_onion_key.clone(),
            consensus_weight: self.consensus_weight,
            microdescriptor_hash: self.microdescriptor_hash.clone(),
            bandwidth: self.bandwidth,
            ed25519_identity: clone_opt_string(&self.ed25519_identity),
        };
        r
    }
}

/// Clone a vector of strings, preserving its elements exactly.
pub fn clone_strings(v: &Vec<String>) -> (r: Vec<String>)
    ensures
        r@ == v@,
{
    let mut out: Vec<String> = Vec::new();
    let mut i: usize = 0;
    while i < v.len()
        invariant
            i <= v@.len(),
            out@ =~= v@.take(i as int),
        decreases v@.len() - i,
    {
        out.push(v[i].clone());
        i = i + 1;
        proof {
            assert(out@ =~= v@.take(i as int));
        }
    }
    proof {
        assert(out@ =~= v@);
    }
    out
}

/// Clone an optional string, preserving it exactly.
pub fn clone_opt_string(v: &Option<String>) -> (r: Option<String>)
    ensures
        r == *v,
{
    match v {
        Some(s) => Some(s.clone()),
        None => None,
    }
}

impl Relay {
    /// Create a relay from the primary document's fields, with no
    /// handshake key resolved yet.
    pub fn new(
        fingerprint: String,
        nickname: String,
        address: String,
        or_port: u16,
        flags: Vec<String>,
        ntor_onion_key: String,
    ) -> (r: Relay)
        ensures
            r@.fingerprint == fingerprint@,
            r@.nickname == nickname@,
            r@.address == address@,
            r@.or_port == or_port,
            r@.flags == flags.deep_view(),
            r@.ntor_onion_key == ntor_onion_key@,
            r@.consensus_weight == 0,
            r@.microdescriptor_hash == Seq::<char>::empty(),
            r@.bandwidth == 0,
            r@.ed25519_identity is None,
    {
        Relay {
            fingerprint,
            nickname,
            address,
            or_port,
            flags,
            ntor_onion_key,
            consensus_weight: 0,
            microdescriptor_hash: String::new(),
            bandwidth: 0,
            ed25519_identity: None,
        }
    }

    /// True iff the handshake key has been resolved.
    pub fn is_usable(&self) -> (r: bool)
        ensures
            r == self@.usable(),
    {
        !self.ntor_onion_key.as_str().is_empty()
    }
}

} // verus!
