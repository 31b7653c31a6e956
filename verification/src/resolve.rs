//! Digest-keyed correlation between the two document sets: mapping
//! secondary-document digests back to relay fingerprints, merging
//! resolved handshake keys into the relay list, and dropping every
//! relay whose key was never resolved.
//!
//! The mapping is read-only once merging begins; digests are assumed
//! unique in a well-formed directory, and a collision silently keeps
//! only the later mapping.

use vstd::prelude::*;
use vstd::pervasive::VecAdditionalExecFns;
use vstd::string::*;
use crate::netdoc::{MicrodescInfo, MicrodescInfoModel};
use crate::relay::{Relay, RelayModel};

verus! {

/// Reverse each (fingerprint, digest) pair into a (digest,
/// fingerprint) entry of the correlation map, keeping document order.
pub fn digest_map(pairs: &Vec<(String, String)>) -> (m: Vec<(String, String)>)
    ensures
        m.deep_view().len() == pairs.deep_view().len(),
        forall|i: int|
            0 <= i < pairs.deep_view().len() ==> (#[trigger] m.deep_view()[i]).0
                == pairs.deep_view()[i].1 && m.deep_view()[i].1 == pairs.deep_view()[i].0,
{
    let mut m: Vec<(String, String)> = Vec::new();
    let mut i: usize = 0;
    while i < pairs.len()
        invariant
            i <= pairs@.len(),
            m.deep_view().len() == i,
            forall|j: int|
                0 <= j < i ==> (#[trigger] m.deep_view()[j]).0 == pairs.deep_view()[j].1
                    && m.deep_view()[j].1 == pairs.deep_view()[j].0,
        decreases pairs@.len() - i,
    {
        let p = &pairs[i];
        let ghost pre = m.deep_view();
        let ghost vecpre = m@;
        m.push((p.1.clone(), p.0.clone()));
        proof {
            assert(m.deep_view()[i as int].0 == pairs.deep_view()[i as int].1);
            assert(m.deep_view()[i as int].1 == pairs.deep_view()[i as int].0);
            assert forall|j: int| 0 <= j < i implies (#[trigger] m.deep_view()[j]) == pre[j] by {
                assert(m@[j] == vecpre[j]);
                assert(m.deep_view()[j] == m@[j].deep_view());
                assert(pre[j] == vecpre[j].deep_view());
            }
        }
        i = i + 1;
    }
    m
}

/// The fingerprint the map assigns to digest `d`: the latest entry
/// wins, so a digest collision silently keeps only one mapping.
pub open spec fn lookup_fp(m: Seq<(Seq<char>, Seq<char>)>, d: Seq<char>) -> Option<Seq<char>>
    decreases m.len(),
{
    if m.len() == 0 {
        None
    } else if m.last().0 == d {
        Some(m.last().1)
    } else {
        lookup_fp(m.drop_last(), d)
    }
}

/// Look a digest up in the correlation map.
pub fn lookup_fingerprint(m: &Vec<(String, String)>, d: &String) -> (r: Option<String>)
    ensures
        match r {
            Some(fp) => lookup_fp(m.deep_view(), d@) == Some(fp@),
            None => lookup_fp(m.deep_view(), d@) is None,
        },
{
    let mut idx: usize = m.len();
    proof {
        assert(m.deep_view().take(idx as int) =~= m.deep_view());
    }
    while idx > 0
        invariant
            idx <= m@.len(),
            lookup_fp(m.deep_view(), d@) == lookup_fp(m.deep_view().take(idx as int), d@),
        decreases idx,
    {
        let pair = &m[idx - 1];
        proof {
            assert(m.deep_view().take(idx as int).last() == m.deep_view()[idx - 1]);
        }
        if pair.0 == *d {
            return Some(pair.1.clone());
        }
        proof {
            assert(m.deep_view().take(idx as int).drop_last() =~= m.deep_view().take(idx - 1));
        }
        idx = idx - 1;
    }
    None
}

/// The first index at or after `i` whose relay has fingerprint `fp`.
pub open spec fn find_fp_from(relays: Seq<RelayModel>, fp: Seq<char>, i: int) -> Option<int>
    decreases relays.len() - i,
{
    if i < 0 || i >= relays.len() {
        None
    } else if relays[i].fingerprint == fp {
        Some(i)
    } else {
        find_fp_from(relays, fp, i + 1)
    }
}

/// The first index whose relay has fingerprint `fp`.
pub open spec fn find_fp(relays: Seq<RelayModel>, fp: Seq<char>) -> Option<int> {
    find_fp_from(relays, fp, 0)
}

/// A found index lies in bounds and carries the fingerprint.
pub proof fn lemma_find_fp_props(relays: Seq<RelayModel>, fp: Seq<char>, i: int)
    requires
        0 <= i,
    ensures
        match find_fp_from(relays, fp, i) {
            Some(j) => i <= j < relays.len() && relays[j].fingerprint == fp,
            None => forall|k: int| i <= k < relays.len() ==> relays[k].fingerprint != fp,
        },
    decreases relays.len() - i,
{
    if i < relays.len() && relays[i].fingerprint != fp {
        lemma_find_fp_props(relays, fp, i + 1);
    }
}

/// Two relay lists with pointwise equal fingerprints are searched
/// identically.
pub proof fn lemma_find_fp_congruence(
    r1: Seq<RelayModel>,
    r2: Seq<RelayModel>,
    fp: Seq<char>,
    i: int,
)
    requires
        r1.len() == r2.len(),
        forall|j: int| 0 <= j < r1.len() ==> (#[trigger] r1[j]).fingerprint == r2[j].fingerprint,
    ensures
        find_fp_from(r1, fp, i) == find_fp_from(r2, fp, i),
    decreases r1.len() - i,
{
    if 0 <= i < r1.len() {
        lemma_find_fp_congruence(r1, r2, fp, i + 1);
    }
}

/// Find the first relay with fingerprint `fp`.
pub fn find_relay_index(relays: &Vec<Relay>, fp: &String) -> (r: Option<usize>)
    ensures
        match r {
            Some(j) => find_fp(relays.deep_view(), fp@) == Some(j as int),
            None => find_fp(relays.deep_view(), fp@) is None,
        },
{
    let mut i: usize = 0;
    while i < relays.len()
        invariant
            i <= relays@.len(),
            find_fp(relays.deep_view(), fp@) == find_fp_from(relays.deep_view(), fp@, i as int),
        decreases relays@.len() - i,
    {
        let rel = &relays[i];
        if rel.fingerprint == *fp {
            return Some(i);
        }
        i = i + 1;
    }
    None
}

/// Merge one resolved document into the relay list: the relay whose
/// fingerprint the map assigns to the document's digest, if any,
/// receives the document's keys; everything else is untouched.
pub open spec fn apply_one(
    relays: Seq<RelayModel>,
    info: MicrodescInfoModel,
    m: Seq<(Seq<char>, Seq<char>)>,
) -> Seq<RelayModel> {
    match lookup_fp(m, info.digest) {
        None => relays,
        Some(fp) => match find_fp(relays, fp) {
            None => relays,
            Some(j) => relays.update(j, relays[j].with_keys(info.ntor_key, info.ed_id)),
        },
    }
}

/// Merge a sequence of resolved documents, in order.
pub open spec fn apply_seq(
    relays: Seq<RelayModel>,
    infos: Seq<MicrodescInfoModel>,
    m: Seq<(Seq<char>, Seq<char>)>,
) -> Seq<RelayModel>
    decreases infos.len(),
{
    if infos.len() == 0 {
        relays
    } else {
        apply_seq(apply_one(relays, infos[0], m), infos.skip(1), m)
    }
}

/// Merging a sequence then one more document is merging the extended
/// sequence.
pub proof fn lemma_apply_seq_snoc(
    relays: Seq<RelayModel>,
    infos: Seq<MicrodescInfoModel>,
    x: MicrodescInfoModel,
    m: Seq<(Seq<char>, Seq<char>)>,
)
    ensures
        apply_seq(relays, infos.push(x), m) == apply_one(apply_seq(relays, infos, m), x, m),
    decreases infos.len(),
{
    if infos.len() == 0 {
        assert(infos.push(x)[0] == x);
        assert(infos.push(x).skip(1) =~= Seq::<MicrodescInfoModel>::empty());
        assert(apply_seq(apply_one(relays, x, m), Seq::<MicrodescInfoModel>::empty(), m)
            == apply_one(relays, x, m));
        assert(apply_seq(relays, infos, m) == relays);
    } else {
        assert(infos.push(x)[0] == infos[0]);
        assert(infos.push(x).skip(1) =~= infos.skip(1).push(x));
        lemma_apply_seq_snoc(apply_one(relays, infos[0], m), infos.skip(1), x, m);
    }
}

/// Merging two sequences in turn is merging their concatenation.
pub proof fn lemma_apply_seq_concat(
    relays: Seq<RelayModel>,
    s1: Seq<MicrodescInfoModel>,
    s2: Seq<MicrodescInfoModel>,
    m: Seq<(Seq<char>, Seq<char>)>,
)
    ensures
        apply_seq(relays, s1 + s2, m) == apply_seq(apply_seq(relays, s1, m), s2, m),
    decreases s1.len(),
{
    if s1.len() == 0 {
        assert(s1 + s2 =~= s2);
    } else {
        assert((s1 + s2)[0] == s1[0]);
        assert((s1 + s2).skip(1) =~= s1.skip(1) + s2);
        lemma_apply_seq_concat(apply_one(relays, s1[0], m), s1.skip(1), s2, m);
    }
}

/// Merge a batch of resolved documents into the relay list in place.
pub fn apply_microdescs(
    relays: &mut Vec<Relay>,
    infos: &Vec<MicrodescInfo>,
    m: &Vec<(String, String)>,
)
    ensures
        final(relays).deep_view() == apply_seq(
            old(relays).deep_view(),
            infos.deep_view(),
            m.deep_view(),
        ),
{
    let ghost r0 = relays.deep_view();
    let ghost mm = m.deep_view();
    let mut k: usize = 0;
    while k < infos.len()
        invariant
            k <= infos@.len(),
            mm == m.deep_view(),
            relays.deep_view() == apply_seq(r0, infos.deep_view().take(k as int), mm),
        decreases infos@.len() - k,
    {
        let info = &infos[k];
        let ghost pre = relays.deep_view();
        match lookup_fingerprint(m, &info.digest) {
            None => {},
            Some(fp) => {
                match find_relay_index(relays, &fp) {
                    None => {},
                    Some(j) => {
                        proof {
                            lemma_find_fp_props(pre, fp@, 0);
                            assert(pre.len() == relays@.len());
                        }
                        let base = relays[j].clone();
                        let updated = Relay {
                            ntor_onion_key: info.ntor_key.clone(),
                            ed25519_identity: Some(info.ed_id.clone()),
                            ..base
                        };
                        proof {
                            assert(updated@ == pre[j as int].with_keys(info@.ntor_key, info@.ed_id));
                        }
                        relays.set(j, updated);
                        proof {
                            assert(relays.deep_view() =~= pre.update(
                                j as int,
                                pre[j as int].with_keys(info@.ntor_key, info@.ed_id),
                            ));
                        }
                    },
                }
            },
        }
        proof {
            assert(relays.deep_view() == apply_one(pre, infos.deep_view()[k as int], mm));
            lemma_apply_seq_snoc(r0, infos.deep_view().take(k as int), infos.deep_view()[k as int], mm);
            assert(infos.deep_view().take(k as int).push(infos.deep_view()[k as int])
                =~= infos.deep_view().take(k + 1));
        }
        k = k + 1;
    }
    proof {
        assert(infos.deep_view().take(infos@.len() as int) =~= infos.deep_view());
    }
}

/// The usable relays, in order: those whose handshake key has been
/// resolved.
pub open spec fn usable_filter(relays: Seq<RelayModel>) -> Seq<RelayModel> {
    relays.filter(|r: RelayModel| r.usable())
}

/// Drop every relay whose handshake key is still empty; a relay that
/// was never resolved is unusable for circuit building and must not
/// be returned.
pub fn filter_usable(relays: Vec<Relay>) -> (r: Vec<Relay>)
    ensures
        r.deep_view() == usable_filter(relays.deep_view()),
{
    let ghost dv = relays.deep_view();
    let mut out: Vec<Relay> = Vec::new();
    proof {
        reveal(Seq::filter);
        assert(out.deep_view() =~= Seq::<RelayModel>::empty());
        assert(dv.take(0) =~= Seq::<RelayModel>::empty());
    }
    let mut i: usize = 0;
    while i < relays.len()
        invariant
            i <= relays@.len(),
            dv == relays.deep_view(),
            out.deep_view() == usable_filter(dv.take(i as int)),
        decreases relays@.len() - i,
    {
        let rel = &relays[i];
        if rel.is_usable() {
            out.push(rel.clone());
        }
        proof {
            reveal(Seq::filter);
            assert(dv.take(i + 1).drop_last() =~= dv.take(i as int));
            assert(dv.take(i + 1).last() == dv[i as int]);
        }
        i = i + 1;
    }
    proof {
        assert(dv.take(relays@.len() as int) =~= dv);
    }
    out
}

/// How many digests one compound secondary-document request may
/// name: the request path length is itself bounded.
pub const BATCH_SIZE: usize = 92;

/// The digests of a batch joined by the fixed `-` separator.
pub open spec fn join_dash(parts: Seq<Seq<char>>) -> Seq<char>
    decreases parts.len(),
{
    if parts.len() == 0 {
        Seq::<char>::empty()
    } else if parts.len() == 1 {
        parts[0]
    } else {
        join_dash(parts.drop_last()) + "-"@ + parts.last()
    }
}

/// Join the digests of `v` in positions `lo..hi` with `-`.
pub fn join_digests(v: &Vec<String>, lo: usize, hi: usize) -> (r: String)
    requires
        lo <= hi <= v@.len(),
    ensures
        r@ == join_dash(v.deep_view().subrange(lo as int, hi as int)),
{
    let mut s = String::new();
    proof {
        assert(v.deep_view().subrange(lo as int, lo as int) =~= Seq::<Seq<char>>::empty());
    }
    let mut k: usize = lo;
    while k < hi
        invariant
            lo <= k <= hi <= v@.len(),
            s@ == join_dash(v.deep_view().subrange(lo as int, k as int)),
        decreases hi - k,
    {
        if k > lo {
            s.append("-");
        }
        s.append(v[k].as_str());
        proof {
            let dv = v.deep_view();
            let sub1 = dv.subrange(lo as int, k + 1);
            assert(sub1.drop_last() =~= dv.subrange(lo as int, k as int));
            assert(sub1.last() == dv[k as int]);
            assert(s@ =~= join_dash(sub1));
        }
        k = k + 1;
    }
    s
}

/// The URLs of the batched secondary-document requests against one
/// prefix, taken chunk by chunk of at most [`BATCH_SIZE`] digests.
pub open spec fn batch_urls(prefix: Seq<char>, ds: Seq<Seq<char>>) -> Seq<Seq<char>>
    decreases ds.len(),
{
    if ds.len() == 0 {
        Seq::<Seq<char>>::empty()
    } else {
        let hi = if ds.len() <= BATCH_SIZE as int {
            ds.len() as int
        } else {
            BATCH_SIZE as int
        };
        seq![prefix + join_dash(ds.take(hi))] + batch_urls(prefix, ds.skip(hi))
    }
}

/// Build the batched secondary-document request URLs for `digests`
/// against the source whose URL prefix is `prefix` (scheme, address,
/// port and the fixed secondary-document path).
pub fn microdesc_batch_urls(prefix: &String, digests: &Vec<String>) -> (r: Vec<String>)
    ensures
        r.deep_view() == batch_urls(prefix@, digests.deep_view()),
{
    let ghost dv = digests.deep_view();
    let mut out: Vec<String> = Vec::new();
    proof {
        assert(dv.skip(0) =~= dv);
        assert(out.deep_view() =~= Seq::<Seq<char>>::empty());
    }
    let mut i: usize = 0;
    while i < digests.len()
        invariant
            i <= digests@.len(),
            dv == digests.deep_view(),
            batch_urls(prefix@, dv) == out.deep_view() + batch_urls(prefix@, dv.skip(i as int)),
        decreases digests@.len() - i,
    {
        let hi = if digests.len() - i > BATCH_SIZE {
            i + BATCH_SIZE
        } else {
            digests.len()
        };
        let joined = join_digests(digests, i, hi);
        let mut url = prefix.clone();
        url.append(joined.as_str());
        let ghost dpre = out.deep_view();
        let ghost vpre = out@;
        out.push(url);
        proof {
            let rest = dv.skip(i as int);
            assert(rest.len() > 0);
            let chunk: int = hi - i;
            assert(rest.take(chunk) =~= dv.subrange(i as int, hi as int));
            assert(rest.skip(chunk) =~= dv.skip(hi as int));
            assert forall|j: int| 0 <= j < vpre.len() implies (#[trigger] out.deep_view()[j])
                == dpre[j] by {
                assert(out@[j] == vpre[j]);
                assert(out.deep_view()[j] == out@[j].deep_view());
                assert(dpre[j] == vpre[j].deep_view());
            }
            assert(out.deep_view()[vpre.len() as int] == prefix@ + join_dash(
                dv.subrange(i as int, hi as int),
            ));
            assert(out.deep_view() =~= dpre.push(prefix@ + join_dash(rest.take(chunk))));
            assert(batch_urls(prefix@, rest) == seq![prefix@ + join_dash(rest.take(chunk))]
                + batch_urls(prefix@, rest.skip(chunk)));
            assert(out.deep_view() + batch_urls(prefix@, dv.skip(hi as int)) =~= dpre
                + batch_urls(prefix@, rest));
        }
        i = hi;
    }
    proof {
        assert(dv.skip(digests@.len() as int) =~= Seq::<Seq<char>>::empty());
        assert(batch_urls(prefix@, dv.skip(digests@.len() as int))
            =~= Seq::<Seq<char>>::empty());
        assert(out.deep_view() =~= out.deep_view() + Seq::<Seq<char>>::empty());
    }
    out
}

/// The documents a batch contributed: its parsed documents, or none
/// for a batch whose fetch or parse failed.
pub open spec fn batch_infos(b: Option<Seq<MicrodescInfoModel>>) -> Seq<MicrodescInfoModel> {
    match b {
        Some(s) => s,
        None => Seq::<MicrodescInfoModel>::empty(),
    }
}

/// All documents the successful batches contributed, in order.
pub open spec fn flatten_batches(batches: Seq<Option<Seq<MicrodescInfoModel>>>) -> Seq<
    MicrodescInfoModel,
>
    decreases batches.len(),
{
    if batches.len() == 0 {
        Seq::<MicrodescInfoModel>::empty()
    } else {
        batch_infos(batches[0]) + flatten_batches(batches.skip(1))
    }
}

/// One more batch contributes its documents at the end.
pub proof fn lemma_flatten_snoc(
    batches: Seq<Option<Seq<MicrodescInfoModel>>>,
    x: Option<Seq<MicrodescInfoModel>>,
)
    ensures
        flatten_batches(batches.push(x)) == flatten_batches(batches) + batch_infos(x),
    decreases batches.len(),
{
    if batches.len() == 0 {
        assert(batches.push(x)[0] == x);
        assert(batches.push(x).skip(1) =~= Seq::<Option<Seq<MicrodescInfoModel>>>::empty());
        assert(flatten_batches(Seq::<Option<Seq<MicrodescInfoModel>>>::empty())
            =~= Seq::<MicrodescInfoModel>::empty());
        assert(flatten_batches(batches.push(x)) =~= batch_infos(x)
            + Seq::<MicrodescInfoModel>::empty());
        assert(flatten_batches(batches.push(x)) =~= flatten_batches(batches) + batch_infos(x));
    } else {
        assert(batches.push(x)[0] == batches[0]);
        assert(batches.push(x).skip(1) =~= batches.skip(1).push(x));
        lemma_flatten_snoc(batches.skip(1), x);
        assert(flatten_batches(batches.push(x)) =~= flatten_batches(batches) + batch_infos(x));
    }
}

/// One whole resolution cycle after the primary parse: merge every
/// successful batch's documents into the relay list, in batch order,
/// then drop every relay whose handshake key is still empty. A failed
/// batch contributes nothing and is non-fatal.
pub fn resolve_relays(
    relays: Vec<Relay>,
    batches: &Vec<Option<Vec<MicrodescInfo>>>,
    m: &Vec<(String, String)>,
) -> (r: Vec<Relay>)
    ensures
        r.deep_view() == usable_filter(
            apply_seq(relays.deep_view(), flatten_batches(batches.deep_view()), m.deep_view()),
        ),
{
    let ghost r0 = relays.deep_view();
    let ghost mm = m.deep_view();
    let ghost bv = batches.deep_view();
    let mut rel = relays;
    proof {
        assert(bv.take(0) =~= Seq::<Option<Seq<MicrodescInfoModel>>>::empty());
        assert(flatten_batches(bv.take(0)) =~= Seq::<MicrodescInfoModel>::empty());
    }
    let mut i: usize = 0;
    while i < batches.len()
        invariant
            i <= batches@.len(),
            mm == m.deep_view(),
            bv == batches.deep_view(),
            rel.deep_view() == apply_seq(r0, flatten_batches(bv.take(i as int)), mm),
        decreases batches@.len() - i,
    {
        let ghost pre = rel.deep_view();
        match &batches[i] {
            None => {
                proof {
                    assert(bv[i as int] is None);
                    assert(batch_infos(bv[i as int]) =~= Seq::<MicrodescInfoModel>::empty());
                    assert(apply_seq(pre, batch_infos(bv[i as int]), mm) == pre);
                }
            },
            Some(infos) => {
                apply_microdescs(&mut rel, infos, m);
                proof {
                    assert(bv[i as int] == Some(infos.deep_view()));
                    assert(batch_infos(bv[i as int]) == infos.deep_view());
                }
            },
        }
        proof {
            assert(bv.take(i + 1) =~= bv.take(i as int).push(bv[i as int]));
            lemma_flatten_snoc(bv.take(i as int), bv[i as int]);
            lemma_apply_seq_concat(r0, flatten_batches(bv.take(i as int)), batch_infos(bv[i as int]), mm);
        }
        i = i + 1;
    }
    proof {
        assert(bv.take(batches@.len() as int) =~= bv);
    }
    filter_usable(rel)
}

/// Pairwise-distinct fingerprints: a well-formed directory lists
/// each relay once.
pub open spec fn distinct_fps(relays: Seq<RelayModel>) -> bool {
    forall|i1: int, i2: int|
        0 <= i1 < i2 < relays.len() ==> (#[trigger] relays[i1]).fingerprint != (
        #[trigger] relays[i2]).fingerprint
}

/// Every document whose key is resolved carries a non-empty
/// handshake key.
pub open spec fn all_keys_nonempty(infos: Seq<MicrodescInfoModel>) -> bool {
    forall|t: int| 0 <= t < infos.len() ==> (#[trigger] infos[t]).ntor_key.len() > 0
}

/// Merging one document preserves length and every fingerprint, and
/// changes a relay's key only to that document's key.
pub proof fn lemma_apply_one_shape(
    relays: Seq<RelayModel>,
    info: MicrodescInfoModel,
    m: Seq<(Seq<char>, Seq<char>)>,
)
    ensures
        apply_one(relays, info, m).len() == relays.len(),
        forall|j: int|
            0 <= j < relays.len() ==> (#[trigger] apply_one(relays, info, m)[j]).fingerprint
                == relays[j].fingerprint,
        forall|j: int|
            0 <= j < relays.len() ==> (#[trigger] apply_one(relays, info, m)[j]).ntor_onion_key
                == relays[j].ntor_onion_key || apply_one(relays, info, m)[j].ntor_onion_key
                == info.ntor_key,
{
    match lookup_fp(m, info.digest) {
        None => {},
        Some(fp) => {
            lemma_find_fp_props(relays, fp, 0);
        },
    }
}

/// With non-empty keys throughout, merging preserves length, every
/// fingerprint, and the usability of an already usable relay.
pub proof fn lemma_apply_seq_shape(
    relays: Seq<RelayModel>,
    infos: Seq<MicrodescInfoModel>,
    m: Seq<(Seq<char>, Seq<char>)>,
)
    requires
        all_keys_nonempty(infos),
    ensures
        apply_seq(relays, infos, m).len() == relays.len(),
        forall|j: int|
            0 <= j < relays.len() ==> (#[trigger] apply_seq(relays, infos, m)[j]).fingerprint
                == relays[j].fingerprint,
        forall|j: int|
            0 <= j < relays.len() && relays[j].usable() ==> (#[trigger] apply_seq(
                relays,
                infos,
                m,
            )[j]).usable(),
    decreases infos.len(),
{
    if infos.len() > 0 {
        let relays1 = apply_one(relays, infos[0], m);
        lemma_apply_one_shape(relays, infos[0], m);
        assert(all_keys_nonempty(infos.skip(1))) by {
            assert forall|t: int| 0 <= t < infos.skip(1).len() implies (#[trigger] infos.skip(
                1,
            )[t]).ntor_key.len() > 0 by {
                assert(infos.skip(1)[t] == infos[t + 1]);
            }
        }
        lemma_apply_seq_shape(relays1, infos.skip(1), m);
    }
}

/// A relay whose fingerprint no document resolves to is left exactly
/// as it was by the whole merge pass.
pub proof fn lemma_apply_seq_untouched(
    relays: Seq<RelayModel>,
    infos: Seq<MicrodescInfoModel>,
    m: Seq<(Seq<char>, Seq<char>)>,
    j: int,
)
    requires
        0 <= j < relays.len(),
        forall|t: int|
            0 <= t < infos.len() ==> lookup_fp(m, (#[trigger] infos[t]).digest) != Some(
                relays[j].fingerprint,
            ),
    ensures
        apply_seq(relays, infos, m).len() == relays.len(),
        apply_seq(relays, infos, m)[j] == relays[j],
    decreases infos.len(),
{
    if infos.len() > 0 {
        let relays1 = apply_one(relays, infos[0], m);
        lemma_apply_one_shape(relays, infos[0], m);
        assert(relays1[j] == relays[j]) by {
            match lookup_fp(m, infos[0].digest) {
                None => {},
                Some(fp) => {
                    assert(fp != relays[j].fingerprint);
                    lemma_find_fp_props(relays, fp, 0);
                },
            }
        }
        assert forall|t: int| 0 <= t < infos.skip(1).len() implies lookup_fp(
            m,
            (#[trigger] infos.skip(1)[t]).digest,
        ) != Some(relays1[j].fingerprint) by {
            assert(infos.skip(1)[t] == infos[t + 1]);
        }
        lemma_apply_seq_untouched(relays1, infos.skip(1), m, j);
    }
}

/// Every element of the usable filter is usable and occurs in the
/// unfiltered list.
pub proof fn lemma_usable_filter_members(s: Seq<RelayModel>)
    ensures
        forall|i: int|
            0 <= i < usable_filter(s).len() ==> (#[trigger] usable_filter(s)[i]).usable()
                && s.contains(usable_filter(s)[i]),
    decreases s.len(),
{
    reveal(Seq::filter);
    if s.len() > 0 {
        lemma_usable_filter_members(s.drop_last());
        let f = usable_filter(s);
        let fd = usable_filter(s.drop_last());
        assert forall|i: int| 0 <= i < f.len() implies (#[trigger] f[i]).usable() && s.contains(
            f[i],
        ) by {
            if i < fd.len() {
                assert(f[i] == fd[i]);
                let k = choose|k: int| 0 <= k < s.drop_last().len() && s.drop_last()[k] == fd[i];
                assert(s[k] == fd[i]);
            } else {
                assert(f[i] == s.last());
                assert(s[s.len() - 1] == s.last());
            }
        }
    }
}

/// A usable relay of the list occurs in the usable filter.
pub proof fn lemma_usable_filter_contains(s: Seq<RelayModel>, j: int)
    requires
        0 <= j < s.len(),
        s[j].usable(),
    ensures
        usable_filter(s).contains(s[j]),
    decreases s.len(),
{
    reveal(Seq::filter);
    let f = usable_filter(s);
    let fd = usable_filter(s.drop_last());
    if j == s.len() - 1 {
        assert(f[f.len() - 1] == s.last());
    } else {
        lemma_usable_filter_contains(s.drop_last(), j);
        let i = choose|i: int| 0 <= i < fd.len() && fd[i] == s.drop_last()[j];
        assert(f[i] == fd[i]);
        assert(s.drop_last()[j] == s[j]);
    }
}

/// Distinct fingerprints survive the usable filter.
pub proof fn lemma_usable_filter_distinct(s: Seq<RelayModel>)
    requires
        distinct_fps(s),
    ensures
        distinct_fps(usable_filter(s)),
    decreases s.len(),
{
    reveal(Seq::filter);
    if s.len() > 0 {
        assert(distinct_fps(s.drop_last())) by {
            assert forall|i1: int, i2: int|
                0 <= i1 < i2 < s.drop_last().len() implies (#[trigger] s.drop_last()[i1]).fingerprint
                != (#[trigger] s.drop_last()[i2]).fingerprint by {
                assert(s.drop_last()[i1] == s[i1]);
                assert(s.drop_last()[i2] == s[i2]);
            }
        }
        lemma_usable_filter_distinct(s.drop_last());
        lemma_usable_filter_members(s.drop_last());
        let f = usable_filter(s);
        let fd = usable_filter(s.drop_last());
        assert forall|i1: int, i2: int| 0 <= i1 < i2 < f.len() implies (
        #[trigger] f[i1]).fingerprint != (#[trigger] f[i2]).fingerprint by {
            if i2 < fd.len() {
                assert(f[i1] == fd[i1]);
                assert(f[i2] == fd[i2]);
            } else {
                assert(f[i2] == s.last());
                assert(f[i1] == fd[i1]);
                let k = choose|k: int|
                    0 <= k < s.drop_last().len() && s.drop_last()[k] == fd[i1];
                assert(s[k] == fd[i1]);
                assert(s[k].fingerprint != s[s.len() - 1].fingerprint);
            }
        }
    }
}

/// With distinct fingerprints, searching for a listed fingerprint
/// finds exactly its own index.
pub proof fn lemma_find_fp_unique(relays: Seq<RelayModel>, j: int)
    requires
        distinct_fps(relays),
        0 <= j < relays.len(),
    ensures
        find_fp(relays, relays[j].fingerprint) == Some(j),
{
    lemma_find_fp_props(relays, relays[j].fingerprint, 0);
    match find_fp(relays, relays[j].fingerprint) {
        Some(j2) => {
            if j2 < j {
                assert(relays[j2].fingerprint != relays[j].fingerprint);
            } else if j < j2 {
                assert(relays[j].fingerprint != relays[j2].fingerprint);
            }
        },
        None => {
            assert(relays[j].fingerprint == relays[j].fingerprint);
        },
    }
}

/// A relay whose secondary document is never successfully resolved
/// keeps its empty key through the merge pass and is absent from the
/// final usable list.
pub proof fn lemma_never_fetched_absent(
    relays: Seq<RelayModel>,
    infos: Seq<MicrodescInfoModel>,
    m: Seq<(Seq<char>, Seq<char>)>,
    j: int,
)
    requires
        0 <= j < relays.len(),
        relays[j].ntor_onion_key.len() == 0,
        forall|t: int|
            0 <= t < infos.len() ==> lookup_fp(m, (#[trigger] infos[t]).digest) != Some(
                relays[j].fingerprint,
            ),
    ensures
        apply_seq(relays, infos, m)[j] == relays[j],
        !usable_filter(apply_seq(relays, infos, m)).contains(relays[j]),
{
    lemma_apply_seq_untouched(relays, infos, m, j);
    let applied = apply_seq(relays, infos, m);
    lemma_usable_filter_members(applied);
    if usable_filter(applied).contains(relays[j]) {
        let i = choose|i: int|
            0 <= i < usable_filter(applied).len() && usable_filter(applied)[i] == relays[j];
        assert(usable_filter(applied)[i].usable());
    }
}

/// A relay whose document is resolved by some successful batch ends
/// up in the merge result with a non-empty key, whatever earlier or
/// later batches did: it survives the usable filter.
pub proof fn lemma_resolved_present(
    relays: Seq<RelayModel>,
    infos: Seq<MicrodescInfoModel>,
    m: Seq<(Seq<char>, Seq<char>)>,
    k: int,
    j: int,
)
    requires
        0 <= k < infos.len(),
        0 <= j < relays.len(),
        lookup_fp(m, infos[k].digest) == Some(relays[j].fingerprint),
        find_fp(relays, relays[j].fingerprint) == Some(j),
        all_keys_nonempty(infos),
    ensures
        apply_seq(relays, infos, m).len() == relays.len(),
        apply_seq(relays, infos, m)[j].fingerprint == relays[j].fingerprint,
        apply_seq(relays, infos, m)[j].usable(),
        usable_filter(apply_seq(relays, infos, m)).contains(apply_seq(relays, infos, m)[j]),
    decreases infos.len(),
{
    let relays1 = apply_one(relays, infos[0], m);
    lemma_apply_one_shape(relays, infos[0], m);
    assert(all_keys_nonempty(infos.skip(1))) by {
        assert forall|t: int| 0 <= t < infos.skip(1).len() implies (#[trigger] infos.skip(
            1,
        )[t]).ntor_key.len() > 0 by {
            assert(infos.skip(1)[t] == infos[t + 1]);
        }
    }
    if k == 0 {
        assert(relays1[j].ntor_onion_key == infos[0].ntor_key);
        assert(relays1[j].usable());
        lemma_apply_seq_shape(relays1, infos.skip(1), m);
    } else {
        lemma_find_fp_congruence(relays, relays1, relays[j].fingerprint, 0);
        assert(infos.skip(1)[k - 1] == infos[k]);
        lemma_resolved_present(relays1, infos.skip(1), m, k - 1, j);
    }
    lemma_usable_filter_contains(apply_seq(relays, infos, m), j);
}

/// End-to-end resolution of one relay: when the directory lists it
/// once, exactly one successful document resolves its digest, and
/// every resolved key is non-empty, the final usable list carries it
/// exactly once, with precisely that document's keys.
pub proof fn lemma_unique_resolution(
    relays: Seq<RelayModel>,
    infos: Seq<MicrodescInfoModel>,
    m: Seq<(Seq<char>, Seq<char>)>,
    k: int,
    j: int,
)
    requires
        distinct_fps(relays),
        0 <= k < infos.len(),
        0 <= j < relays.len(),
        lookup_fp(m, infos[k].digest) == Some(relays[j].fingerprint),
        forall|t: int|
            0 <= t < infos.len() && t != k ==> lookup_fp(m, (#[trigger] infos[t]).digest)
                != Some(relays[j].fingerprint),
        all_keys_nonempty(infos),
    ensures
        apply_seq(relays, infos, m)[j].fingerprint == relays[j].fingerprint,
        apply_seq(relays, infos, m)[j].ntor_onion_key == infos[k].ntor_key,
        apply_seq(relays, infos, m)[j].ed25519_identity == Some(infos[k].ed_id),
        usable_filter(apply_seq(relays, infos, m)).contains(apply_seq(relays, infos, m)[j]),
        forall|i1: int, i2: int|
            0 <= i1 < i2 < usable_filter(apply_seq(relays, infos, m)).len() ==> (
            #[trigger] usable_filter(apply_seq(relays, infos, m))[i1]).fingerprint != (
            #[trigger] usable_filter(apply_seq(relays, infos, m))[i2]).fingerprint,
    decreases infos.len(),
{
    let applied = apply_seq(relays, infos, m);
    let relays1 = apply_one(relays, infos[0], m);
    lemma_apply_one_shape(relays, infos[0], m);
    assert(all_keys_nonempty(infos.skip(1))) by {
        assert forall|t: int| 0 <= t < infos.skip(1).len() implies (#[trigger] infos.skip(
            1,
        )[t]).ntor_key.len() > 0 by {
            assert(infos.skip(1)[t] == infos[t + 1]);
        }
    }
    assert(distinct_fps(relays1)) by {
        assert forall|i1: int, i2: int| 0 <= i1 < i2 < relays1.len() implies (
        #[trigger] relays1[i1]).fingerprint != (#[trigger] relays1[i2]).fingerprint by {
            assert(relays1[i1].fingerprint == relays[i1].fingerprint);
            assert(relays1[i2].fingerprint == relays[i2].fingerprint);
        }
    }
    if k == 0 {
        lemma_find_fp_unique(relays, j);
        assert(relays1[j] == relays[j].with_keys(infos[0].ntor_key, infos[0].ed_id));
        assert forall|t: int| 0 <= t < infos.skip(1).len() implies lookup_fp(
            m,
            (#[trigger] infos.skip(1)[t]).digest,
        ) != Some(relays1[j].fingerprint) by {
            assert(infos.skip(1)[t] == infos[t + 1]);
        }
        lemma_apply_seq_untouched(relays1, infos.skip(1), m, j);
        assert(applied[j] == relays1[j]);
    } else {
        lemma_find_fp_congruence(relays, relays1, relays[j].fingerprint, 0);
        assert(relays1[j] == relays[j]) by {
            match lookup_fp(m, infos[0].digest) {
                None => {},
                Some(fp) => {
                    assert(lookup_fp(m, infos[0].digest) != Some(relays[j].fingerprint));
                    lemma_find_fp_props(relays, fp, 0);
                },
            }
        }
        assert(infos.skip(1)[k - 1] == infos[k]);
        assert forall|t: int|
            0 <= t < infos.skip(1).len() && t != k - 1 implies lookup_fp(
            m,
            (#[trigger] infos.skip(1)[t]).digest,
        ) != Some(relays1[j].fingerprint) by {
            assert(infos.skip(1)[t] == infos[t + 1]);
        }
        lemma_unique_resolution(relays1, infos.skip(1), m, k - 1, j);
    }
    lemma_apply_seq_shape(relays, infos, m);
    assert(distinct_fps(applied)) by {
        assert forall|i1: int, i2: int| 0 <= i1 < i2 < applied.len() implies (
        #[trigger] applied[i1]).fingerprint != (#[trigger] applied[i2]).fingerprint by {
            assert(applied[i1].fingerprint == relays[i1].fingerprint);
            assert(applied[i2].fingerprint == relays[i2].fingerprint);
        }
    }
    lemma_usable_filter_contains(applied, j);
    lemma_usable_filter_distinct(applied);
}

/// The document at position `t` of successful batch `b` occurs in
/// the flattened document sequence.
pub proof fn lemma_flatten_index(
    batches: Seq<Option<Seq<MicrodescInfoModel>>>,
    b: int,
    t: int,
)
    requires
        0 <= b < batches.len(),
        batches[b] matches Some(infos) && 0 <= t < infos.len(),
    ensures
        batches[b] matches Some(infos) ==> exists|k: int|
            0 <= k < flatten_batches(batches).len() && flatten_batches(batches)[k] == infos[t],
    decreases b,
{
    let rest = flatten_batches(batches.skip(1));
    if b == 0 {
        match batches[0] {
            Some(infos) => {
                assert(flatten_batches(batches)[t] == infos[t]);
            },
            None => {},
        }
    } else {
        assert(batches.skip(1)[b - 1] == batches[b]);
        lemma_flatten_index(batches.skip(1), b - 1, t);
        match batches[b] {
            Some(infos) => {
                let k = choose|k: int| 0 <= k < rest.len() && rest[k] == infos[t];
                let head = batch_infos(batches[0]);
                assert(flatten_batches(batches)[head.len() + k] == rest[k]);
            },
            None => {},
        }
    }
}

/// Batch failures are non-fatal: a relay whose document arrives in a
/// later, successful batch is resolved and present in the final
/// usable list, whatever any earlier batch did — a failed batch
/// contributes no documents at all.
pub proof fn lemma_late_batch_resolves(
    relays: Seq<RelayModel>,
    batches: Seq<Option<Seq<MicrodescInfoModel>>>,
    m: Seq<(Seq<char>, Seq<char>)>,
    b: int,
    t: int,
    j: int,
)
    requires
        0 <= b < batches.len(),
        batches[b] is Some,
        0 <= t < batch_infos(batches[b]).len(),
        0 <= j < relays.len(),
        lookup_fp(m, batch_infos(batches[b])[t].digest) == Some(relays[j].fingerprint),
        find_fp(relays, relays[j].fingerprint) == Some(j),
        all_keys_nonempty(flatten_batches(batches)),
    ensures
        apply_seq(relays, flatten_batches(batches), m)[j].usable(),
        usable_filter(apply_seq(relays, flatten_batches(batches), m)).contains(
            apply_seq(relays, flatten_batches(batches), m)[j],
        ),
{
    lemma_flatten_index(batches, b, t);
    let infos = flatten_batches(batches);
    let k = choose|k: int| 0 <= k < infos.len() && infos[k] == batch_infos(batches[b])[t];
    lemma_resolved_present(relays, infos, m, k, j);
}

/// Membership of a character sequence in a list of views.
pub open spec fn chars_in(v: Seq<Seq<char>>, x: Seq<char>) -> bool {
    exists|i: int| 0 <= i < v.len() && v[i] == x
}

/// Whether some element of `v` has the same text as `s`.
pub fn contains_string(v: &Vec<String>, s: &String) -> (r: bool)
    ensures
        r == chars_in(v.deep_view(), s@),
{
    let mut i: usize = 0;
    while i < v.len()
        invariant
            i <= v@.len(),
            forall|j: int| 0 <= j < i ==> v.deep_view()[j] != s@,
        decreases v@.len() - i,
    {
        if v[i] == *s {
            proof {
                assert(v.deep_view()[i as int] == s@);
            }
            return true;
        }
        i = i + 1;
    }
    false
}

/// The distinct digests of the correlation map, one fetch per
/// digest: the batched requests must not name a digest twice.
pub fn unique_digests(m: &Vec<(String, String)>) -> (r: Vec<String>)
    ensures
        forall|i1: int, i2: int|
            0 <= i1 < i2 < r.deep_view().len() ==> r.deep_view()[i1] != r.deep_view()[i2],
        forall|i: int| 0 <= i < r.deep_view().len() ==> chars_in_map(m.deep_view(), #[trigger] r.deep_view()[i]),
        forall|i: int|
            0 <= i < m.deep_view().len() ==> chars_in(r.deep_view(), (#[trigger] m.deep_view()[i]).0),
{
    let mut out: Vec<String> = Vec::new();
    let mut i: usize = 0;
    while i < m.len()
        invariant
            i <= m@.len(),
            forall|i1: int, i2: int|
                0 <= i1 < i2 < out.deep_view().len() ==> out.deep_view()[i1] != out.deep_view()[i2],
            forall|j: int|
                0 <= j < out.deep_view().len() ==> chars_in_map(m.deep_view(), #[trigger] out.deep_view()[j]),
            forall|j: int|
                0 <= j < i ==> chars_in(out.deep_view(), (#[trigger] m.deep_view()[j]).0),
        decreases m@.len() - i,
    {
        let p = &m[i];
        if !contains_string(&out, &p.0) {
            let ghost dpre = out.deep_view();
            let ghost vpre = out@;
            out.push(p.0.clone());
            proof {
                assert forall|j: int| 0 <= j < vpre.len() implies (#[trigger] out.deep_view()[j])
                    == dpre[j] by {
                    assert(out@[j] == vpre[j]);
                    assert(out.deep_view()[j] == out@[j].deep_view());
                    assert(dpre[j] == vpre[j].deep_view());
                }
                assert(out.deep_view()[vpre.len() as int] == m.deep_view()[i as int].0);
                assert forall|j: int|
                    0 <= j < out.deep_view().len() implies chars_in_map(
                    m.deep_view(),
                    #[trigger] out.deep_view()[j],
                ) by {
                    if j < dpre.len() {
                    } else {
                        assert(out.deep_view()[j] == m.deep_view()[i as int].0);
                    }
                }
                assert forall|j: int| 0 <= j <= i implies chars_in(
                    out.deep_view(),
                    (#[trigger] m.deep_view()[j]).0,
                ) by {
                    if j < i {
                        let k = choose|k: int| 0 <= k < dpre.len() && dpre[k] == m.deep_view()[j].0;
                        assert(out.deep_view()[k] == m.deep_view()[j].0);
                    } else {
                        assert(out.deep_view()[vpre.len() as int] == m.deep_view()[j].0);
                    }
                }
            }
        } else {
            proof {
                assert forall|j: int| 0 <= j <= i implies chars_in(
                    out.deep_view(),
                    (#[trigger] m.deep_view()[j]).0,
                ) by {}
            }
        }
        i = i + 1;
    }
    out
}

/// Membership of a digest among the map's digest components.
pub open spec fn chars_in_map(m: Seq<(Seq<char>, Seq<char>)>, x: Seq<char>) -> bool {
    exists|i: int| 0 <= i < m.len() && m[i].0 == x
}

} // verus!
