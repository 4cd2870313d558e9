//! Similarity of two parameter documents.
//!
//! For two objects the score weighs how many keys they share against how
//! many of the shared keys hold the same value:
//! `0.3 * |common| / |all| + 0.7 * |agreeing| / |common|`. Two objects without
//! keys are fully similar. Anything else compares by equality alone.

use vstd::prelude::*;
use vstd::set_lib::*;
use vstd::seq_lib::*;
use crate::fixed::{mix, mix_spec, ratio, ratio_in_unit, ratio_spec, SCALE};
use crate::payload::{
    entry_views,
    keys_of,
    position_from,
    ParamEntryView,
    Params,
    ParamsView,
};

verus! {

/// The keys of a document; none for a document that is no object.
pub open spec fn key_set(p: ParamsView) -> Set<Seq<char>> {
    match p {
        ParamsView::Object(entries) => keys_of(entries).to_set(),
        ParamsView::Other(_) => Set::empty(),
    }
}

/// The keys that both documents have.
pub open spec fn common_keys(a: ParamsView, b: ParamsView) -> Set<Seq<char>> {
    key_set(a).intersect(key_set(b))
}

/// The keys that at least one of the documents has.
pub open spec fn all_keys(a: ParamsView, b: ParamsView) -> Set<Seq<char>> {
    key_set(a).union(key_set(b))
}

/// Whether both documents hold the same value under `key`.
pub open spec fn values_agree(a: ParamsView, b: ParamsView, key: Seq<char>) -> bool {
    &&& a.lookup(key) is Some
    &&& b.lookup(key) is Some
    &&& a.lookup(key)->0.json == b.lookup(key)->0.json
}

/// The common keys under which both documents hold the same value.
pub open spec fn agreeing_keys(a: ParamsView, b: ParamsView) -> Set<Seq<char>> {
    common_keys(a, b).filter(|k: Seq<char>| values_agree(a, b, k))
}

/// The score of two objects with `total` keys in all, `common` of them
/// shared, `agreeing` of those with equal values.
pub open spec fn score(common: int, total: int, agreeing: int) -> int {
    if total == 0 {
        SCALE as int
    } else {
        mix_spec(
            3,
            ratio_spec(common, total),
            7,
            if common == 0 {
                0
            } else {
                ratio_spec(agreeing, common)
            },
        )
    }
}

/// The similarity of two documents, in millionths.
pub open spec fn similarity_spec(a: ParamsView, b: ParamsView) -> int {
    match (a, b) {
        (ParamsView::Object(_), ParamsView::Object(_)) => score(
            common_keys(a, b).len() as int,
            all_keys(a, b).len() as int,
            agreeing_keys(a, b).len() as int,
        ),
        (ParamsView::Other(x), ParamsView::Other(y)) => if x.json == y.json {
            SCALE as int
        } else {
            0
        },
        _ => 0,
    }
}

/// The score of counts that nest as set sizes do lies in `[0, 1]`.
pub proof fn score_in_unit(common: int, total: int, agreeing: int)
    requires
        0 <= agreeing <= common <= total,
    ensures
        0 <= score(common, total, agreeing) <= SCALE,
{
    if total > 0 {
        ratio_in_unit(common, total);
        if common > 0 {
            ratio_in_unit(agreeing, common);
        }
    }
}

proof fn key_sets_finite(a: ParamsView, b: ParamsView)
    ensures
        key_set(a).finite(),
        key_set(b).finite(),
        common_keys(a, b).finite(),
        all_keys(a, b).finite(),
        agreeing_keys(a, b).finite(),
        agreeing_keys(a, b).len() <= common_keys(a, b).len() <= all_keys(a, b).len(),
{
    broadcast use {vstd::set::group_set_axioms, seq_to_set_is_finite};

    lemma_len_subset(agreeing_keys(a, b), common_keys(a, b));
    lemma_len_subset(common_keys(a, b), all_keys(a, b));
}

/// The similarity of any two documents lies in `[0, 1]`.
pub proof fn similarity_in_unit(a: ParamsView, b: ParamsView)
    ensures
        0 <= similarity_spec(a, b) <= SCALE,
{
    key_sets_finite(a, b);
    score_in_unit(
        common_keys(a, b).len() as int,
        all_keys(a, b).len() as int,
        agreeing_keys(a, b).len() as int,
    );
}

/// The similarity of two documents does not depend on their order.
pub proof fn similarity_symmetric(a: ParamsView, b: ParamsView)
    ensures
        similarity_spec(a, b) == similarity_spec(b, a),
{
    broadcast use vstd::set::group_set_axioms;

    assert(common_keys(a, b) =~= common_keys(b, a));
    assert(all_keys(a, b) =~= all_keys(b, a));
    assert(agreeing_keys(a, b) =~= agreeing_keys(b, a));
}

/// What `position_from` finds is the first entry with the key, and it finds
/// one exactly if some entry at or after `from` has the key.
proof fn position_from_first(entries: Seq<ParamEntryView>, key: Seq<char>, from: int)
    requires
        0 <= from <= entries.len(),
    ensures
        match position_from(entries, key, from) {
            Some(i) => {
                &&& from <= i < entries.len()
                &&& entries[i].key == key
                &&& forall|j: int| from <= j < i ==> entries[j].key != key
            },
            None => forall|j: int| from <= j < entries.len() ==> entries[j].key != key,
        },
    decreases entries.len() - from,
{
    if from < entries.len() && entries[from].key != key {
        position_from_first(entries, key, from + 1);
    }
}

/// A document has a value under `key` exactly if `key` is one of its keys.
proof fn lookup_iff_key(p: ParamsView, key: Seq<char>)
    ensures
        p.lookup(key) is Some <==> key_set(p).contains(key),
{
    match p {
        ParamsView::Object(entries) => {
            position_from_first(entries, key, 0);
            let keys = keys_of(entries);
            if position_from(entries, key, 0) is Some {
                let i = position_from(entries, key, 0)->0;
                assert(keys[i] == key);
            } else {
                if keys.contains(key) {
                    let j = choose|j: int| 0 <= j < keys.len() && keys[j] == key;
                }
            }
        },
        ParamsView::Other(_) => {},
    }
}

/// In a document without repeated keys, the value under the key of entry `i`
/// is the value of entry `i`.
proof fn lookup_of_entry(entries: Seq<ParamEntryView>, i: int)
    requires
        keys_of(entries).no_duplicates(),
        0 <= i < entries.len(),
    ensures
        ParamsView::Object(entries).lookup(entries[i].key) == Some(entries[i].value),
{
    let key = entries[i].key;
    position_from_first(entries, key, 0);
    let keys = keys_of(entries);
    let found = position_from(entries, key, 0)->0;
    assert(keys[found] == keys[i]);
}

/// How the sizes of `s ∩ t` and of its filter by `f` grow when `k`, not yet
/// in `s`, joins `s`.
proof fn intersect_insert_len(
    s: Set<Seq<char>>,
    t: Set<Seq<char>>,
    k: Seq<char>,
    f: spec_fn(Seq<char>) -> bool,
)
    requires
        s.finite(),
        !s.contains(k),
    ensures
        s.insert(k).intersect(t).len() == s.intersect(t).len() + if t.contains(k) {
            1nat
        } else {
            0nat
        },
        s.insert(k).intersect(t).filter(f).len() == s.intersect(t).filter(f).len() + if t.contains(
            k,
        ) && f(k) {
            1nat
        } else {
            0nat
        },
{
    broadcast use vstd::set::group_set_axioms;

    let c = s.intersect(t);
    let c2 = s.insert(k).intersect(t);
    lemma_set_subset_finite(c, c.filter(f));
    if t.contains(k) {
        assert(c2 =~= c.insert(k));
        if f(k) {
            assert(c2.filter(f) =~= c.filter(f).insert(k));
        } else {
            assert(c2.filter(f) =~= c.filter(f));
        }
    } else {
        assert(c2 =~= c);
    }
}

/// The similarity of two documents, in millionths.
///
/// For two objects: `0.3 * |common| / |all| + 0.7 * |agreeing| / |common|`,
/// each quotient rounded down to a millionth, the second one zero where no
/// key is shared; `1.0` where neither has a key. For two values that are no
/// objects: `1.0` if they are the same value, else `0.0`. For an object and
/// a value that is none: `0.0`.
pub fn similarity(a: &Params, b: &Params) -> (r: u64)
    requires
        a@.wf(),
        b@.wf(),
    ensures
        r == similarity_spec(a@, b@),
        r <= SCALE,
{
    proof {
        similarity_in_unit(a@, b@);
    }
    match (a, b) {
        (Params::Object(ea), Params::Object(eb)) => {
            let na = ea.len();
            let nb = eb.len();
            let ghost va = entry_views(ea@);
            let ghost ka = keys_of(va);
            let ghost kb = key_set(b@);
            let ghost agree = |k: Seq<char>| values_agree(a@, b@, k);
            let mut common: usize = 0;
            let mut agreeing: usize = 0;
            let mut i: usize = 0;
            proof {
                broadcast use {vstd::set::group_set_axioms, seq_to_set_is_finite};

                assert(ka.take(0).to_set().intersect(kb) =~= Set::empty());
                assert(ka.take(0).to_set().intersect(kb).filter(agree) =~= Set::empty());
            }
            while i < na
                invariant
                    na == ea@.len(),
                    a@ == ParamsView::Object(va),
                    va == entry_views(ea@),
                    ka == keys_of(va),
                    ka.no_duplicates(),
                    kb == key_set(b@),
                    agree == (|k: Seq<char>| values_agree(a@, b@, k)),
                    i <= na,
                    agreeing <= common <= i,
                    common == ka.take(i as int).to_set().intersect(kb).len(),
                    agreeing == ka.take(i as int).to_set().intersect(kb).filter(agree).len(),
                decreases na - i,
            {
                let entry = &ea[i];
                let ghost key = entry.key@;
                let found = b.get(entry.key.as_str());
                proof {
                    broadcast use {vstd::set::group_set_axioms, seq_to_set_is_finite};

                    let seen = ka.take(i as int);
                    assert(ka[i as int] == key);
                    assert(ka.take(i + 1) =~= seen.push(key));
                    seen.lemma_push_to_set_commute(key);
                    intersect_insert_len(seen.to_set(), kb, key, agree);
                    lookup_iff_key(b@, key);
                    lookup_of_entry(va, i as int);
                }
                match found {
                    Some(other) => {
                        common = common + 1;
                        if entry.value.same_as(other) {
                            agreeing = agreeing + 1;
                        }
                    },
                    None => {},
                }
                i = i + 1;
            }
            proof {
                broadcast use {vstd::set::group_set_axioms, seq_to_set_is_finite};

                assert(ka.take(na as int) =~= ka);
                ka.unique_seq_to_set();
                key_sets_finite(a@, b@);
                lemma_set_intersect_union_lens(key_set(a@), kb);
                lemma_len_subset(kb, all_keys(a@, b@));
                assert(kb.len() == nb) by {
                    match b@ {
                        ParamsView::Object(vb) => {
                            keys_of(vb).unique_seq_to_set();
                        },
                        ParamsView::Other(_) => {},
                    }
                }
            }
            let total: u128 = (na as u128) + (nb as u128) - (common as u128);
            if total == 0 {
                SCALE
            } else {
                let key_share = ratio(common as u128, total);
                let value_share = if common == 0 {
                    0
                } else {
                    ratio(agreeing as u128, common as u128)
                };
                mix(3, key_share, 7, value_share)
            }
        },
        (Params::Other(x), Params::Other(y)) => {
            if x.same_as(y) {
                SCALE
            } else {
                0
            }
        },
        _ => 0,
    }
}

} // verus!
