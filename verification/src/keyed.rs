//! Storage maps keyed by token identifier, held as vectors of entries with
//! distinct keys.

use crate::amount::Amount;
use crate::token::TokenId;
use vstd::prelude::*;

verus! {

/// No two entries share a key.
pub open spec fn keys_distinct<V>(s: Seq<(TokenId, V)>) -> bool {
    forall|i: int, j: int|
        0 <= i < s.len() && 0 <= j < s.len() && i != j ==> #[trigger] s[i].0@ != #[trigger] s[j].0@
}

/// Some entry has the key `k`.
pub open spec fn has_key<V>(s: Seq<(TokenId, V)>, k: Seq<u8>) -> bool {
    exists|i: int| 0 <= i < s.len() && #[trigger] s[i].0@ == k
}

/// The position of the entry with key `k`, where there is one.
pub open spec fn key_index<V>(s: Seq<(TokenId, V)>, k: Seq<u8>) -> int {
    choose|i: int| 0 <= i < s.len() && #[trigger] s[i].0@ == k
}

/// With distinct keys, the entry at `j` is the one that `key_index` names.
pub proof fn lemma_key_index_unique<V>(s: Seq<(TokenId, V)>, j: int)
    requires
        keys_distinct(s),
        0 <= j < s.len(),
    ensures
        has_key(s, s[j].0@),
        key_index(s, s[j].0@) == j,
{
    let k = s[j].0@;
    assert(has_key(s, k));
    let c = key_index(s, k);
    assert(0 <= c < s.len() && s[c].0@ == k);
}

/// Finds the entry with key `k`.
pub fn find_key<V>(v: &Vec<(TokenId, V)>, k: &TokenId) -> (r: Option<usize>)
    requires
        keys_distinct(v@),
    ensures
        r matches Some(i) ==> i < v@.len() && v@[i as int].0@ == k@ && i == key_index(v@, k@) && has_key(
            v@,
            k@,
        ),
        r is None ==> !has_key(v@, k@),
{
    let n = v.len();
    for i in 0..n
        invariant
            n == v.len(),
            keys_distinct(v@),
            forall|j: int| 0 <= j < i ==> #[trigger] v@[j].0@ != k@,
    {
        if v[i].0.same(k) {
            proof {
                lemma_key_index_unique(v@, i as int);
            }
            return Some(i);
        }
    }
    None
}

/// The amount stored under `k`; a missing entry reads as zero.
pub open spec fn amount_of(s: Seq<(TokenId, Amount)>, k: Seq<u8>) -> nat {
    if has_key(s, k) {
        s[key_index(s, k)].1@
    } else {
        0
    }
}

/// Adds `amt` to the amount stored under `k`.
pub fn add_to_amount(v: &mut Vec<(TokenId, Amount)>, k: &TokenId, amt: &Amount)
    requires
        keys_distinct(old(v)@),
    ensures
        keys_distinct(final(v)@),
        amount_of(final(v)@, k@) == amount_of(old(v)@, k@) + amt@,
        forall|other: Seq<u8>| other != k@ ==> amount_of(final(v)@, other) == amount_of(old(v)@, other),
{
    match find_key(v, k) {
        Some(i) => {
            let new_amount = v[i].1.add(amt);
            let ghost before = v@;
            v.set(i, (k.duplicate(), new_amount));
            proof {
                assert(keys_distinct(v@)) by {
                    assert forall|a: int, b: int|
                        0 <= a < v@.len() && 0 <= b < v@.len() && a != b implies #[trigger] v@[a].0@
                        != #[trigger] v@[b].0@ by {
                        assert(v@[a].0@ == before[a].0@);
                        assert(v@[b].0@ == before[b].0@);
                    }
                }
                lemma_key_index_unique(v@, i as int);
                assert forall|other: Seq<u8>| other != k@ implies amount_of(v@, other) == amount_of(
                    before,
                    other,
                ) by {
                    if has_key(before, other) {
                        let j = key_index(before, other);
                        lemma_key_index_unique(before, j);
                        assert(v@[j].0@ == other);
                        lemma_key_index_unique(v@, j);
                    } else {
                        if has_key(v@, other) {
                            let j = key_index(v@, other);
                            assert(before[j].0@ == other);
                        }
                    }
                }
            }
        },
        None => {
            let ghost before = v@;
            v.push((k.duplicate(), amt.duplicate()));
            proof {
                let last = before.len() as int;
                assert(keys_distinct(v@)) by {
                    assert forall|a: int, b: int|
                        0 <= a < v@.len() && 0 <= b < v@.len() && a != b implies #[trigger] v@[a].0@
                        != #[trigger] v@[b].0@ by {
                        if a == last {
                            assert(v@[b].0@ == before[b].0@);
                        } else if b == last {
                            assert(v@[a].0@ == before[a].0@);
                        } else {
                            assert(v@[a].0@ == before[a].0@);
                            assert(v@[b].0@ == before[b].0@);
                        }
                    }
                }
                lemma_key_index_unique(v@, last);
                assert forall|other: Seq<u8>| other != k@ implies amount_of(v@, other) == amount_of(
                    before,
                    other,
                ) by {
                    if has_key(before, other) {
                        let j = key_index(before, other);
                        lemma_key_index_unique(before, j);
                        assert(v@[j].0@ == other);
                        lemma_key_index_unique(v@, j);
                    } else {
                        if has_key(v@, other) {
                            let j = key_index(v@, other);
                            if j != last {
                                assert(before[j].0@ == other);
                            }
                        }
                    }
                }
            }
        },
    }
}

/// Replacing entries by entries with the same keys keeps the keys distinct
/// and every key where it was.
pub proof fn lemma_same_keys<V>(before: Seq<(TokenId, V)>, after: Seq<(TokenId, V)>)
    requires
        keys_distinct(before),
        after.len() == before.len(),
        forall|j: int| 0 <= j < before.len() ==> #[trigger] after[j].0@ == before[j].0@,
    ensures
        keys_distinct(after),
        forall|k: Seq<u8>| has_key(after, k) == has_key(before, k),
        forall|k: Seq<u8>| has_key(before, k) ==> key_index(after, k) == key_index(before, k),
{
    assert forall|a: int, b: int|
        0 <= a < after.len() && 0 <= b < after.len() && a != b implies #[trigger] after[a].0@
        != #[trigger] after[b].0@ by {
        assert(after[a].0@ == before[a].0@);
        assert(after[b].0@ == before[b].0@);
    }
    assert forall|k: Seq<u8>| has_key(after, k) == has_key(before, k) by {
        if has_key(after, k) {
            let j = key_index(after, k);
            assert(before[j].0@ == k);
        }
        if has_key(before, k) {
            let j = key_index(before, k);
            assert(after[j].0@ == k);
        }
    }
    assert forall|k: Seq<u8>| has_key(before, k) implies key_index(after, k) == key_index(before, k) by {
        let j = key_index(before, k);
        assert(after[j].0@ == k);
        lemma_key_index_unique(after, j);
    }
}

} // verus!
