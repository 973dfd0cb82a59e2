//! Ordering lists of (token, display name) entries by display name.
use itertools::Itertools;
use vstd::prelude::*;

use crate::text::{
    compare_text, lemma_lex_le_total, lemma_lex_le_trans, lemma_lex_order_antisym, lex_le,
    lex_order,
};

verus! {

broadcast use vstd::seq_lib::group_to_multiset_ensures;

/// The entries are in ascending order of their display names.
pub open spec fn sorted_by_name(s: Seq<(String, String)>) -> bool {
    forall|i: int, j: int| 0 <= i < j < s.len() ==> lex_le(#[trigger] s[i].1@, #[trigger] s[j].1@)
}

/// `out` holds the entries of `inp` rearranged by `perm` (the entry at
/// position `i` of `out` is the one at position `perm[i]` of `inp`, each
/// taken once), and entries with equal names keep their order.
pub open spec fn stable_rearrangement(
    out: Seq<(String, String)>,
    inp: Seq<(String, String)>,
    perm: Seq<int>,
) -> bool {
    &&& perm.len() == out.len()
    &&& out.len() == inp.len()
    &&& forall|i: int| 0 <= i < out.len() ==> 0 <= #[trigger] perm[i] < inp.len() && out[i] == inp[perm[i]]
    &&& forall|i: int, j: int| 0 <= i < j < out.len() ==> #[trigger] perm[i] != #[trigger] perm[j]
    &&& forall|i: int, j: int|
        0 <= i < j < out.len() && (#[trigger] out[i]).1@ == (#[trigger] out[j]).1@ ==> perm[i]
            < perm[j]
}

/// Compares two display names the way `String`'s ordering does.
pub fn name_ordering(a: &String, b: &String) -> (r: std::cmp::Ordering)
    ensures
        (r == std::cmp::Ordering::Less) == (lex_order(a@, b@) < 0),
        (r == std::cmp::Ordering::Equal) == (lex_order(a@, b@) == 0),
        (r == std::cmp::Ordering::Greater) == (lex_order(a@, b@) > 0),
{
    let c = compare_text(a.as_str(), b.as_str());
    if c < 0 {
        std::cmp::Ordering::Less
    } else if c == 0 {
        std::cmp::Ordering::Equal
    } else {
        std::cmp::Ordering::Greater
    }
}

/// Calls `Itertools::sorted_by` on the entries with `name_ordering` on their
/// display names as the comparison, and collects the result. `sorted_by`
/// sorts with `slice::sort_by`, stably, into ascending order of the
/// comparison, which here is a total order that holds two names equal
/// exactly when they are: the result holds the same entries, ordered by
/// display name, entries with equal names in their order.
#[verifier::external_body]
pub(crate) fn sorted_by_display_name(entries: Vec<(String, String)>) -> (r: Vec<(String, String)>)
    ensures
        r@.to_multiset() == entries@.to_multiset(),
        sorted_by_name(r@),
        exists|perm: Seq<int>| stable_rearrangement(r@, entries@, perm),
{
    entries.into_iter().sorted_by(|a, b| name_ordering(&a.1, &b.1)).collect()
}

/// Sorts the entries by display name, keeping entries with equal names in
/// their order (the order of `slice::sort_by`).
pub fn sort_by_display_name(entries: &mut Vec<(String, String)>)
    ensures
        final(entries)@.to_multiset() == old(entries)@.to_multiset(),
        sorted_by_name(final(entries)@),
        exists|perm: Seq<int>| stable_rearrangement(final(entries)@, old(entries)@, perm),
{
    let mut sorted: Vec<(String, String)> = Vec::new();
    let ghost mut perm: Seq<int> = Seq::empty();
    let ghost initial = entries@;
    let n = entries.len();
    let mut rest: Vec<(String, String)> = Vec::new();
    // Reverse the input so that popping yields the entries in order.
    while entries.len() > 0
        invariant
            entries@ == initial.take(entries@.len() as int),
            rest@.len() + entries@.len() == n,
            n == initial.len(),
            forall|k: int| 0 <= k < rest@.len() ==> #[trigger] rest@[k] == initial[n - 1 - k],
        decreases entries.len(),
    {
        let e = entries.pop().unwrap();
        rest.push(e);
    }
    assert(initial.to_multiset() == rest@.to_multiset()) by {
        assert(rest@ =~= initial.reverse());
        initial.lemma_reverse_to_multiset();
    }
    while rest.len() > 0
        invariant
            sorted_by_name(sorted@),
            sorted@.to_multiset().add(rest@.to_multiset()) == initial.to_multiset(),
            n == initial.len(),
            rest@.len() <= n,
            forall|k: int| 0 <= k < rest@.len() ==> #[trigger] rest@[k] == initial[n - 1 - k],
            perm.len() == sorted@.len(),
            sorted@.len() + rest@.len() == n,
            forall|i: int|
                0 <= i < sorted@.len() ==> 0 <= #[trigger] perm[i] < sorted@.len() && sorted@[i]
                    == initial[perm[i]],
            forall|i: int, j: int|
                0 <= i < j < sorted@.len() ==> #[trigger] perm[i] != #[trigger] perm[j],
            forall|i: int, j: int|
                0 <= i < j < sorted@.len() && (#[trigger] sorted@[i]).1@ == (
                #[trigger] sorted@[j]).1@ ==> perm[i] < perm[j],
        decreases rest.len(),
    {
        let ghost k = sorted@.len() as int;
        let ghost before_rest = rest@;
        let e = rest.pop().unwrap();
        proof {
            assert(before_rest =~= rest@.push(e));
            assert(e == before_rest[before_rest.len() - 1]);
            assert(e == initial[k]);
        }
        // Find the first position whose name orders strictly after `e`.
        let mut p: usize = 0;
        while p < sorted.len() && compare_text(sorted[p].1.as_str(), e.1.as_str()) <= 0
            invariant
                p <= sorted@.len(),
                forall|k: int| 0 <= k < p ==> lex_le(#[trigger] sorted@[k].1@, e.1@),
            decreases sorted@.len() - p,
        {
            p = p + 1;
        }
        let ghost old_sorted = sorted@;
        let ghost old_perm = perm;
        proof {
            if p < sorted@.len() {
                lemma_lex_order_antisym(sorted@[p as int].1@, e.1@);
                assert forall|q: int| p <= q < old_sorted.len() implies (#[trigger] old_sorted[q]).1@
                    != e.1@ by {
                    if old_sorted[q].1@ == e.1@ {
                        if q > p {
                            assert(lex_le(old_sorted[p as int].1@, old_sorted[q].1@));
                        }
                        assert(lex_le(old_sorted[p as int].1@, e.1@));
                    }
                }
            }
            assert forall|k: int| p <= k < old_sorted.len() implies lex_le(
                e.1@,
                #[trigger] old_sorted[k].1@,
            ) by {
                lemma_lex_le_total(e.1@, old_sorted[p as int].1@);
                if k > p {
                    assert(lex_le(old_sorted[p as int].1@, old_sorted[k].1@));
                    lemma_lex_le_trans(e.1@, old_sorted[p as int].1@, old_sorted[k].1@);
                }
            }
        }
        sorted.insert(p, e);
        proof {
            let s = sorted@;
            assert(s == old_sorted.insert(p as int, e));
            assert forall|i: int, j: int| 0 <= i < j < s.len() implies lex_le(
                #[trigger] s[i].1@,
                #[trigger] s[j].1@,
            ) by {
                if i < p && j == p {
                } else if i < p && j > p {
                    assert(s[j] == old_sorted[j - 1]);
                    if p < old_sorted.len() {
                        lemma_lex_le_trans(s[i].1@, e.1@, s[j].1@);
                    }
                } else if i == p {
                    assert(s[j] == old_sorted[j - 1]);
                } else if i > p {
                    assert(s[i] == old_sorted[i - 1]);
                    assert(s[j] == old_sorted[j - 1]);
                }
            }
            vstd::seq_lib::to_multiset_insert(old_sorted, p as int, e);
            vstd::seq_lib::to_multiset_build(rest@, e);
            assert(sorted@.to_multiset().add(rest@.to_multiset()) =~= initial.to_multiset());
            perm = old_perm.insert(p as int, k);
            assert forall|i: int| 0 <= i < s.len() implies 0 <= #[trigger] perm[i] < s.len()
                && s[i] == initial[perm[i]] by {
                if i > p {
                    assert(perm[i] == old_perm[i - 1]);
                    assert(s[i] == old_sorted[i - 1]);
                } else if i < p {
                    assert(perm[i] == old_perm[i]);
                }
            }
            assert forall|i: int, j: int| 0 <= i < j < s.len() implies #[trigger] perm[i]
                != #[trigger] perm[j] by {
                if i < p && j > p {
                    assert(perm[j] == old_perm[j - 1]);
                } else if i > p {
                    assert(perm[i] == old_perm[i - 1]);
                    assert(perm[j] == old_perm[j - 1]);
                } else if j == p {
                    assert(perm[i] == old_perm[i]);
                } else if i == p {
                    assert(perm[j] == old_perm[j - 1]);
                }
            }
            assert forall|i: int, j: int|
                0 <= i < j < s.len() && (#[trigger] s[i]).1@ == (#[trigger] s[j]).1@ implies perm[i]
                < perm[j] by {
                if i < p && j > p {
                    assert(perm[j] == old_perm[j - 1]);
                    assert(s[j] == old_sorted[j - 1]);
                } else if i > p {
                    assert(perm[i] == old_perm[i - 1]);
                    assert(perm[j] == old_perm[j - 1]);
                    assert(s[i] == old_sorted[i - 1]);
                    assert(s[j] == old_sorted[j - 1]);
                } else if j == p {
                    assert(perm[i] == old_perm[i]);
                } else if i == p {
                    assert(s[j] == old_sorted[j - 1]);
                }
            }
        }
    }
    assert(rest@.to_multiset() =~= vstd::multiset::Multiset::empty());
    assert(sorted@.to_multiset() =~= initial.to_multiset());
    assert(stable_rearrangement(sorted@, initial, perm));
    *entries = sorted;
}

} // verus!
