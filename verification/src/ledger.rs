//! The deposit ledger as a sequence of `(depositor, amount)` entries with
//! pairwise-distinct keys, together with the summation and lookup functions
//! that the escrow's conservation invariant is stated over.

use vstd::prelude::*;

verus! {

/// Total amount recorded across all entries of the ledger.
pub open spec fn sum_amounts(s: Seq<(u64, u128)>) -> int
    decreases s.len(),
{
    if s.len() == 0 {
        0
    } else {
        sum_amounts(s.drop_last()) + s.last().1
    }
}

/// Amount recorded for `who`; zero when no entry carries that key.
pub open spec fn amount_of(s: Seq<(u64, u128)>, who: u64) -> u128
    decreases s.len(),
{
    if s.len() == 0 {
        0
    } else if s.last().0 == who {
        s.last().1
    } else {
        amount_of(s.drop_last(), who)
    }
}

/// No two entries share a depositor key.
pub open spec fn keys_unique(s: Seq<(u64, u128)>) -> bool {
    forall|i: int, j: int| 0 <= i < j < s.len() ==> s[i].0 != s[j].0
}

pub proof fn lemma_sum_nonneg(s: Seq<(u64, u128)>)
    ensures
        sum_amounts(s) >= 0,
    decreases s.len(),
{
    if s.len() > 0 {
        lemma_sum_nonneg(s.drop_last());
    }
}

/// Each single entry's amount is bounded by the total.
pub proof fn lemma_amount_le_sum(s: Seq<(u64, u128)>, who: u64)
    ensures
        amount_of(s, who) <= sum_amounts(s),
    decreases s.len(),
{
    if s.len() > 0 {
        lemma_sum_nonneg(s.drop_last());
        if s.last().0 == who {
        } else {
            lemma_amount_le_sum(s.drop_last(), who);
        }
    }
}

/// With distinct keys, the entry at an index is what lookup returns.
pub proof fn lemma_amount_at_index(s: Seq<(u64, u128)>, i: int)
    requires
        keys_unique(s),
        0 <= i < s.len(),
    ensures
        amount_of(s, s[i].0) == s[i].1,
    decreases s.len(),
{
    if i < s.len() - 1 {
        assert(s.last().0 != s[i].0);
        assert(keys_unique(s.drop_last()));
        lemma_amount_at_index(s.drop_last(), i);
    }
}

/// A key that appears in no entry looks up to zero.
pub proof fn lemma_amount_absent(s: Seq<(u64, u128)>, who: u64)
    requires
        forall|i: int| 0 <= i < s.len() ==> s[i].0 != who,
    ensures
        amount_of(s, who) == 0,
    decreases s.len(),
{
    if s.len() > 0 {
        lemma_amount_absent(s.drop_last(), who);
    }
}

/// Overwriting one entry's amount shifts the total by the difference.
pub proof fn lemma_sum_update(s: Seq<(u64, u128)>, i: int, v: u128)
    requires
        0 <= i < s.len(),
    ensures
        sum_amounts(s.update(i, (s[i].0, v))) == sum_amounts(s) - s[i].1 + v,
    decreases s.len(),
{
    let t = s.update(i, (s[i].0, v));
    if i == s.len() - 1 {
        assert(t.drop_last() =~= s.drop_last());
    } else {
        assert(t.drop_last() =~= s.drop_last().update(i, (s[i].0, v)));
        lemma_sum_update(s.drop_last(), i, v);
    }
}

/// Overwriting one entry's amount changes lookup only at that entry's key.
pub proof fn lemma_amount_update(s: Seq<(u64, u128)>, i: int, v: u128, who: u64)
    requires
        keys_unique(s),
        0 <= i < s.len(),
    ensures
        amount_of(s.update(i, (s[i].0, v)), who) == if who == s[i].0 {
            v
        } else {
            amount_of(s, who)
        },
    decreases s.len(),
{
    let t = s.update(i, (s[i].0, v));
    if i == s.len() - 1 {
        assert(t.drop_last() =~= s.drop_last());
    } else {
        assert(t.drop_last() =~= s.drop_last().update(i, (s[i].0, v)));
        assert(keys_unique(s.drop_last()));
        assert(s.last().0 != s[i].0);
        lemma_amount_update(s.drop_last(), i, v, who);
    }
}

/// Appending an entry grows the total by its amount.
pub proof fn lemma_sum_push(s: Seq<(u64, u128)>, who: u64, v: u128)
    ensures
        sum_amounts(s.push((who, v))) == sum_amounts(s) + v,
{
    assert(s.push((who, v)).drop_last() =~= s);
}

/// Appending an entry changes lookup only at its key.
pub proof fn lemma_amount_push(s: Seq<(u64, u128)>, who: u64, v: u128, q: u64)
    ensures
        amount_of(s.push((who, v)), q) == if q == who {
            v
        } else {
            amount_of(s, q)
        },
{
    assert(s.push((who, v)).drop_last() =~= s);
}

} // verus!
