//! The weight ledger: the current voting group as a table from account
//! to weight, kept sorted by account, together with the facts that the
//! rest of the engine needs about it — membership, per-account weight,
//! and the sum of all weights.

use vstd::prelude::*;
use crate::msg::{Voter, VoterView};
use crate::order::{lemma_lex_total, lemma_lex_trans, lex_lt, str_lt};

verus! {

/// The table is strictly ascending by account, so every account occurs
/// at most once.
pub open spec fn voters_sorted(s: Seq<VoterView>) -> bool {
    forall|i: int, j: int| #![trigger s[i], s[j]] 0 <= i < j < s.len() ==> lex_lt(s[i].addr, s[j].addr)
}

/// Account `a` holds a weight entry.
pub open spec fn is_member(s: Seq<VoterView>, a: Seq<char>) -> bool {
    exists|i: int| 0 <= i < s.len() && (#[trigger] s[i]).addr == a
}

/// The weight of member `a` (meaningful only when `is_member`).
pub open spec fn member_weight(s: Seq<VoterView>, a: Seq<char>) -> u64 {
    let i = choose|i: int| 0 <= i < s.len() && (#[trigger] s[i]).addr == a;
    s[i].weight
}

/// The sum of all weights in the table.
pub open spec fn sum_weights(s: Seq<VoterView>) -> int
    decreases s.len(),
{
    if s.len() == 0 {
        0
    } else {
        sum_weights(s.drop_last()) + s.last().weight
    }
}

/// In a sorted table an account determines its index, so the weight at
/// any index holding `a` is the member weight of `a`.
pub proof fn lemma_member_weight_at(s: Seq<VoterView>, i: int)
    requires
        voters_sorted(s),
        0 <= i < s.len(),
    ensures
        member_weight(s, s[i].addr) == s[i].weight,
{
    let a = s[i].addr;
    let j = choose|j: int| 0 <= j < s.len() && (#[trigger] s[j]).addr == a;
    if i != j {
        lemma_lex_total(s[i].addr, s[j].addr);
    }
}

pub proof fn lemma_sum_insert(s: Seq<VoterView>, k: int, v: VoterView)
    requires
        0 <= k <= s.len(),
    ensures
        sum_weights(s.insert(k, v)) == sum_weights(s) + v.weight,
    decreases s.len(),
{
    let t = s.insert(k, v);
    if k == s.len() {
        assert(t.drop_last() =~= s);
    } else {
        assert(t.drop_last() =~= s.drop_last().insert(k, v));
        assert(t.last() == s.last());
        lemma_sum_insert(s.drop_last(), k, v);
    }
}

pub proof fn lemma_sum_update(s: Seq<VoterView>, k: int, v: VoterView)
    requires
        0 <= k < s.len(),
    ensures
        sum_weights(s.update(k, v)) == sum_weights(s) - s[k].weight + v.weight,
    decreases s.len(),
{
    let t = s.update(k, v);
    if k == s.len() - 1 {
        assert(t.drop_last() =~= s.drop_last());
    } else {
        assert(t.drop_last() =~= s.drop_last().update(k, v));
        assert(t.last() == s.last());
        lemma_sum_update(s.drop_last(), k, v);
    }
}

pub proof fn lemma_sum_remove(s: Seq<VoterView>, k: int)
    requires
        0 <= k < s.len(),
    ensures
        sum_weights(s.remove(k)) == sum_weights(s) - s[k].weight,
    decreases s.len(),
{
    let t = s.remove(k);
    if k == s.len() - 1 {
        assert(t =~= s.drop_last());
    } else {
        assert(t.drop_last() =~= s.drop_last().remove(k));
        assert(t.last() == s.last());
        lemma_sum_remove(s.drop_last(), k);
    }
}

/// Every entry's weight is bounded by the sum of all weights, as long
/// as no weight is negative (weights are unsigned, so none is).
pub proof fn lemma_sum_at_least_entry(s: Seq<VoterView>, i: int)
    requires
        0 <= i < s.len(),
    ensures
        sum_weights(s) >= s[i].weight,
    decreases s.len(),
{
    lemma_sum_nonneg(s.drop_last());
    if i < s.len() - 1 {
        lemma_sum_at_least_entry(s.drop_last(), i);
    }
}

pub proof fn lemma_sum_nonneg(s: Seq<VoterView>)
    ensures
        sum_weights(s) >= 0,
    decreases s.len(),
{
    if s.len() > 0 {
        lemma_sum_nonneg(s.drop_last());
    }
}

/// Every entry carries a strictly positive weight.
pub open spec fn all_weights_positive(s: Seq<VoterView>) -> bool {
    forall|i: int| 0 <= i < s.len() ==> (#[trigger] s[i]).weight >= 1
}

/// Some account occurs twice.
pub open spec fn has_duplicate(s: Seq<VoterView>) -> bool {
    exists|a: int, b: int| #![trigger s[a], s[b]] 0 <= a < b < s.len() && s[a].addr == s[b].addr
}

/// A prefix sums to no more than the whole table, because no weight is
/// negative.
pub proof fn lemma_sum_take_le(s: Seq<VoterView>, i: int)
    requires
        0 <= i <= s.len(),
    ensures
        sum_weights(s.take(i)) <= sum_weights(s),
    decreases s.len() - i,
{
    if i == s.len() {
        assert(s.take(i) =~= s);
    } else {
        assert(s.take(i + 1).drop_last() =~= s.take(i));
        assert(s.take(i + 1).last() == s[i]);
        lemma_sum_take_le(s, i + 1);
    }
}

/// Finds the index of account `addr` in the table, if present. Works on
/// any table; sortedness is not needed to look something up.
pub fn find_voter(voters: &Vec<Voter>, addr: &String) -> (r: Option<usize>)
    ensures
        match r {
            Some(i) => i < voters.len() && voters.deep_view()[i as int].addr == addr@,
            None => !is_member(voters.deep_view(), addr@),
        },
{
    let n = voters.len();
    let mut i: usize = 0;
    while i < n
        invariant
            i <= n,
            n == voters.len(),
            forall|j: int| 0 <= j < i ==> (#[trigger] voters.deep_view()[j]).addr != addr@,
        decreases n - i,
    {
        if voters[i].addr == *addr {
            return Some(i);
        }
        i = i + 1;
    }
    None
}

/// Writes (or overwrites) the weight entry of `voter.addr`, keeping the
/// table sorted. Returns the weight the account held before, if any.
pub fn set_voter(voters: &mut Vec<Voter>, voter: Voter) -> (prev: Option<u64>)
    requires
        voters_sorted(old(voters).deep_view()),
    ensures
        voters_sorted(final(voters).deep_view()),
        is_member(final(voters).deep_view(), voter.addr@),
        member_weight(final(voters).deep_view(), voter.addr@) == voter.weight,
        forall|a: Seq<char>| a != voter.addr@ ==> #[trigger] is_member(final(voters).deep_view(), a)
            == is_member(old(voters).deep_view(), a),
        forall|a: Seq<char>| a != voter.addr@ && is_member(old(voters).deep_view(), a)
            ==> #[trigger] member_weight(final(voters).deep_view(), a)
            == member_weight(old(voters).deep_view(), a),
        match prev {
            Some(w) => is_member(old(voters).deep_view(), voter.addr@)
                && w == member_weight(old(voters).deep_view(), voter.addr@)
                && final(voters).len() == old(voters).len()
                && sum_weights(final(voters).deep_view())
                    == sum_weights(old(voters).deep_view()) - w + voter.weight,
            None => !is_member(old(voters).deep_view(), voter.addr@)
                && final(voters).len() == old(voters).len() + 1
                && sum_weights(final(voters).deep_view())
                    == sum_weights(old(voters).deep_view()) + voter.weight,
        },
{
    let ghost s0 = old(voters).deep_view();
    let n = voters.len();
    let mut k: usize = 0;
    loop
        invariant
            k <= n,
            n == voters.len(),
            voters.deep_view() == s0,
            voters_sorted(s0),
            forall|j: int| 0 <= j < k ==> lex_lt((#[trigger] s0[j]).addr, voter.addr@),
        ensures
            k <= n,
            forall|j: int| 0 <= j < k ==> lex_lt((#[trigger] s0[j]).addr, voter.addr@),
            k < n ==> !lex_lt(s0[k as int].addr, voter.addr@),
        decreases n - k,
    {
        if k >= n {
            break;
        }
        if !str_lt(voters[k].addr.as_str(), voter.addr.as_str()) {
            break;
        }
        k = k + 1;
    }
    if k < n && voters[k].addr == voter.addr {
        // overwrite in place
        let w_old = voters[k].weight;
        proof {
            assert(s0[k as int].addr == voter.addr@);
            assert(w_old == s0[k as int].weight);
            lemma_member_weight_at(s0, k as int);
        }
        let ghost s1 = s0.update(k as int, voter.deep_view());
        voters.set(k, voter);
        proof {
            assert(voters.deep_view() =~= s1);
            lemma_sum_update(s0, k as int, voter.deep_view());
            lemma_set_voter_update_facts(s0, k as int, voter.deep_view());
        }
        Some(w_old)
    } else {
        proof {
            // the entry at k, if any, is neither below nor equal to the new
            // account, so it and every later entry lie strictly above it
            if k < n {
                lemma_lex_total(s0[k as int].addr, voter.addr@);
                assert forall|j: int| k < j < n implies lex_lt(voter.addr@,
                    (#[trigger] s0[j]).addr) by {
                    lemma_lex_trans(voter.addr@, s0[k as int].addr, s0[j].addr);
                }
            }
            // entries below k lie strictly below the new account and entries
            // from k on lie strictly above it, so none can equal it
            assert forall|i: int| 0 <= i < n implies (#[trigger] s0[i]).addr
                != voter.addr@ by {
                lemma_lex_total(s0[i].addr, voter.addr@);
                lemma_lex_total(voter.addr@, s0[i].addr);
            }
        }
        let ghost s1 = s0.insert(k as int, voter.deep_view());
        voters.insert(k, voter);
        proof {
            assert(voters.deep_view() =~= s1);
            lemma_sum_insert(s0, k as int, voter.deep_view());
            lemma_set_voter_insert_facts(s0, k as int, voter.deep_view());
        }
        None
    }
}

proof fn lemma_set_voter_update_facts(s: Seq<VoterView>, k: int, v: VoterView)
    requires
        voters_sorted(s),
        0 <= k < s.len(),
        s[k].addr == v.addr,
    ensures
        voters_sorted(s.update(k, v)),
        is_member(s.update(k, v), v.addr),
        member_weight(s.update(k, v), v.addr) == v.weight,
        forall|a: Seq<char>| a != v.addr ==> #[trigger] is_member(s.update(k, v), a)
            == is_member(s, a),
        forall|a: Seq<char>| a != v.addr && is_member(s, a)
            ==> #[trigger] member_weight(s.update(k, v), a) == member_weight(s, a),
{
    let t = s.update(k, v);
    assert(forall|i: int, j: int| #![trigger t[i], t[j]] 0 <= i < j < t.len() ==> lex_lt(t[i].addr, t[j].addr));
    assert(t[k].addr == v.addr);
    lemma_member_weight_at(t, k);
    assert forall|a: Seq<char>| a != v.addr implies #[trigger] is_member(t, a)
        == is_member(s, a) by {
        if is_member(t, a) {
            let i = choose|i: int| 0 <= i < t.len() && (#[trigger] t[i]).addr == a;
            assert(s[i].addr == a);
        }
        if is_member(s, a) {
            let i = choose|i: int| 0 <= i < s.len() && (#[trigger] s[i]).addr == a;
            assert(t[i].addr == a);
        }
    }
    assert forall|a: Seq<char>| a != v.addr && is_member(s, a)
        implies #[trigger] member_weight(t, a) == member_weight(s, a) by {
        let i = choose|i: int| 0 <= i < s.len() && (#[trigger] s[i]).addr == a;
        lemma_member_weight_at(s, i);
        assert(t[i].addr == a);
        lemma_member_weight_at(t, i);
    }
}

proof fn lemma_set_voter_insert_facts(s: Seq<VoterView>, k: int, v: VoterView)
    requires
        voters_sorted(s),
        0 <= k <= s.len(),
        forall|j: int| 0 <= j < k ==> lex_lt((#[trigger] s[j]).addr, v.addr),
        forall|j: int| k <= j < s.len() ==> lex_lt(v.addr, (#[trigger] s[j]).addr),
    ensures
        voters_sorted(s.insert(k, v)),
        is_member(s.insert(k, v), v.addr),
        member_weight(s.insert(k, v), v.addr) == v.weight,
        forall|a: Seq<char>| a != v.addr ==> #[trigger] is_member(s.insert(k, v), a)
            == is_member(s, a),
        forall|a: Seq<char>| a != v.addr && is_member(s, a)
            ==> #[trigger] member_weight(s.insert(k, v), a) == member_weight(s, a),
{
    let t = s.insert(k, v);
    assert forall|i: int, j: int| #![trigger t[i], t[j]] 0 <= i < j < t.len() implies lex_lt(t[i].addr,
        t[j].addr) by {
        if i < k && j > k {
            assert(t[i] == s[i] && t[j] == s[j - 1]);
        }
    }
    assert(t[k].addr == v.addr);
    lemma_member_weight_at(t, k);
    assert forall|a: Seq<char>| a != v.addr implies #[trigger] is_member(t, a)
        == is_member(s, a) by {
        if is_member(t, a) {
            let i = choose|i: int| 0 <= i < t.len() && (#[trigger] t[i]).addr == a;
            if i < k {
                assert(s[i].addr == a);
            } else {
                assert(s[i - 1].addr == a);
            }
        }
        if is_member(s, a) {
            let i = choose|i: int| 0 <= i < s.len() && (#[trigger] s[i]).addr == a;
            if i < k {
                assert(t[i].addr == a);
            } else {
                assert(t[i + 1].addr == a);
            }
        }
    }
    assert forall|a: Seq<char>| a != v.addr && is_member(s, a)
        implies #[trigger] member_weight(t, a) == member_weight(s, a) by {
        let i = choose|i: int| 0 <= i < s.len() && (#[trigger] s[i]).addr == a;
        lemma_member_weight_at(s, i);
        if i < k {
            assert(t[i].addr == a);
            lemma_member_weight_at(t, i);
        } else {
            assert(t[i + 1].addr == a);
            lemma_member_weight_at(t, i + 1);
        }
    }
}

/// Deletes the weight entry of `addr` from the table.
pub fn delete_voter(voters: &mut Vec<Voter>, i: usize) -> (w: u64)
    requires
        voters_sorted(old(voters).deep_view()),
        i < old(voters).len(),
    ensures
        voters_sorted(final(voters).deep_view()),
        final(voters).len() == old(voters).len() - 1,
        w == old(voters).deep_view()[i as int].weight,
        !is_member(final(voters).deep_view(), old(voters).deep_view()[i as int].addr),
        forall|a: Seq<char>| a != old(voters).deep_view()[i as int].addr
            ==> #[trigger] is_member(final(voters).deep_view(), a)
            == is_member(old(voters).deep_view(), a),
        forall|a: Seq<char>| a != old(voters).deep_view()[i as int].addr
            && is_member(old(voters).deep_view(), a)
            ==> #[trigger] member_weight(final(voters).deep_view(), a)
            == member_weight(old(voters).deep_view(), a),
        sum_weights(final(voters).deep_view()) == sum_weights(old(voters).deep_view()) - w,
{
    let ghost s0 = old(voters).deep_view();
    let ghost a0 = s0[i as int].addr;
    let removed = voters.remove(i);
    let w = removed.weight;
    proof {
        assert(voters.deep_view() =~= s0.remove(i as int));
        lemma_sum_remove(s0, i as int);
        lemma_delete_voter_facts(s0, i as int);
    }
    w
}

proof fn lemma_delete_voter_facts(s: Seq<VoterView>, k: int)
    requires
        voters_sorted(s),
        0 <= k < s.len(),
    ensures
        voters_sorted(s.remove(k)),
        !is_member(s.remove(k), s[k].addr),
        forall|a: Seq<char>| a != s[k].addr ==> #[trigger] is_member(s.remove(k), a)
            == is_member(s, a),
        forall|a: Seq<char>| a != s[k].addr && is_member(s, a)
            ==> #[trigger] member_weight(s.remove(k), a) == member_weight(s, a),
{
    let t = s.remove(k);
    assert forall|i: int, j: int| #![trigger t[i], t[j]] 0 <= i < j < t.len() implies lex_lt(t[i].addr,
        t[j].addr) by {
        if i < k && j >= k {
            assert(t[i] == s[i] && t[j] == s[j + 1]);
        }
    }
    assert forall|a: Seq<char>| !(is_member(t, a) && a == s[k].addr) by {
        if is_member(t, a) && a == s[k].addr {
            let i = choose|i: int| 0 <= i < t.len() && (#[trigger] t[i]).addr == a;
            if i < k {
                lemma_lex_total(s[i].addr, s[k].addr);
            } else {
                lemma_lex_total(s[i + 1].addr, s[k].addr);
            }
        }
    }
    assert forall|a: Seq<char>| a != s[k].addr implies #[trigger] is_member(t, a)
        == is_member(s, a) by {
        if is_member(t, a) {
            let i = choose|i: int| 0 <= i < t.len() && (#[trigger] t[i]).addr == a;
            if i < k {
                assert(s[i].addr == a);
            } else {
                assert(s[i + 1].addr == a);
            }
        }
        if is_member(s, a) {
            let i = choose|i: int| 0 <= i < s.len() && (#[trigger] s[i]).addr == a;
            if i < k {
                assert(t[i].addr == a);
            } else {
                assert(t[i - 1].addr == a);
            }
        }
    }
    assert forall|a: Seq<char>| a != s[k].addr && is_member(s, a)
        implies #[trigger] member_weight(t, a) == member_weight(s, a) by {
        let i = choose|i: int| 0 <= i < s.len() && (#[trigger] s[i]).addr == a;
        lemma_member_weight_at(s, i);
        if i < k {
            assert(t[i].addr == a);
            lemma_member_weight_at(t, i);
        } else {
            assert(t[i - 1].addr == a);
            lemma_member_weight_at(t, i - 1);
        }
    }
}

} // verus!
