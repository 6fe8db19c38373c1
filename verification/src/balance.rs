use vstd::prelude::*;

use crate::account::SubAccount;
use crate::data::Identity;
use crate::store::{
    lemma_assoc_get_absent, lemma_assoc_get_index, lemma_assoc_get_push, lemma_assoc_get_update,
    lemma_distinct_push,
};

verus! {

/// Position of a token in the balance ledger, if it was ever written.
fn balance_pos(s: &SubAccount, token_id: Identity) -> (r: Option<usize>)
    ensures
        match r {
            Some(i) => i < s.balances@.len() && s.balances@[i as int].0 == token_id,
            None => forall|j: int| 0 <= j < s.balances@.len() ==> s.balances@[j].0 != token_id,
        },
{
    let n = s.balances.len();
    let mut i: usize = 0;
    while i < n
        invariant
            i <= n,
            n == s.balances@.len(),
            forall|j: int| 0 <= j < i ==> s.balances@[j].0 != token_id,
        decreases n - i,
    {
        if s.balances[i].0.id == token_id.id {
            assert(s.balances@[i as int].0 == token_id);
            return Some(i);
        }
        i = i + 1;
    }
    None
}

/// The stored signed balance of a token, or zero if never set. A pure read.
pub fn read_balance(s: &SubAccount, token_id: Identity) -> (r: i128)
    requires
        s.wf(),
    ensures
        r == s.spec_balance(token_id),
{
    match balance_pos(s, token_id) {
        Some(i) => {
            proof {
                lemma_assoc_get_index(s.balances@, i as int);
            }
            s.balances[i].1
        },
        None => {
            proof {
                lemma_assoc_get_absent(s.balances@, token_id);
            }
            0
        },
    }
}

/// Adds a signed delta to a token's stored balance. The result may be driven
/// negative; no floor is enforced here.
pub fn write_balance(s: &mut SubAccount, token_id: Identity, amount: i128)
    requires
        old(s).wf(),
        i128::MIN <= old(s).spec_balance(token_id) + amount <= i128::MAX,
    ensures
        final(s).wf(),
        final(s).spec_balance(token_id) == old(s).spec_balance(token_id) + amount,
        forall|t: Identity| t != token_id ==> final(s).spec_balance(t) == old(s).spec_balance(t),
        *final(s) == (SubAccount { balances: final(s).balances, ..*old(s) }),
{
    match balance_pos(s, token_id) {
        Some(i) => {
            proof {
                lemma_assoc_get_index(s.balances@, i as int);
            }
            let updated = s.balances[i].1 + amount;
            s.balances[i] = (token_id, updated);
            proof {
                lemma_assoc_get_update(old(s).balances@, i as int, token_id, updated);
            }
        },
        None => {
            proof {
                lemma_assoc_get_absent(s.balances@, token_id);
            }
            s.balances.push((token_id, amount));
            proof {
                lemma_assoc_get_push(old(s).balances@, token_id, amount);
                lemma_distinct_push(old(s).balances@, token_id, amount);
            }
        },
    }
}


/// The balance after absorbing a sequence of deltas, one write at a time, in
/// order: exactly what repeated `write_balance` calls do to one token.
pub open spec fn apply_deltas(start: int, deltas: Seq<int>) -> int
    decreases deltas.len(),
{
    if deltas.len() == 0 {
        start
    } else {
        apply_deltas(start, deltas.drop_last()) + deltas.last()
    }
}

/// The plain sum of a sequence of deltas.
pub open spec fn sum_deltas(deltas: Seq<int>) -> int
    decreases deltas.len(),
{
    if deltas.len() == 0 {
        0
    } else {
        sum_deltas(deltas.drop_last()) + deltas.last()
    }
}

/// Law: a ledger balance that starts at `start` and absorbs a sequence of
/// deltas in order ends at `start` plus their sum; a token never written
/// starts at zero, so its stored balance is the sum of every delta ever
/// applied to it.
pub proof fn lemma_balance_is_delta_sum(start: int, deltas: Seq<int>)
    ensures
        apply_deltas(start, deltas) == start + sum_deltas(deltas),
    decreases deltas.len(),
{
    if deltas.len() > 0 {
        lemma_balance_is_delta_sum(start, deltas.drop_last());
    }
}

} // verus!
