use vstd::prelude::*;

use crate::account::SubAccount;
use crate::balance::read_balance;
use crate::data::{Identity, Token};
use crate::store::{
    lemma_assoc_get_absent, lemma_assoc_get_index, lemma_assoc_get_push, lemma_assoc_get_update,
    lemma_distinct_push,
};

verus! {

pub fn read_has_been_added(s: &SubAccount, token_id: Identity) -> (r: bool)
    ensures
        r == s.spec_has_been_added(token_id),
{
    let n = s.token_added.len();
    let mut i: usize = 0;
    while i < n
        invariant
            i <= n,
            n == s.token_added@.len(),
            forall|j: int| 0 <= j < i ==> s.token_added@[j] != token_id,
        decreases n - i,
    {
        if s.token_added[i].id == token_id.id {
            assert(s.token_added@[i as int] == token_id);
            return true;
        }
        i = i + 1;
    }
    false
}

/// Position of a token in the smart-transact flag list, if it was ever set.
fn smart_transact_pos(s: &SubAccount, token_id: Identity) -> (r: Option<usize>)
    ensures
        match r {
            Some(i) => i < s.smart_transact@.len() && s.smart_transact@[i as int].0 == token_id,
            None => forall|j: int|
                0 <= j < s.smart_transact@.len() ==> s.smart_transact@[j].0 != token_id,
        },
{
    let n = s.smart_transact.len();
    let mut i: usize = 0;
    while i < n
        invariant
            i <= n,
            n == s.smart_transact@.len(),
            forall|j: int| 0 <= j < i ==> s.smart_transact@[j].0 != token_id,
        decreases n - i,
    {
        if s.smart_transact[i].0.id == token_id.id {
            assert(s.smart_transact@[i as int].0 == token_id);
            return Some(i);
        }
        i = i + 1;
    }
    None
}

pub fn read_smart_transact_active(s: &SubAccount, token_id: Identity) -> (r: bool)
    requires
        s.wf(),
    ensures
        r == s.spec_smart_transact(token_id),
{
    match smart_transact_pos(s, token_id) {
        Some(i) => {
            proof {
                lemma_assoc_get_index(s.smart_transact@, i as int);
            }
            s.smart_transact[i].1
        },
        None => {
            proof {
                lemma_assoc_get_absent(s.smart_transact@, token_id);
            }
            false
        },
    }
}

pub fn write_smart_transact_active(s: &mut SubAccount, token_id: Identity, activate_disable: bool)
    requires
        old(s).wf(),
    ensures
        final(s).wf(),
        final(s).spec_smart_transact(token_id) == activate_disable,
        forall|t: Identity|
            t != token_id ==> final(s).spec_smart_transact(t) == old(s).spec_smart_transact(t),
        *final(s) == (SubAccount { smart_transact: final(s).smart_transact, ..*old(s) }),
{
    match smart_transact_pos(s, token_id) {
        Some(i) => {
            s.smart_transact[i] = (token_id, activate_disable);
            proof {
                lemma_assoc_get_update(old(s).smart_transact@, i as int, token_id, activate_disable);
            }
        },
        None => {
            s.smart_transact.push((token_id, activate_disable));
            proof {
                lemma_assoc_get_push(old(s).smart_transact@, token_id, activate_disable);
                lemma_distinct_push(old(s).smart_transact@, token_id, activate_disable);
            }
        },
    }
}

pub fn read_token_count(s: &SubAccount) -> (r: u32)
    ensures
        r == s.token_count,
{
    s.token_count
}

/// Writes the registry counter. The counter names the live dense prefix, so
/// it must match the stored index space; callers write it right after
/// `save_token_id` extends that space.
pub fn write_token_count(s: &mut SubAccount, new_count: u32)
    requires
        new_count == old(s).token_ids@.len(),
    ensures
        *final(s) == (SubAccount { token_count: new_count, ..*old(s) }),
{
    s.token_count = new_count;
}

/// Appends a token at the next free dense registry index. Callers flag the
/// token as ever-credited first (which is what keeps the registry free of
/// duplicates) and then bring the registry counter up to date with
/// `write_token_count`.
pub fn save_token_id(s: &mut SubAccount, index: u32, token_id: Identity)
    requires
        index == old(s).token_ids@.len() + 1,
        !old(s).token_ids@.contains(token_id),
        old(s).token_added@.contains(token_id),
        forall|i: int, j: int|
            0 <= i < j < old(s).token_ids@.len() ==> old(s).token_ids@[i] != old(s).token_ids@[j],
    ensures
        final(s).token_ids@ == old(s).token_ids@.push(token_id),
        forall|i: int, j: int|
            0 <= i < j < final(s).token_ids@.len() ==> final(s).token_ids@[i]
                != final(s).token_ids@[j],
        *final(s) == (SubAccount { token_ids: final(s).token_ids, ..*old(s) }),
{
    let _ = index;
    s.token_ids.push(token_id);
}

/// The listing the registry prescribes after its first `n` indices: every
/// token among them whose balance is strictly positive, in registry order,
/// with its balance and smart-transact flag.
pub open spec fn spec_tokens(s: SubAccount, n: int) -> Seq<Token>
    decreases n,
{
    if n <= 0 {
        Seq::empty()
    } else {
        let rest = spec_tokens(s, n - 1);
        let t = s.token_ids@[n - 1];
        if s.spec_balance(t) > 0 {
            rest.push(
                Token {
                    token_id: t,
                    balance: s.spec_balance(t) as i128,
                    smart_transact: s.spec_smart_transact(t),
                },
            )
        } else {
            rest
        }
    }
}

/// What the listing guarantees: every entry carries its token's live,
/// strictly positive balance and flag and sits in the registry; every
/// registered token with positive balance appears; and no token appears
/// twice.
pub proof fn lemma_tokens_listing(s: SubAccount, n: int)
    requires
        s.wf(),
        0 <= n <= s.token_count,
    ensures
        forall|j: int|
            0 <= j < spec_tokens(s, n).len() ==> s.spec_listed(#[trigger] spec_tokens(s, n)[j]),
        forall|j: int|
            0 <= j < spec_tokens(s, n).len() ==> exists|p: int|
                0 <= p < n && s.token_ids@[p] == (#[trigger] spec_tokens(s, n)[j]).token_id,
        forall|p: int|
            0 <= p < n && s.spec_balance(#[trigger] s.token_ids@[p]) > 0 ==> exists|j: int|
                0 <= j < spec_tokens(s, n).len() && spec_tokens(s, n)[j].token_id
                    == s.token_ids@[p],
        forall|j: int, k: int|
            0 <= j < k < spec_tokens(s, n).len() ==> spec_tokens(s, n)[j].token_id != spec_tokens(
                s,
                n,
            )[k].token_id,
    decreases n,
{
    if n > 0 {
        lemma_tokens_listing(s, n - 1);
        let ts = spec_tokens(s, n - 1);
        let ts2 = spec_tokens(s, n);
        let t = s.token_ids@[n - 1];
        if s.spec_balance(t) > 0 {
            assert(ts2 == ts.push(
                Token {
                    token_id: t,
                    balance: s.spec_balance(t) as i128,
                    smart_transact: s.spec_smart_transact(t),
                },
            ));
            assert forall|j: int| 0 <= j < ts.len() implies (#[trigger] ts[j]).token_id != t by {
                let p = choose|p: int| 0 <= p < n - 1 && s.token_ids@[p] == ts[j].token_id;
                assert(s.token_ids@[p] != s.token_ids@[n - 1]);
            }
            assert forall|j: int| 0 <= j < ts2.len() implies exists|p: int|
                0 <= p < n && s.token_ids@[p] == (#[trigger] ts2[j]).token_id by {
                if j < ts.len() {
                    let p = choose|p: int| 0 <= p < n - 1 && s.token_ids@[p] == ts[j].token_id;
                    assert(0 <= p < n && s.token_ids@[p] == ts2[j].token_id);
                } else {
                    assert(s.token_ids@[n - 1] == ts2[j].token_id);
                }
            }
            assert forall|p: int|
                0 <= p < n && s.spec_balance(#[trigger] s.token_ids@[p]) > 0 implies exists|j: int|
                0 <= j < ts2.len() && ts2[j].token_id == s.token_ids@[p] by {
                if p < n - 1 {
                    let j = choose|j: int|
                        0 <= j < ts.len() && ts[j].token_id == s.token_ids@[p];
                    assert(ts2[j].token_id == s.token_ids@[p]);
                } else {
                    assert(ts2[ts.len() as int].token_id == s.token_ids@[p]);
                }
            }
        } else {
            assert(ts2 == ts);
            assert forall|j: int| 0 <= j < ts2.len() implies exists|p: int|
                0 <= p < n && s.token_ids@[p] == (#[trigger] ts2[j]).token_id by {
                let p = choose|p: int| 0 <= p < n - 1 && s.token_ids@[p] == ts2[j].token_id;
                assert(0 <= p < n && s.token_ids@[p] == ts2[j].token_id);
            }
        }
    }
}

/// Lists every token in the live registry prefix whose balance is strictly
/// positive, in registry order, each exactly once, with its balance and
/// smart-transact flag. Computed fresh on each call.
pub fn read_tokens(s: &SubAccount) -> (r: Vec<Token>)
    requires
        s.wf(),
    ensures
        r@ == spec_tokens(*s, s.token_count as int),
{
    let mut tokens: Vec<Token> = Vec::new();
    let n: usize = s.token_count as usize;
    let mut i: usize = 0;
    while i < n
        invariant
            i <= n,
            n == s.token_count,
            s.wf(),
            n <= s.token_ids@.len(),
            tokens@ == spec_tokens(*s, i as int),
        decreases n - i,
    {
        let token = s.token_ids[i];
        let balance = read_balance(s, token);
        let smart_transact_status = read_smart_transact_active(s, token);
        if balance > 0 {
            tokens.push(
                Token { token_id: token, balance: balance, smart_transact: smart_transact_status },
            );
        }
        assert(tokens@ =~= spec_tokens(*s, i + 1));
        i = i + 1;
    }
    tokens
}

} // verus!
