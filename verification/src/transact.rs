use vstd::prelude::*;

use crate::account::SubAccount;
use crate::data::{bytes_clone, Error, Identity};

verus! {

pub fn read_nonce(s: &SubAccount) -> (r: u32)
    ensures
        r == s.sequence_nonce,
{
    s.sequence_nonce
}

pub fn increase_nonce(s: &mut SubAccount, inc: u32)
    requires
        old(s).sequence_nonce + inc <= u32::MAX,
    ensures
        *final(s) == (SubAccount {
            sequence_nonce: (old(s).sequence_nonce + inc) as u32,
            ..*old(s)
        }),
{
    s.sequence_nonce = s.sequence_nonce + inc;
}

pub fn read_tx_nonce(s: &SubAccount) -> (r: Vec<u8>)
    ensures
        r@ == s.tx_nonce@,
{
    bytes_clone(&s.tx_nonce)
}

pub fn write_tx_nonce(s: &mut SubAccount, new_nonce: Vec<u8>)
    ensures
        *final(s) == (SubAccount { tx_nonce: new_nonce, ..*old(s) }),
{
    s.tx_nonce = new_nonce;
}

pub fn read_transact_no(s: &SubAccount) -> (r: u32)
    ensures
        r == s.transaction_count,
{
    s.transaction_count
}

pub fn inc_transact_no(s: &mut SubAccount)
    requires
        old(s).transaction_count < u32::MAX,
    ensures
        *final(s) == (SubAccount {
            transaction_count: (old(s).transaction_count + 1) as u32,
            ..*old(s)
        }),
{
    s.transaction_count = s.transaction_count + 1;
}

/// Records a pull of funds into the account's custody. The movement itself is
/// the host's token-transfer primitive, performed by the embedding;
/// `transfer_ok` reports its outcome. On success the transaction counter
/// advances; on failure nothing changes and the failure is surfaced.
pub fn take_token(
    s: &mut SubAccount,
    from: Identity,
    token_id: Identity,
    amount: i128,
    transfer_ok: bool,
) -> (r: Result<(), Error>)
    requires
        transfer_ok ==> old(s).transaction_count < u32::MAX,
    ensures
        transfer_ok ==> r is Ok && *final(s) == (SubAccount {
            transaction_count: (old(s).transaction_count + 1) as u32,
            ..*old(s)
        }),
        !transfer_ok ==> r == Err::<(), Error>(Error::ExternalTransferFailure) && *final(s)
            == *old(s),
{
    let _ = from;
    let _ = token_id;
    let _ = amount;
    if !transfer_ok {
        return Err(Error::ExternalTransferFailure);
    }
    inc_transact_no(s);
    Ok(())
}

/// Records a push of funds out of the account's custody; the counterpart of
/// `take_token`, with the same division of labour.
pub fn send_token(
    s: &mut SubAccount,
    to: Identity,
    token_id: Identity,
    amount: i128,
    transfer_ok: bool,
) -> (r: Result<(), Error>)
    requires
        transfer_ok ==> old(s).transaction_count < u32::MAX,
    ensures
        transfer_ok ==> r is Ok && *final(s) == (SubAccount {
            transaction_count: (old(s).transaction_count + 1) as u32,
            ..*old(s)
        }),
        !transfer_ok ==> r == Err::<(), Error>(Error::ExternalTransferFailure) && *final(s)
            == *old(s),
{
    let _ = to;
    let _ = token_id;
    let _ = amount;
    if !transfer_ok {
        return Err(Error::ExternalTransferFailure);
    }
    inc_transact_no(s);
    Ok(())
}

} // verus!
