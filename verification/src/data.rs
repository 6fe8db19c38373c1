use vstd::prelude::*;

verus! {

/// An external identity (owner wallet, controller module, executor, or token
/// contract) reduced to the one datum this logic ever inspects: a stable
/// numeric handle. The host keeps the mapping from real addresses to handles.
#[derive(Clone, Copy, PartialEq, Eq, Structural, Debug)]
pub struct Identity {
    pub id: u64,
}

/// The failure conditions an invocation can surface. Every failure aborts the
/// call with no state change.
#[derive(Clone, Copy, PartialEq, Eq, Structural, Debug)]
pub enum Error {
    /// A one-time setup operation was attempted a second time.
    AlreadyInitialized,
    /// The executor roster was already sealed.
    AlreadySealed,
    /// State that was never written was read (owner, executor, profile).
    NotFound,
    /// An identity proof or the passkey commitment check failed.
    Unauthorized,
    /// A passkey-path spend exceeds the allowance ceiling.
    LimitExceeded,
    /// The external token-transfer primitive rejected the movement.
    ExternalTransferFailure,
}

/// Encrypted profile material stored verbatim for a social-identity account.
/// It is never decrypted here; the caller decrypts client-side.
pub struct ProfileEncrypted {
    pub platform: Vec<u8>,
    pub profile_id: Vec<u8>,
    pub gen_salt_encrypted: Vec<u8>,
    pub salt_encryption_iv: Vec<u8>,
    pub index_encrypted: Vec<u8>,
    pub index_encryption_iv: Vec<u8>,
}

/// The encrypted key material handed back to a caller that presents the
/// matching profile id.
pub struct EncryptedKeys {
    pub gen_salt_encrypted: Vec<u8>,
    pub salt_encryption_iv: Vec<u8>,
    pub index_encrypted: Vec<u8>,
    pub index_encryption_iv: Vec<u8>,
}

/// One listed token: its identity, its current ledger balance, and the
/// informational smart-transact flag.
#[derive(Clone, Copy, PartialEq, Eq, Structural, Debug)]
pub struct Token {
    pub token_id: Identity,
    pub balance: i128,
    pub smart_transact: bool,
}

/// Milestone flags and score for the quest tracker.
#[derive(Clone, Copy, PartialEq, Eq, Structural, Debug)]
pub struct UserPoints {
    pub has_set_signer: bool,
    pub has_set_allowance: bool,
    pub has_received: bool,
    pub has_sent: bool,
    pub points: u32,
}

/// Byte-for-byte copy of a byte string.
pub fn bytes_clone(v: &Vec<u8>) -> (r: Vec<u8>)
    ensures
        r@ == v@,
{
    let mut r: Vec<u8> = Vec::new();
    let mut i: usize = 0;
    while i < v.len()
        invariant
            i <= v.len(),
            r@ == v@.subrange(0, i as int),
        decreases v.len() - i,
    {
        r.push(v[i]);
        assert(r@ =~= v@.subrange(0, i + 1));
        i = i + 1;
    }
    assert(r@ =~= v@);
    r
}

/// Byte-for-byte equality of two byte strings.
pub fn bytes_eq(a: &Vec<u8>, b: &Vec<u8>) -> (r: bool)
    ensures
        r == (a@ == b@),
{
    if a.len() != b.len() {
        return false;
    }
    let mut i: usize = 0;
    while i < a.len()
        invariant
            i <= a.len(),
            a@.len() == b@.len(),
            forall|j: int| 0 <= j < i ==> a@[j] == b@[j],
        decreases a.len() - i,
    {
        if a[i] != b[i] {
            return false;
        }
        i = i + 1;
    }
    assert(a@ =~= b@);
    true
}

} // verus!
