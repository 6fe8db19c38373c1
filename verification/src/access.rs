use vstd::prelude::*;

use crate::account::SubAccount;
use crate::data::{bytes_clone, bytes_eq, EncryptedKeys, Error, Identity, ProfileEncrypted};
use crate::store::{
    lemma_assoc_get_absent, lemma_assoc_get_index, lemma_assoc_get_push, lemma_assoc_get_update,
    lemma_contains_push, lemma_distinct_push,
};

verus! {

pub fn read_is_initialized(s: &SubAccount) -> (r: bool)
    ensures
        r == s.initialized,
{
    s.initialized
}

pub fn write_is_initialized(s: &mut SubAccount)
    ensures
        *final(s) == (SubAccount { initialized: true, ..*old(s) }),
{
    s.initialized = true;
}

pub fn read_executors_set(s: &SubAccount) -> (r: bool)
    ensures
        r == s.executors_set,
{
    s.executors_set
}

pub fn write_executors_set(s: &mut SubAccount)
    ensures
        *final(s) == (SubAccount { executors_set: true, ..*old(s) }),
{
    s.executors_set = true;
}

pub fn read_excecutor_count(s: &SubAccount) -> (r: u32)
    ensures
        r == s.executor_count,
{
    s.executor_count
}

pub fn write_excecutor_count(s: &mut SubAccount, new_count: u32)
    ensures
        *final(s) == (SubAccount { executor_count: new_count, ..*old(s) }),
{
    s.executor_count = new_count;
}

/// Position of a roster index in the executor association list, if bound.
fn executor_pos(s: &SubAccount, index: u32) -> (r: Option<usize>)
    ensures
        match r {
            Some(i) => i < s.executors@.len() && s.executors@[i as int].0 == index,
            None => forall|j: int| 0 <= j < s.executors@.len() ==> s.executors@[j].0 != index,
        },
{
    let n = s.executors.len();
    let mut i: usize = 0;
    while i < n
        invariant
            i <= n,
            n == s.executors@.len(),
            forall|j: int| 0 <= j < i ==> s.executors@[j].0 != index,
        decreases n - i,
    {
        if s.executors[i].0 == index {
            return Some(i);
        }
        i = i + 1;
    }
    None
}

/// Binds `index` to `executor_pub_key`, flags that identity as an executor,
/// and mirrors the raw index into the advisory count.
pub fn write_executor(s: &mut SubAccount, index: u32, executor_pub_key: Identity)
    requires
        old(s).wf(),
    ensures
        final(s).wf(),
        final(s).spec_executor(index) == Some(executor_pub_key),
        forall|i: u32| i != index ==> final(s).spec_executor(i) == old(s).spec_executor(i),
        forall|x: Identity|
            final(s).spec_is_executor(x) <==> (old(s).spec_is_executor(x) || x
                == executor_pub_key),
        *final(s) == (SubAccount {
            executors: final(s).executors,
            executor_flags: final(s).executor_flags,
            executor_count: index,
            ..*old(s)
        }),
{
    match executor_pos(s, index) {
        Some(i) => {
            s.executors[i] = (index, executor_pub_key);
            proof {
                lemma_assoc_get_update(old(s).executors@, i as int, index, executor_pub_key);
            }
        },
        None => {
            s.executors.push((index, executor_pub_key));
            proof {
                lemma_assoc_get_push(old(s).executors@, index, executor_pub_key);
                lemma_distinct_push(old(s).executors@, index, executor_pub_key);
            }
        },
    }
    s.executor_flags.push(executor_pub_key);
    proof {
        lemma_contains_push(old(s).executor_flags@, executor_pub_key);
    }
    write_excecutor_count(s, index);
}

pub fn read_executor(s: &SubAccount, index: u32) -> (r: Option<Identity>)
    requires
        s.wf(),
    ensures
        r == s.spec_executor(index),
{
    match executor_pos(s, index) {
        Some(i) => {
            proof {
                lemma_assoc_get_index(s.executors@, i as int);
            }
            Some(s.executors[i].1)
        },
        None => {
            proof {
                lemma_assoc_get_absent(s.executors@, index);
            }
            None
        },
    }
}

pub fn read_is_executor(s: &SubAccount, caller_id: Identity) -> (r: bool)
    ensures
        r == s.spec_is_executor(caller_id),
{
    let n = s.executor_flags.len();
    let mut i: usize = 0;
    while i < n
        invariant
            i <= n,
            n == s.executor_flags@.len(),
            forall|j: int| 0 <= j < i ==> s.executor_flags@[j] != caller_id,
        decreases n - i,
    {
        if s.executor_flags[i].id == caller_id.id {
            assert(s.executor_flags@[i as int] == caller_id);
            return true;
        }
        i = i + 1;
    }
    false
}

pub fn has_owner(s: &SubAccount) -> (r: bool)
    ensures
        r == (s.owner is Some),
{
    s.owner.is_some()
}

pub fn read_owner(s: &SubAccount) -> (r: Option<Identity>)
    ensures
        r == s.owner,
{
    s.owner
}

pub fn write_owner(s: &mut SubAccount, owner_id: Identity)
    ensures
        *final(s) == (SubAccount { owner: Some(owner_id), ..*old(s) }),
{
    s.owner = Some(owner_id);
}

pub fn read_profile_encrypted(s: &SubAccount) -> (r: Option<&ProfileEncrypted>)
    ensures
        match r {
            Some(p) => s.profile == Some(*p),
            None => s.profile is None,
        },
{
    match &s.profile {
        Some(p) => Some(p),
        None => None,
    }
}

pub fn write_profile_encrypted(
    s: &mut SubAccount,
    platform: Vec<u8>,
    profile_id: Vec<u8>,
    salt: Vec<u8>,
    salt_iv: Vec<u8>,
    key_index: Vec<u8>,
    index_iv: Vec<u8>,
)
    ensures
        *final(s) == (SubAccount {
            profile: Some(
                ProfileEncrypted {
                    platform: platform,
                    profile_id: profile_id,
                    gen_salt_encrypted: salt,
                    salt_encryption_iv: salt_iv,
                    index_encrypted: key_index,
                    index_encryption_iv: index_iv,
                },
            ),
            ..*old(s)
        }),
{
    s.profile = Some(
        ProfileEncrypted {
            platform: platform,
            profile_id: profile_id,
            gen_salt_encrypted: salt,
            salt_encryption_iv: salt_iv,
            index_encrypted: key_index,
            index_encryption_iv: index_iv,
        },
    );
}

pub fn write_passkey_hash(s: &mut SubAccount, passkey_hash: Vec<u8>)
    ensures
        *final(s) == (SubAccount { passkey_hash: Some(passkey_hash), ..*old(s) }),
{
    s.passkey_hash = Some(passkey_hash);
}

/// Returns the encrypted key material, provided the presented profile id
/// matches the stored one; fails as not-found otherwise, or when no profile
/// was ever written.
pub fn read_encrypted_keys(s: &SubAccount, profile_id: &Vec<u8>) -> (r: Result<
    EncryptedKeys,
    Error,
>)
    ensures
        match s.profile {
            None => r == Err::<EncryptedKeys, Error>(Error::NotFound),
            Some(p) => {
                if p.profile_id@ == profile_id@ {
                    &&& r is Ok
                    &&& r matches Ok(k) ==> {
                        &&& k.gen_salt_encrypted@ == p.gen_salt_encrypted@
                        &&& k.salt_encryption_iv@ == p.salt_encryption_iv@
                        &&& k.index_encrypted@ == p.index_encrypted@
                        &&& k.index_encryption_iv@ == p.index_encryption_iv@
                    }
                } else {
                    r == Err::<EncryptedKeys, Error>(Error::NotFound)
                }
            },
        },
{
    match &s.profile {
        None => Err(Error::NotFound),
        Some(p) => {
            if bytes_eq(profile_id, &p.profile_id) {
                Ok(
                    EncryptedKeys {
                        gen_salt_encrypted: bytes_clone(&p.gen_salt_encrypted),
                        salt_encryption_iv: bytes_clone(&p.salt_encryption_iv),
                        index_encrypted: bytes_clone(&p.index_encrypted),
                        index_encryption_iv: bytes_clone(&p.index_encryption_iv),
                    },
                )
            } else {
                Err(Error::NotFound)
            }
        },
    }
}

/// Byte-for-byte comparison of the entered passkey hash against the stored
/// commitment.
pub fn check_zk_validation(s: &SubAccount, entered_passkey_hash: &Vec<u8>) -> (r: bool)
    requires
        s.passkey_hash is Some,
    ensures
        r == s.spec_passkey_match(entered_passkey_hash@),
{
    match &s.passkey_hash {
        Some(h) => bytes_eq(entered_passkey_hash, h),
        None => false,
    }
}

pub fn read_max_allowance(s: &SubAccount) -> (r: i128)
    ensures
        r == s.spec_allowance(),
{
    match s.max_allowance {
        Some(a) => a,
        None => 0,
    }
}

pub fn write_max_allowance(s: &mut SubAccount, allowance: i128)
    ensures
        *final(s) == (SubAccount { max_allowance: Some(allowance), ..*old(s) }),
{
    s.max_allowance = Some(allowance);
}

pub fn read_controller(s: &SubAccount) -> (r: Option<Identity>)
    ensures
        r == s.controller,
{
    s.controller
}

pub fn write_controller(s: &mut SubAccount, controller_id: Identity)
    ensures
        *final(s) == (SubAccount { controller: Some(controller_id), ..*old(s) }),
{
    s.controller = Some(controller_id);
}

} // verus!
