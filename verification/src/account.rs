use vstd::prelude::*;

use crate::access::{
    check_zk_validation, has_owner, read_encrypted_keys, read_executor, read_executors_set,
    read_is_executor, read_is_initialized, read_max_allowance, read_owner, write_controller,
    write_executor,
    write_executors_set, write_is_initialized, write_max_allowance, write_owner,
    write_passkey_hash, write_profile_encrypted,
};
use crate::balance::{read_balance, write_balance};
use crate::crypto::{nonce_preimage, nonce_preimage_bytes, sha256_digest, sha256_of};
use crate::data::{EncryptedKeys, Error, Identity, ProfileEncrypted, Token, UserPoints};
use crate::store::{assoc_get, distinct_keys, lemma_contains_push};
use crate::tokens::{
    read_has_been_added, read_token_count, read_tokens, save_token_id, spec_tokens,
    write_smart_transact_active, write_token_count,
};
use crate::transact::{
    increase_nonce, read_nonce, read_transact_no, read_tx_nonce, send_token, take_token,
    write_tx_nonce,
};
use crate::user_quest::{read_quest_data, write_quest_data};

verus! {

/// Whether the host's authorization proofs cover an identity. The embedding
/// passes the set of identities that proved authorization of the current
/// invocation; this stands in for the host's "require auth" primitive.
pub fn is_authorized(auths: &Vec<Identity>, id: Identity) -> (r: bool)
    ensures
        r == auths@.contains(id),
{
    let n = auths.len();
    let mut i: usize = 0;
    while i < n
        invariant
            i <= n,
            n == auths@.len(),
            forall|j: int| 0 <= j < i ==> auths@[j] != id,
        decreases n - i,
    {
        if auths[i].id == id.id {
            assert(auths@[i as int] == id);
            return true;
        }
        i = i + 1;
    }
    false
}

/// The whole state of one programmable sub-account, as an explicit aggregate.
/// The host persists a value of this type between invocations and hands it to
/// each entry point; every entry point either commits all its writes or
/// returns an error and leaves the state untouched.
pub struct SubAccount {
    /// Set exactly once; later initialization attempts fail.
    pub initialized: bool,
    /// The external-identity holder of the account, set at most once.
    pub owner: Option<Identity>,
    /// The orchestrating module recorded at initialization.
    pub controller: Option<Identity>,
    /// Encrypted social-profile material, present for social-identity accounts.
    pub profile: Option<ProfileEncrypted>,
    /// The committed passkey hash a caller must reproduce on the social path.
    pub passkey_hash: Option<Vec<u8>>,
    /// Spending ceiling for the passkey-authorized transfer path.
    pub max_allowance: Option<i128>,
    /// Indexed executor roster: index -> identity, last write per index wins.
    pub executors: Vec<(u32, Identity)>,
    /// Every identity that was ever written into the roster; never cleared.
    pub executor_flags: Vec<Identity>,
    /// Advisory count: mirrors the last index written, not a cardinality.
    pub executor_count: u32,
    /// Once true, no further roster writes succeed.
    pub executors_set: bool,
    /// Per-token signed balance accumulator.
    pub balances: Vec<(Identity, i128)>,
    /// Every token whose balance was ever credited through an entry point.
    pub token_added: Vec<Identity>,
    /// Dense registry of tokens, position i holding registry index i + 1.
    pub token_ids: Vec<Identity>,
    /// How many registry indices are live; at most `token_ids` entries.
    pub token_count: u32,
    /// Informational smart-transact flag per token.
    pub smart_transact: Vec<(Identity, bool)>,
    /// Strictly increasing source of derived one-time nonces.
    pub sequence_nonce: u32,
    /// The last derived pre-authorization nonce; empty when cleared.
    pub tx_nonce: Vec<u8>,
    /// Incremented once per completed transfer, in either direction.
    pub transaction_count: u32,
    /// Milestones and score, written at initialization.
    pub quest: Option<UserPoints>,
}

impl SubAccount {
    /// Structural well-formedness: the association lists bind each key once,
    /// the registry prefix is live, its entries are pairwise distinct, and
    /// every registered token carries the ever-credited flag.
    pub open spec fn wf(self) -> bool {
        &&& distinct_keys(self.balances@)
        &&& distinct_keys(self.smart_transact@)
        &&& distinct_keys(self.executors@)
        &&& self.token_count == self.token_ids@.len()
        &&& (forall|i: int, j: int|
            0 <= i < j < self.token_ids@.len() ==> self.token_ids@[i] != self.token_ids@[j])
        &&& (forall|i: int|
            0 <= i < self.token_ids@.len() ==> self.token_added@.contains(self.token_ids@[i]))
    }

    /// The ledger balance of a token: the stored amount, or zero if never set.
    pub open spec fn spec_balance(self, token_id: Identity) -> int {
        match assoc_get(self.balances@, token_id) {
            Some(b) => b as int,
            None => 0,
        }
    }

    /// The smart-transact flag of a token, false if never set.
    pub open spec fn spec_smart_transact(self, token_id: Identity) -> bool {
        match assoc_get(self.smart_transact@, token_id) {
            Some(b) => b,
            None => false,
        }
    }

    /// The executor bound to a roster index, if any.
    pub open spec fn spec_executor(self, index: u32) -> Option<Identity> {
        assoc_get(self.executors@, index)
    }

    /// Whether an identity was ever written into the roster.
    pub open spec fn spec_is_executor(self, caller_id: Identity) -> bool {
        self.executor_flags@.contains(caller_id)
    }

    /// Whether a token was ever credited through an entry point.
    pub open spec fn spec_has_been_added(self, token_id: Identity) -> bool {
        self.token_added@.contains(token_id)
    }

    /// Whether a token sits in the live registry prefix.
    pub open spec fn spec_registered(self, token_id: Identity) -> bool {
        exists|i: int| 0 <= i < self.token_count && self.token_ids@[i] == token_id
    }

    /// What one listing entry promises: the token's live balance, strictly
    /// positive, and its current smart-transact flag.
    pub open spec fn spec_listed(self, tok: Token) -> bool {
        &&& tok.balance == self.spec_balance(tok.token_id)
        &&& tok.balance > 0
        &&& tok.smart_transact == self.spec_smart_transact(tok.token_id)
    }

    /// Whether the entered bytes reproduce the stored passkey commitment.
    pub open spec fn spec_passkey_match(self, entered: Seq<u8>) -> bool {
        match self.passkey_hash {
            Some(h) => h@ == entered,
            None => false,
        }
    }

    /// The allowance ceiling, zero if never set.
    pub open spec fn spec_allowance(self) -> i128 {
        match self.max_allowance {
            Some(a) => a,
            None => 0,
        }
    }

    /// A fresh account: nothing initialized, every store empty.
    pub fn new() -> (r: SubAccount)
        ensures
            r.wf(),
            !r.initialized,
            r.owner is None,
            r.controller is None,
            r.profile is None,
            r.passkey_hash is None,
            r.max_allowance is None,
            r.executors@.len() == 0,
            r.executor_flags@.len() == 0,
            r.executor_count == 0,
            !r.executors_set,
            r.balances@.len() == 0,
            r.token_added@.len() == 0,
            r.token_ids@.len() == 0,
            r.token_count == 0,
            r.smart_transact@.len() == 0,
            r.sequence_nonce == 0,
            r.tx_nonce@.len() == 0,
            r.transaction_count == 0,
            r.quest is None,
    {
        SubAccount {
            initialized: false,
            owner: None,
            controller: None,
            profile: None,
            passkey_hash: None,
            max_allowance: None,
            executors: Vec::new(),
            executor_flags: Vec::new(),
            executor_count: 0,
            executors_set: false,
            balances: Vec::new(),
            token_added: Vec::new(),
            token_ids: Vec::new(),
            token_count: 0,
            smart_transact: Vec::new(),
            sequence_nonce: 0,
            tx_nonce: Vec::new(),
            transaction_count: 0,
            quest: None,
        }
    }
}


/// The initial quest record: opening an account earns the starting score.
pub open spec fn spec_initial_points() -> UserPoints {
    UserPoints {
        has_set_signer: false,
        has_set_allowance: false,
        has_received: false,
        has_sent: false,
        points: 2000,
    }
}

impl SubAccount {
    /// Initialization of the account when it is created from an external
    /// wallet address: records the owner and the controller, opens the quest
    /// record, and marks the account initialized, exactly once.
    pub fn init_with_address(&mut self, controller_id: Identity, owner_id: Identity) -> (r: Result<
        (),
        Error,
    >)
        requires
            old(self).wf(),
        ensures
            final(self).wf(),
            if old(self).initialized {
                r == Err::<(), Error>(Error::AlreadyInitialized) && *final(self) == *old(self)
            } else {
                r is Ok && *final(self) == (SubAccount {
                    initialized: true,
                    owner: Some(owner_id),
                    controller: Some(controller_id),
                    quest: Some(spec_initial_points()),
                    ..*old(self)
                })
            },
    {
        let is_initialized = read_is_initialized(self);
        if is_initialized {
            return Err(Error::AlreadyInitialized);
        }
        write_owner(self, owner_id);
        write_controller(self, controller_id);
        let user_points = UserPoints {
            has_set_signer: false,
            has_set_allowance: false,
            has_received: false,
            has_sent: false,
            points: 2000,
        };
        write_quest_data(self, user_points);
        write_is_initialized(self);
        Ok(())
    }

    /// Initialization of the account when it is created from a social
    /// identity: records the controller, the passkey commitment, the
    /// encrypted profile material and the allowance ceiling, opens the quest
    /// record, and marks the account initialized, exactly once.
    pub fn init_with_profile(
        &mut self,
        controller_id: Identity,
        platform: Vec<u8>,
        profile_id: Vec<u8>,
        salt: Vec<u8>,
        salt_iv: Vec<u8>,
        key_index: Vec<u8>,
        index_iv: Vec<u8>,
        passkey_hash: Vec<u8>,
        max_allowance: i128,
    ) -> (r: Result<(), Error>)
        requires
            old(self).wf(),
        ensures
            final(self).wf(),
            if old(self).initialized {
                r == Err::<(), Error>(Error::AlreadyInitialized) && *final(self) == *old(self)
            } else {
                r is Ok && *final(self) == (SubAccount {
                    initialized: true,
                    controller: Some(controller_id),
                    passkey_hash: Some(passkey_hash),
                    profile: Some(
                        ProfileEncrypted {
                            platform: platform,
                            profile_id: profile_id,
                            gen_salt_encrypted: salt,
                            salt_encryption_iv: salt_iv,
                            index_encrypted: key_index,
                            index_encryption_iv: index_iv,
                        },
                    ),
                    max_allowance: Some(max_allowance),
                    quest: Some(spec_initial_points()),
                    ..*old(self)
                })
            },
    {
        let is_initialized = read_is_initialized(self);
        if is_initialized {
            return Err(Error::AlreadyInitialized);
        }
        write_controller(self, controller_id);
        write_passkey_hash(self, passkey_hash);
        write_profile_encrypted(self, platform, profile_id, salt, salt_iv, key_index, index_iv);
        write_max_allowance(self, max_allowance);
        let user_points = UserPoints {
            has_set_signer: false,
            has_set_allowance: false,
            has_received: false,
            has_sent: false,
            points: 2000,
        };
        write_quest_data(self, user_points);
        write_is_initialized(self);
        Ok(())
    }

    /// Binds a roster index to an executor identity, while the roster is
    /// still open. Called during account creation only.
    pub fn set_executor(&mut self, index: u32, executor: Identity) -> (r: Result<(), Error>)
        requires
            old(self).wf(),
        ensures
            final(self).wf(),
            old(self).executors_set ==> r == Err::<(), Error>(Error::AlreadySealed) && *final(self)
                == *old(self),
            !old(self).executors_set ==> {
                &&& r is Ok
                &&& final(self).spec_executor(index) == Some(executor)
                &&& forall|i: u32|
                    i != index ==> final(self).spec_executor(i) == old(self).spec_executor(i)
                &&& forall|x: Identity|
                    final(self).spec_is_executor(x) <==> (old(self).spec_is_executor(x) || x
                        == executor)
                &&& *final(self) == (SubAccount {
                    executors: final(self).executors,
                    executor_flags: final(self).executor_flags,
                    executor_count: index,
                    ..*old(self)
                })
            },
    {
        let executors_set = read_executors_set(self);
        if executors_set {
            return Err(Error::AlreadySealed);
        }
        write_executor(self, index, executor);
        Ok(())
    }

    /// Seals the executor roster, exactly once: afterwards neither another
    /// seal nor any further roster write succeeds.
    pub fn set_executor_done(&mut self) -> (r: Result<(), Error>)
        requires
            old(self).wf(),
        ensures
            final(self).wf(),
            old(self).executors_set ==> r == Err::<(), Error>(Error::AlreadySealed) && *final(self)
                == *old(self),
            !old(self).executors_set ==> r is Ok && *final(self) == (SubAccount {
                executors_set: true,
                ..*old(self)
            }),
    {
        let executors_set = read_executors_set(self);
        if executors_set {
            return Err(Error::AlreadySealed);
        }
        write_executors_set(self);
        Ok(())
    }

    /// Replaces the whole quest record; only a roster executor may do so.
    pub fn update_user_points(&mut self, caller: Identity, user_data: UserPoints) -> (r: Result<
        (),
        Error,
    >)
        requires
            old(self).wf(),
        ensures
            final(self).wf(),
            if old(self).spec_is_executor(caller) {
                r is Ok && *final(self) == (SubAccount { quest: Some(user_data), ..*old(self) })
            } else {
                r == Err::<(), Error>(Error::Unauthorized) && *final(self) == *old(self)
            },
    {
        let is_executor = read_is_executor(self, caller);
        if !is_executor {
            return Err(Error::Unauthorized);
        }
        write_quest_data(self, user_data);
        Ok(())
    }

    /// Sets the allowance ceiling on the owner's say-so: the owner must be
    /// recorded and must have authorized this invocation.
    pub fn set_allowance_with_addr(&mut self, allowance: i128, auths: &Vec<Identity>) -> (r: Result<
        (),
        Error,
    >)
        requires
            old(self).wf(),
        ensures
            final(self).wf(),
            match old(self).owner {
                None => r == Err::<(), Error>(Error::NotFound) && *final(self) == *old(self),
                Some(o) => if auths@.contains(o) {
                    r is Ok && *final(self) == (SubAccount {
                        max_allowance: Some(allowance),
                        ..*old(self)
                    })
                } else {
                    r == Err::<(), Error>(Error::Unauthorized) && *final(self) == *old(self)
                },
            },
    {
        let owner = match read_owner(self) {
            Some(o) => o,
            None => {
                return Err(Error::NotFound);
            },
        };
        if !is_authorized(auths, owner) {
            return Err(Error::Unauthorized);
        }
        write_max_allowance(self, allowance);
        Ok(())
    }

    /// Sets the allowance ceiling on the social path. Guard order: the
    /// entered passkey hash must reproduce the stored commitment, then the
    /// named executor must have authorized the invocation. Awards the
    /// allowance milestone.
    pub fn set_allowance_pkey(
        &mut self,
        executor_index: u32,
        entered_passkey_hash: &Vec<u8>,
        allowance: i128,
        auths: &Vec<Identity>,
    ) -> (r: Result<(), Error>)
        requires
            old(self).wf(),
            old(self).spec_passkey_match(entered_passkey_hash@) ==> match old(self).spec_executor(
                executor_index,
            ) {
                Some(ex) => auths@.contains(ex) ==> match old(self).quest {
                    Some(q) => q.points + 500 <= u32::MAX,
                    None => true,
                },
                None => true,
            },
        ensures
            final(self).wf(),
            if old(self).passkey_hash is None {
                r == Err::<(), Error>(Error::NotFound) && *final(self) == *old(self)
            } else if !old(self).spec_passkey_match(entered_passkey_hash@) {
                r == Err::<(), Error>(Error::Unauthorized) && *final(self) == *old(self)
            } else {
                match old(self).spec_executor(executor_index) {
                    None => r == Err::<(), Error>(Error::NotFound) && *final(self) == *old(self),
                    Some(ex) => if !auths@.contains(ex) {
                        r == Err::<(), Error>(Error::Unauthorized) && *final(self) == *old(self)
                    } else {
                        match old(self).quest {
                            None => r == Err::<(), Error>(Error::NotFound) && *final(self) == *old(
                                self,
                            ),
                            Some(q) => r is Ok && *final(self) == (SubAccount {
                                max_allowance: Some(allowance),
                                quest: Some(
                                    UserPoints {
                                        has_set_allowance: true,
                                        points: (q.points + 500) as u32,
                                        ..q
                                    },
                                ),
                                ..*old(self)
                            }),
                        }
                    },
                }
            },
    {
        if self.passkey_hash.is_none() {
            return Err(Error::NotFound);
        }
        let authorized = check_zk_validation(self, entered_passkey_hash);
        if !authorized {
            return Err(Error::Unauthorized);
        }
        let executor = match read_executor(self, executor_index) {
            Some(ex) => ex,
            None => {
                return Err(Error::NotFound);
            },
        };
        if !is_authorized(auths, executor) {
            return Err(Error::Unauthorized);
        }
        let mut user_data = match read_quest_data(self) {
            Some(q) => q,
            None => {
                return Err(Error::NotFound);
            },
        };
        write_max_allowance(self, allowance);
        user_data.has_set_allowance = true;
        user_data.points = user_data.points + 500;
        write_quest_data(self, user_data);
        Ok(())
    }

    /// Sets the owner of a social-identity account, exactly once. Guard
    /// order: the named executor must have authorized the invocation, the
    /// owner slot must still be empty, and the entered passkey hash must
    /// reproduce the stored commitment; all three must hold or the owner is
    /// left untouched. Awards the signer milestone.
    pub fn set_owner_pkey(
        &mut self,
        executor_index: u32,
        entered_passkey_hash: &Vec<u8>,
        owner_id: Identity,
        auths: &Vec<Identity>,
    ) -> (r: Result<(), Error>)
        requires
            old(self).wf(),
            match old(self).spec_executor(executor_index) {
                Some(ex) => auths@.contains(ex) && old(self).owner is None && old(
                    self,
                ).spec_passkey_match(entered_passkey_hash@) ==> match old(self).quest {
                    Some(q) => q.points + 500 <= u32::MAX,
                    None => true,
                },
                None => true,
            },
        ensures
            final(self).wf(),
            match old(self).spec_executor(executor_index) {
                None => r == Err::<(), Error>(Error::NotFound) && *final(self) == *old(self),
                Some(ex) => if !auths@.contains(ex) {
                    r == Err::<(), Error>(Error::Unauthorized) && *final(self) == *old(self)
                } else if old(self).owner is Some {
                    r == Err::<(), Error>(Error::AlreadyInitialized) && *final(self) == *old(self)
                } else if old(self).passkey_hash is None {
                    r == Err::<(), Error>(Error::NotFound) && *final(self) == *old(self)
                } else if !old(self).spec_passkey_match(entered_passkey_hash@) {
                    r == Err::<(), Error>(Error::Unauthorized) && *final(self) == *old(self)
                } else {
                    match old(self).quest {
                        None => r == Err::<(), Error>(Error::NotFound) && *final(self) == *old(
                            self,
                        ),
                        Some(q) => r is Ok && *final(self) == (SubAccount {
                            owner: Some(owner_id),
                            quest: Some(
                                UserPoints {
                                    has_set_signer: true,
                                    points: (q.points + 500) as u32,
                                    ..q
                                },
                            ),
                            ..*old(self)
                        }),
                    }
                },
            },
    {
        let executor = match read_executor(self, executor_index) {
            Some(ex) => ex,
            None => {
                return Err(Error::NotFound);
            },
        };
        if !is_authorized(auths, executor) {
            return Err(Error::Unauthorized);
        }
        let owner_present = has_owner(self);
        if owner_present {
            return Err(Error::AlreadyInitialized);
        }
        if self.passkey_hash.is_none() {
            return Err(Error::NotFound);
        }
        let authorized = check_zk_validation(self, entered_passkey_hash);
        if !authorized {
            return Err(Error::Unauthorized);
        }
        let mut user_data = match read_quest_data(self) {
            Some(q) => q,
            None => {
                return Err(Error::NotFound);
            },
        };
        write_owner(self, owner_id);
        user_data.has_set_signer = true;
        user_data.points = user_data.points + 500;
        write_quest_data(self, user_data);
        Ok(())
    }

    /// Toggles a token's smart-transact flag on the owner's say-so.
    pub fn set_smart_transact_addr(
        &mut self,
        token_id: Identity,
        activate_disable: bool,
        auths: &Vec<Identity>,
    ) -> (r: Result<(), Error>)
        requires
            old(self).wf(),
        ensures
            final(self).wf(),
            match old(self).owner {
                None => r == Err::<(), Error>(Error::NotFound) && *final(self) == *old(self),
                Some(o) => if auths@.contains(o) {
                    &&& r is Ok
                    &&& final(self).spec_smart_transact(token_id) == activate_disable
                    &&& forall|t: Identity|
                        t != token_id ==> final(self).spec_smart_transact(t) == old(
                            self,
                        ).spec_smart_transact(t)
                    &&& *final(self) == (SubAccount {
                        smart_transact: final(self).smart_transact,
                        ..*old(self)
                    })
                } else {
                    r == Err::<(), Error>(Error::Unauthorized) && *final(self) == *old(self)
                },
            },
    {
        let owner = match read_owner(self) {
            Some(o) => o,
            None => {
                return Err(Error::NotFound);
            },
        };
        if !is_authorized(auths, owner) {
            return Err(Error::Unauthorized);
        }
        write_smart_transact_active(self, token_id, activate_disable);
        Ok(())
    }

    /// Toggles a token's smart-transact flag on the social path: passkey
    /// commitment first, then the named executor's authorization.
    pub fn set_smart_transact_pkey(
        &mut self,
        executor_index: u32,
        entered_passkey_hash: &Vec<u8>,
        token_id: Identity,
        activate_disable: bool,
        auths: &Vec<Identity>,
    ) -> (r: Result<(), Error>)
        requires
            old(self).wf(),
        ensures
            final(self).wf(),
            if old(self).passkey_hash is None {
                r == Err::<(), Error>(Error::NotFound) && *final(self) == *old(self)
            } else if !old(self).spec_passkey_match(entered_passkey_hash@) {
                r == Err::<(), Error>(Error::Unauthorized) && *final(self) == *old(self)
            } else {
                match old(self).spec_executor(executor_index) {
                    None => r == Err::<(), Error>(Error::NotFound) && *final(self) == *old(self),
                    Some(ex) => if auths@.contains(ex) {
                        &&& r is Ok
                        &&& final(self).spec_smart_transact(token_id) == activate_disable
                        &&& forall|t: Identity|
                            t != token_id ==> final(self).spec_smart_transact(t) == old(
                                self,
                            ).spec_smart_transact(t)
                        &&& *final(self) == (SubAccount {
                            smart_transact: final(self).smart_transact,
                            ..*old(self)
                        })
                    } else {
                        r == Err::<(), Error>(Error::Unauthorized) && *final(self) == *old(self)
                    },
                }
            },
    {
        if self.passkey_hash.is_none() {
            return Err(Error::NotFound);
        }
        let authorized = check_zk_validation(self, entered_passkey_hash);
        if !authorized {
            return Err(Error::Unauthorized);
        }
        let executor = match read_executor(self, executor_index) {
            Some(ex) => ex,
            None => {
                return Err(Error::NotFound);
            },
        };
        if !is_authorized(auths, executor) {
            return Err(Error::Unauthorized);
        }
        write_smart_transact_active(self, token_id, activate_disable);
        Ok(())
    }
}

impl SubAccount {
    /// Receives funds from an external wallet into the account: the sender
    /// must have authorized the invocation and the host's transfer must have
    /// gone through. Credits the ledger, registers the token on first
    /// credit, and awards the received milestone.
    pub fn receive(
        &mut self,
        from: Identity,
        token_id: Identity,
        amount: i128,
        auths: &Vec<Identity>,
        transfer_ok: bool,
    ) -> (r: Result<(), Error>)
        requires
            old(self).wf(),
            auths@.contains(from) && transfer_ok ==> {
                &&& i128::MIN <= old(self).spec_balance(token_id) + amount <= i128::MAX
                &&& old(self).transaction_count < u32::MAX
                &&& (!old(self).spec_has_been_added(token_id) ==> old(self).token_count < u32::MAX)
                &&& match old(self).quest {
                    Some(q) => q.points + 250 <= u32::MAX,
                    None => true,
                }
            },
        ensures
            final(self).wf(),
            if !auths@.contains(from) {
                r == Err::<(), Error>(Error::Unauthorized) && *final(self) == *old(self)
            } else if !transfer_ok {
                r == Err::<(), Error>(Error::ExternalTransferFailure) && *final(self) == *old(self)
            } else {
                match old(self).quest {
                    None => r == Err::<(), Error>(Error::NotFound) && *final(self) == *old(self),
                    Some(q) => {
                        &&& r is Ok
                        &&& final(self).spec_balance(token_id) == old(self).spec_balance(token_id)
                            + amount
                        &&& forall|t: Identity|
                            t != token_id ==> final(self).spec_balance(t) == old(self).spec_balance(
                                t,
                            )
                        &&& final(self).transaction_count == old(self).transaction_count + 1
                        &&& final(self).quest == Some(
                            UserPoints {
                                has_received: true,
                                points: (q.points + 250) as u32,
                                ..q
                            },
                        )
                        &&& forall|t: Identity|
                            final(self).spec_has_been_added(t) <==> (old(self).spec_has_been_added(
                                t,
                            ) || t == token_id)
                        &&& (old(self).spec_has_been_added(token_id) ==> final(self).token_ids
                            == old(self).token_ids && final(self).token_count == old(
                            self,
                        ).token_count)
                        &&& (!old(self).spec_has_been_added(token_id) ==> final(self).token_ids@
                            == old(self).token_ids@.push(token_id) && final(self).token_count
                            == old(self).token_count + 1 && final(self).spec_registered(token_id))
                        &&& *final(self) == (SubAccount {
                            balances: final(self).balances,
                            token_added: final(self).token_added,
                            token_ids: final(self).token_ids,
                            token_count: final(self).token_count,
                            transaction_count: final(self).transaction_count,
                            quest: final(self).quest,
                            ..*old(self)
                        })
                    },
                }
            },
    {
        if !is_authorized(auths, from) {
            return Err(Error::Unauthorized);
        }
        if !transfer_ok {
            return Err(Error::ExternalTransferFailure);
        }
        let mut user_data = match read_quest_data(self) {
            Some(q) => q,
            None => {
                return Err(Error::NotFound);
            },
        };
        match take_token(self, from, token_id, amount, transfer_ok) {
            Ok(u) => u,
            Err(e) => {
                return Err(e);
            },
        };
        write_balance(self, token_id, amount);
        let ghost mid = *self;
        let has_been_added = read_has_been_added(self, token_id);
        if !has_been_added {
            self.token_added.push(token_id);
            proof {
                lemma_contains_push(old(self).token_added@, token_id);
            }
            let new_count = read_token_count(self) + 1;
            save_token_id(self, new_count, token_id);
            write_token_count(self, new_count);
            assert(self.token_ids@[self.token_count - 1] == token_id);
        }
        proof {
            assert forall|t: Identity| t != token_id implies self.spec_balance(t) == old(
                self,
            ).spec_balance(t) by {
                assert(mid.spec_balance(t) == old(self).spec_balance(t));
                assert(self.balances == mid.balances);
            }
        }
        user_data.has_received = true;
        user_data.points = user_data.points + 250;
        write_quest_data(self, user_data);
        Ok(())
    }

    /// Sets a token's ledger balance by a signed delta on an executor's
    /// say-so, registering the token on first credit. No transfer and no
    /// quest update are involved.
    pub fn set_dashboard_balance(
        &mut self,
        caller: Identity,
        token_id: Identity,
        amount: i128,
    ) -> (r: Result<(), Error>)
        requires
            old(self).wf(),
            old(self).spec_is_executor(caller) ==> {
                &&& i128::MIN <= old(self).spec_balance(token_id) + amount <= i128::MAX
                &&& (!old(self).spec_has_been_added(token_id) ==> old(self).token_count < u32::MAX)
            },
        ensures
            final(self).wf(),
            if !old(self).spec_is_executor(caller) {
                r == Err::<(), Error>(Error::Unauthorized) && *final(self) == *old(self)
            } else {
                &&& r is Ok
                &&& final(self).spec_balance(token_id) == old(self).spec_balance(token_id) + amount
                &&& forall|t: Identity|
                    t != token_id ==> final(self).spec_balance(t) == old(self).spec_balance(t)
                &&& forall|t: Identity|
                    final(self).spec_has_been_added(t) <==> (old(self).spec_has_been_added(t) || t
                        == token_id)
                &&& (old(self).spec_has_been_added(token_id) ==> final(self).token_ids == old(
                    self,
                ).token_ids && final(self).token_count == old(self).token_count)
                &&& (!old(self).spec_has_been_added(token_id) ==> final(self).token_ids@ == old(
                    self,
                ).token_ids@.push(token_id) && final(self).token_count == old(self).token_count + 1
                    && final(self).spec_registered(token_id))
                &&& *final(self) == (SubAccount {
                    balances: final(self).balances,
                    token_added: final(self).token_added,
                    token_ids: final(self).token_ids,
                    token_count: final(self).token_count,
                    ..*old(self)
                })
            },
    {
        let is_executor = read_is_executor(self, caller);
        if !is_executor {
            return Err(Error::Unauthorized);
        }
        write_balance(self, token_id, amount);
        let has_been_added = read_has_been_added(self, token_id);
        if !has_been_added {
            self.token_added.push(token_id);
            proof {
                lemma_contains_push(old(self).token_added@, token_id);
            }
            let new_count = read_token_count(self) + 1;
            save_token_id(self, new_count, token_id);
            write_token_count(self, new_count);
            assert(self.token_ids@[self.token_count - 1] == token_id);
        }
        Ok(())
    }

    /// Sends funds out of the account on the owner's say-so: the owner must
    /// be recorded and must have authorized the invocation, and the host's
    /// transfer must have gone through. Debits the ledger.
    pub fn send_auth_addr(
        &mut self,
        to: Identity,
        token_id: Identity,
        amount: i128,
        auths: &Vec<Identity>,
        transfer_ok: bool,
    ) -> (r: Result<(), Error>)
        requires
            old(self).wf(),
            match old(self).owner {
                Some(o) => auths@.contains(o) && transfer_ok ==> {
                    &&& amount != i128::MIN
                    &&& i128::MIN <= old(self).spec_balance(token_id) - amount <= i128::MAX
                    &&& old(self).transaction_count < u32::MAX
                },
                None => true,
            },
        ensures
            final(self).wf(),
            match old(self).owner {
                None => r == Err::<(), Error>(Error::NotFound) && *final(self) == *old(self),
                Some(o) => if !auths@.contains(o) {
                    r == Err::<(), Error>(Error::Unauthorized) && *final(self) == *old(self)
                } else if !transfer_ok {
                    r == Err::<(), Error>(Error::ExternalTransferFailure) && *final(self) == *old(
                        self,
                    )
                } else {
                    &&& r is Ok
                    &&& final(self).spec_balance(token_id) == old(self).spec_balance(token_id)
                        - amount
                    &&& forall|t: Identity|
                        t != token_id ==> final(self).spec_balance(t) == old(self).spec_balance(t)
                    &&& final(self).transaction_count == old(self).transaction_count + 1
                    &&& *final(self) == (SubAccount {
                        balances: final(self).balances,
                        transaction_count: final(self).transaction_count,
                        ..*old(self)
                    })
                },
            },
    {
        let owner = match read_owner(self) {
            Some(o) => o,
            None => {
                return Err(Error::NotFound);
            },
        };
        if !is_authorized(auths, owner) {
            return Err(Error::Unauthorized);
        }
        match send_token(self, to, token_id, amount, transfer_ok) {
            Ok(u) => u,
            Err(e) => {
                return Err(e);
            },
        };
        write_balance(self, token_id, -amount);
        Ok(())
    }

    /// Sends funds out of the account on the social path. Guard order, which
    /// callers observe through the error returned: passkey commitment match,
    /// allowance bound, executor resolution and proof, executor membership;
    /// then the host's transfer must have gone through. On any failure no
    /// balance change occurs.
    pub fn send_with_pkey(
        &mut self,
        executor_index: u32,
        entered_passkey_hash: &Vec<u8>,
        to: Identity,
        token_id: Identity,
        amount: i128,
        auths: &Vec<Identity>,
        transfer_ok: bool,
    ) -> (r: Result<(), Error>)
        requires
            old(self).wf(),
            old(self).spec_passkey_match(entered_passkey_hash@) && amount <= old(
                self,
            ).spec_allowance() && transfer_ok ==> {
                &&& amount != i128::MIN
                &&& i128::MIN <= old(self).spec_balance(token_id) - amount <= i128::MAX
                &&& old(self).transaction_count < u32::MAX
            },
        ensures
            final(self).wf(),
            if old(self).passkey_hash is None {
                r == Err::<(), Error>(Error::NotFound) && *final(self) == *old(self)
            } else if !old(self).spec_passkey_match(entered_passkey_hash@) {
                r == Err::<(), Error>(Error::Unauthorized) && *final(self) == *old(self)
            } else if amount > old(self).spec_allowance() {
                r == Err::<(), Error>(Error::LimitExceeded) && *final(self) == *old(self)
            } else {
                match old(self).spec_executor(executor_index) {
                    None => r == Err::<(), Error>(Error::NotFound) && *final(self) == *old(self),
                    Some(ex) => if !auths@.contains(ex) {
                        r == Err::<(), Error>(Error::Unauthorized) && *final(self) == *old(self)
                    } else if !old(self).spec_is_executor(ex) {
                        r == Err::<(), Error>(Error::Unauthorized) && *final(self) == *old(self)
                    } else if !transfer_ok {
                        r == Err::<(), Error>(Error::ExternalTransferFailure) && *final(self)
                            == *old(self)
                    } else {
                        &&& r is Ok
                        &&& final(self).spec_balance(token_id) == old(self).spec_balance(token_id)
                            - amount
                        &&& forall|t: Identity|
                            t != token_id ==> final(self).spec_balance(t) == old(self).spec_balance(
                                t,
                            )
                        &&& final(self).transaction_count == old(self).transaction_count + 1
                        &&& *final(self) == (SubAccount {
                            balances: final(self).balances,
                            transaction_count: final(self).transaction_count,
                            ..*old(self)
                        })
                    },
                }
            },
    {
        if self.passkey_hash.is_none() {
            return Err(Error::NotFound);
        }
        let authorized = check_zk_validation(self, entered_passkey_hash);
        if !authorized {
            return Err(Error::Unauthorized);
        }
        let allowance = read_max_allowance(self);
        if amount > allowance {
            return Err(Error::LimitExceeded);
        }
        let caller_id = match read_executor(self, executor_index) {
            Some(ex) => ex,
            None => {
                return Err(Error::NotFound);
            },
        };
        if !is_authorized(auths, caller_id) {
            return Err(Error::Unauthorized);
        }
        let is_executor = read_is_executor(self, caller_id);
        if !is_executor {
            return Err(Error::Unauthorized);
        }
        match send_token(self, to, token_id, amount, transfer_ok) {
            Ok(u) => u,
            Err(e) => {
                return Err(e);
            },
        };
        write_balance(self, token_id, -amount);
        Ok(())
    }
}

impl SubAccount {
    /// Derives and stores a fresh pre-authorization nonce on the social
    /// path: passkey commitment match, then the named executor's
    /// authorization; the sequence number advances and the stored nonce
    /// becomes the digest of the commitment over the coming transfer's
    /// parameters. The digest itself comes from the host's hash primitive,
    /// reached through `env`.
    pub fn create_tx_nonce(
        &mut self,
        env: &soroban_sdk::Env,
        executor_index: u32,
        entered_passkey_hash: &Vec<u8>,
        spender: Identity,
        token_id: Identity,
        amount: i128,
        auths: &Vec<Identity>,
    ) -> (r: Result<(), Error>)
        requires
            old(self).wf(),
            old(self).spec_passkey_match(entered_passkey_hash@) ==> match old(self).spec_executor(
                executor_index,
            ) {
                Some(ex) => auths@.contains(ex) ==> old(self).sequence_nonce < u32::MAX,
                None => true,
            },
        ensures
            final(self).wf(),
            if old(self).passkey_hash is None {
                r == Err::<(), Error>(Error::NotFound) && *final(self) == *old(self)
            } else if !old(self).spec_passkey_match(entered_passkey_hash@) {
                r == Err::<(), Error>(Error::Unauthorized) && *final(self) == *old(self)
            } else {
                match old(self).spec_executor(executor_index) {
                    None => r == Err::<(), Error>(Error::NotFound) && *final(self) == *old(self),
                    Some(ex) => if !auths@.contains(ex) {
                        r == Err::<(), Error>(Error::Unauthorized) && *final(self) == *old(self)
                    } else {
                        &&& r is Ok
                        &&& final(self).tx_nonce@.len() == 32
                        &&& final(self).tx_nonce@ == sha256_of(
                            nonce_preimage(
                                ex,
                                (old(self).sequence_nonce + 1) as u32,
                                entered_passkey_hash@,
                                spender,
                                token_id,
                                amount,
                            ),
                        )
                        &&& *final(self) == (SubAccount {
                            sequence_nonce: (old(self).sequence_nonce + 1) as u32,
                            tx_nonce: final(self).tx_nonce,
                            ..*old(self)
                        })
                    },
                }
            },
    {
        if self.passkey_hash.is_none() {
            return Err(Error::NotFound);
        }
        let authorized = check_zk_validation(self, entered_passkey_hash);
        if !authorized {
            return Err(Error::Unauthorized);
        }
        let executor = match read_executor(self, executor_index) {
            Some(ex) => ex,
            None => {
                return Err(Error::NotFound);
            },
        };
        if !is_authorized(auths, executor) {
            return Err(Error::Unauthorized);
        }
        let pre_nonce = read_nonce(self);
        let seq_nonce = pre_nonce + 1;
        increase_nonce(self, 1);
        let salt = nonce_preimage_bytes(
            executor,
            seq_nonce,
            entered_passkey_hash,
            spender,
            token_id,
            amount,
        );
        let new_nonce = sha256_digest(env, &salt);
        write_tx_nonce(self, new_nonce);
        Ok(())
    }

    /// Resets the stored pre-authorization nonce to the empty byte string,
    /// for cancellation or consumption.
    pub fn clear_tx_nonce(&mut self)
        requires
            old(self).wf(),
        ensures
            final(self).wf(),
            final(self).tx_nonce@ == Seq::<u8>::empty(),
            *final(self) == (SubAccount { tx_nonce: final(self).tx_nonce, ..*old(self) }),
    {
        let nonce: Vec<u8> = Vec::new();
        write_tx_nonce(self, nonce);
    }

    /// Replaces the running code; gated solely by owner authorization. The
    /// swap itself is the host's deployer, performed by the embedding once
    /// this guard has passed.
    pub fn upgrade(&self, new_wasm_hash: &Vec<u8>, auths: &Vec<Identity>) -> (r: Result<(), Error>)
        ensures
            match self.owner {
                None => r == Err::<(), Error>(Error::NotFound),
                Some(o) => if auths@.contains(o) {
                    r is Ok
                } else {
                    r == Err::<(), Error>(Error::Unauthorized)
                },
            },
    {
        let _ = new_wasm_hash;
        let owner = match read_owner(self) {
            Some(o) => o,
            None => {
                return Err(Error::NotFound);
            },
        };
        if !is_authorized(auths, owner) {
            return Err(Error::Unauthorized);
        }
        Ok(())
    }

    pub fn get_tx_count(&self) -> (r: u32)
        ensures
            r == self.transaction_count,
    {
        read_transact_no(self)
    }

    pub fn get_owner(&self) -> (r: Result<Identity, Error>)
        ensures
            match self.owner {
                Some(o) => r == Ok::<Identity, Error>(o),
                None => r == Err::<Identity, Error>(Error::NotFound),
            },
    {
        match read_owner(self) {
            Some(o) => Ok(o),
            None => Err(Error::NotFound),
        }
    }

    /// Hands back the encrypted key material for the matching profile id.
    pub fn get_encrypted_keys(&self, profile_id: &Vec<u8>) -> (r: Result<EncryptedKeys, Error>)
        ensures
            match self.profile {
                None => r == Err::<EncryptedKeys, Error>(Error::NotFound),
                Some(p) => {
                    if p.profile_id@ == profile_id@ {
                        &&& r is Ok
                        &&& r matches Ok(k) ==> {
                            &&& k.gen_salt_encrypted@ == p.gen_salt_encrypted@
                            &&& k.salt_encryption_iv@ == p.salt_encryption_iv@
                            &&& k.index_encrypted@ == p.index_encrypted@
                            &&& k.index_encryption_iv@ == p.index_encryption_iv@
                        }
                    } else {
                        r == Err::<EncryptedKeys, Error>(Error::NotFound)
                    }
                },
            },
    {
        read_encrypted_keys(self, profile_id)
    }

    pub fn get_executor(&self, index: u32) -> (r: Result<Identity, Error>)
        requires
            self.wf(),
        ensures
            match self.spec_executor(index) {
                Some(ex) => r == Ok::<Identity, Error>(ex),
                None => r == Err::<Identity, Error>(Error::NotFound),
            },
    {
        match read_executor(self, index) {
            Some(ex) => Ok(ex),
            None => Err(Error::NotFound),
        }
    }

    /// All tokens with a strictly positive balance, in registry order.
    pub fn get_tokens(&self) -> (r: Vec<Token>)
        requires
            self.wf(),
        ensures
            r@ == spec_tokens(*self, self.token_count as int),
    {
        read_tokens(self)
    }

    pub fn get_balance(&self, token_id: Identity) -> (r: i128)
        requires
            self.wf(),
        ensures
            r == self.spec_balance(token_id),
    {
        read_balance(self, token_id)
    }

    pub fn get_nonce(&self) -> (r: u32)
        ensures
            r == self.sequence_nonce,
    {
        read_nonce(self)
    }

    pub fn get_tx_nonce(&self) -> (r: Vec<u8>)
        ensures
            r@ == self.tx_nonce@,
    {
        read_tx_nonce(self)
    }

    pub fn get_user_points(&self) -> (r: Result<UserPoints, Error>)
        ensures
            match self.quest {
                Some(q) => r == Ok::<UserPoints, Error>(q),
                None => r == Err::<UserPoints, Error>(Error::NotFound),
            },
    {
        match read_quest_data(self) {
            Some(q) => Ok(q),
            None => Err(Error::NotFound),
        }
    }

    pub fn get_allowance(&self) -> (r: i128)
        ensures
            r == self.spec_allowance(),
    {
        read_max_allowance(self)
    }
}

} // verus!
