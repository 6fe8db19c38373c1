use subaccount::access::{read_excecutor_count, read_is_executor};
use subaccount::account::SubAccount;
use subaccount::balance::{read_balance, write_balance};
use subaccount::data::{Error, Identity, UserPoints};

fn id(n: u64) -> Identity {
    Identity { id: n }
}

fn passkey() -> Vec<u8> {
    vec![0xAA, 0xBB, 0xCC]
}

fn social(allowance: i128) -> SubAccount {
    let mut acc = SubAccount::new();
    acc.init_with_profile(
        id(1),
        vec![2],
        vec![9, 9],
        vec![1, 1],
        vec![2, 2],
        vec![3, 3],
        vec![4, 4],
        passkey(),
        allowance,
    )
    .unwrap();
    acc.set_executor(0, id(10)).unwrap();
    acc.set_executor_done().unwrap();
    acc
}

#[test]
fn init_with_address_records_owner_and_controller() {
    let mut acc = SubAccount::new();
    assert!(acc.init_with_address(id(1), id(2)).is_ok());
    assert_eq!(acc.get_owner(), Ok(id(2)));
    assert_eq!(acc.controller, Some(id(1)));
    let pts = acc.get_user_points().unwrap();
    assert_eq!(pts.points, 2000);
    assert!(!pts.has_set_signer && !pts.has_set_allowance && !pts.has_received && !pts.has_sent);
}

#[test]
fn initializers_fail_the_second_time() {
    let mut acc = SubAccount::new();
    acc.init_with_address(id(1), id(2)).unwrap();
    assert_eq!(
        acc.init_with_address(id(9), id(8)),
        Err(Error::AlreadyInitialized)
    );
    assert_eq!(
        acc.init_with_profile(
            id(1),
            vec![1],
            vec![2],
            vec![3],
            vec![4],
            vec![5],
            vec![6],
            vec![7],
            10
        ),
        Err(Error::AlreadyInitialized)
    );
    assert_eq!(acc.get_owner(), Ok(id(2)));

    let mut soc = social(10);
    assert_eq!(
        soc.init_with_address(id(1), id(2)),
        Err(Error::AlreadyInitialized)
    );
    assert_eq!(
        soc.init_with_profile(
            id(1),
            vec![1],
            vec![2],
            vec![3],
            vec![4],
            vec![5],
            vec![6],
            vec![7],
            10
        ),
        Err(Error::AlreadyInitialized)
    );
}

#[test]
fn roster_seals_permanently() {
    let mut acc = SubAccount::new();
    acc.init_with_address(id(1), id(2)).unwrap();
    assert!(acc.set_executor(0, id(10)).is_ok());
    assert!(acc.set_executor_done().is_ok());
    assert_eq!(acc.set_executor(1, id(11)), Err(Error::AlreadySealed));
    assert_eq!(acc.set_executor_done(), Err(Error::AlreadySealed));
    assert_eq!(acc.get_executor(0), Ok(id(10)));
    assert_eq!(acc.get_executor(1), Err(Error::NotFound));
}

#[test]
fn executor_count_mirrors_last_index_written() {
    let mut acc = SubAccount::new();
    acc.set_executor(5, id(10)).unwrap();
    assert_eq!(read_excecutor_count(&acc), 5);
    acc.set_executor(2, id(11)).unwrap();
    assert_eq!(read_excecutor_count(&acc), 2);
}

#[test]
fn overwritten_executor_identity_stays_flagged() {
    let mut acc = SubAccount::new();
    acc.set_executor(0, id(10)).unwrap();
    acc.set_executor(0, id(11)).unwrap();
    assert_eq!(acc.get_executor(0), Ok(id(11)));
    assert!(read_is_executor(&acc, id(10)));
    assert!(read_is_executor(&acc, id(11)));
}

#[test]
fn receive_then_send_updates_balance_and_listing() {
    let mut acc = SubAccount::new();
    acc.init_with_address(id(1), id(2)).unwrap();
    let tk = id(77);
    let auths = vec![id(2)];
    acc.receive(id(2), tk, 100, &auths, true).unwrap();
    assert_eq!(acc.get_balance(tk), 100);
    let listed = acc.get_tokens();
    assert_eq!(listed.len(), 1);
    assert_eq!(listed[0].token_id, tk);
    assert_eq!(listed[0].balance, 100);
    acc.send_auth_addr(id(3), tk, 40, &auths, true).unwrap();
    assert_eq!(acc.get_balance(tk), 60);
    assert_eq!(acc.get_tx_count(), 2);
    let pts = acc.get_user_points().unwrap();
    assert!(pts.has_received);
    assert_eq!(pts.points, 2250);
}

#[test]
fn receive_requires_sender_proof_and_transfer() {
    let mut acc = SubAccount::new();
    acc.init_with_address(id(1), id(2)).unwrap();
    let tk = id(77);
    assert_eq!(
        acc.receive(id(2), tk, 100, &vec![], true),
        Err(Error::Unauthorized)
    );
    assert_eq!(
        acc.receive(id(2), tk, 100, &vec![id(2)], false),
        Err(Error::ExternalTransferFailure)
    );
    assert_eq!(acc.get_balance(tk), 0);
    assert!(acc.get_tokens().is_empty());
    assert_eq!(acc.get_tx_count(), 0);
}

#[test]
fn balance_is_sum_of_deltas() {
    let mut acc = SubAccount::new();
    let tk = id(5);
    write_balance(&mut acc, tk, 5);
    write_balance(&mut acc, tk, -3);
    write_balance(&mut acc, tk, 10);
    assert_eq!(read_balance(&acc, tk), 12);
    assert_eq!(read_balance(&acc, id(6)), 0);
}

#[test]
fn token_with_nonpositive_balance_vanishes_from_listing() {
    let mut acc = SubAccount::new();
    acc.init_with_address(id(1), id(2)).unwrap();
    let tk = id(7);
    let auths = vec![id(2)];
    acc.receive(id(2), tk, 10, &auths, true).unwrap();
    assert_eq!(acc.get_tokens().len(), 1);
    acc.send_auth_addr(id(3), tk, 10, &auths, true).unwrap();
    assert_eq!(acc.get_balance(tk), 0);
    assert!(acc.get_tokens().is_empty());
    acc.receive(id(2), tk, 4, &auths, true).unwrap();
    let listed = acc.get_tokens();
    assert_eq!(listed.len(), 1);
    assert_eq!(listed[0].balance, 4);
}

#[test]
fn send_with_pkey_spends_within_allowance() {
    let mut acc = social(100);
    let tk = id(7);
    write_balance(&mut acc, tk, 50);
    let auths = vec![id(10)];
    assert!(acc
        .send_with_pkey(0, &passkey(), id(3), tk, 30, &auths, true)
        .is_ok());
    assert_eq!(acc.get_balance(tk), 20);
    assert_eq!(acc.get_tx_count(), 1);
}

#[test]
fn send_with_pkey_rejects_wrong_passkey() {
    let mut acc = social(100);
    let tk = id(7);
    write_balance(&mut acc, tk, 50);
    let auths = vec![id(10)];
    assert_eq!(
        acc.send_with_pkey(0, &vec![0x00], id(3), tk, 30, &auths, true),
        Err(Error::Unauthorized)
    );
    assert_eq!(acc.get_balance(tk), 50);
    assert_eq!(acc.get_tx_count(), 0);
}

#[test]
fn send_with_pkey_rejects_over_allowance() {
    let mut acc = social(100);
    let tk = id(7);
    write_balance(&mut acc, tk, 500);
    let auths = vec![id(10)];
    assert_eq!(
        acc.send_with_pkey(0, &passkey(), id(3), tk, 200, &auths, true),
        Err(Error::LimitExceeded)
    );
    assert_eq!(acc.get_balance(tk), 500);
}

#[test]
fn send_with_pkey_rejects_unbound_index() {
    let mut acc = social(100);
    let tk = id(7);
    write_balance(&mut acc, tk, 50);
    let auths = vec![id(10)];
    assert_eq!(
        acc.send_with_pkey(3, &passkey(), id(3), tk, 30, &auths, true),
        Err(Error::NotFound)
    );
    assert_eq!(acc.get_balance(tk), 50);
}

#[test]
fn send_with_pkey_requires_executor_proof() {
    let mut acc = social(100);
    let tk = id(7);
    write_balance(&mut acc, tk, 50);
    assert_eq!(
        acc.send_with_pkey(0, &passkey(), id(3), tk, 30, &vec![], true),
        Err(Error::Unauthorized)
    );
    assert_eq!(acc.get_balance(tk), 50);
}

#[test]
fn send_with_pkey_surfaces_transfer_failure() {
    let mut acc = social(100);
    let tk = id(7);
    write_balance(&mut acc, tk, 50);
    let auths = vec![id(10)];
    assert_eq!(
        acc.send_with_pkey(0, &passkey(), id(3), tk, 30, &auths, false),
        Err(Error::ExternalTransferFailure)
    );
    assert_eq!(acc.get_balance(tk), 50);
    assert_eq!(acc.get_tx_count(), 0);
}

#[test]
fn set_allowance_with_addr_needs_owner_proof() {
    let mut acc = SubAccount::new();
    assert_eq!(
        acc.set_allowance_with_addr(50, &vec![id(2)]),
        Err(Error::NotFound)
    );
    acc.init_with_address(id(1), id(2)).unwrap();
    assert_eq!(
        acc.set_allowance_with_addr(50, &vec![id(3)]),
        Err(Error::Unauthorized)
    );
    assert!(acc.set_allowance_with_addr(50, &vec![id(2)]).is_ok());
    assert_eq!(acc.get_allowance(), 50);
}

#[test]
fn set_allowance_pkey_awards_milestone() {
    let mut acc = social(100);
    let auths = vec![id(10)];
    assert!(acc.set_allowance_pkey(0, &passkey(), 500, &auths).is_ok());
    assert_eq!(acc.get_allowance(), 500);
    let pts = acc.get_user_points().unwrap();
    assert!(pts.has_set_allowance);
    assert_eq!(pts.points, 2500);
}

#[test]
fn set_owner_pkey_sets_owner_once() {
    let mut acc = social(100);
    let auths = vec![id(10)];
    assert!(acc.set_owner_pkey(0, &passkey(), id(42), &auths).is_ok());
    assert_eq!(acc.get_owner(), Ok(id(42)));
    let pts = acc.get_user_points().unwrap();
    assert!(pts.has_set_signer);
    assert_eq!(pts.points, 2500);
    assert_eq!(
        acc.set_owner_pkey(0, &passkey(), id(43), &auths),
        Err(Error::AlreadyInitialized)
    );
    assert_eq!(acc.get_owner(), Ok(id(42)));
}

#[test]
fn set_owner_pkey_checks_guards_in_order() {
    let mut acc = social(100);
    assert_eq!(
        acc.set_owner_pkey(3, &passkey(), id(42), &vec![id(10)]),
        Err(Error::NotFound)
    );
    assert_eq!(
        acc.set_owner_pkey(0, &passkey(), id(42), &vec![]),
        Err(Error::Unauthorized)
    );
    assert_eq!(
        acc.set_owner_pkey(0, &vec![0x00], id(42), &vec![id(10)]),
        Err(Error::Unauthorized)
    );
    assert_eq!(acc.get_owner(), Err(Error::NotFound));
}

#[test]
fn update_user_points_needs_executor() {
    let mut acc = social(100);
    let fresh = UserPoints {
        has_set_signer: true,
        has_set_allowance: false,
        has_received: true,
        has_sent: true,
        points: 9000,
    };
    assert_eq!(
        acc.update_user_points(id(99), fresh),
        Err(Error::Unauthorized)
    );
    assert!(acc.update_user_points(id(10), fresh).is_ok());
    assert_eq!(acc.get_user_points(), Ok(fresh));
}

#[test]
fn smart_transact_toggles_by_owner_and_passkey() {
    let mut acc = SubAccount::new();
    acc.init_with_address(id(1), id(2)).unwrap();
    let tk = id(7);
    let auths = vec![id(2)];
    acc.receive(id(2), tk, 10, &auths, true).unwrap();
    assert!(!acc.get_tokens()[0].smart_transact);
    assert!(acc.set_smart_transact_addr(tk, true, &auths).is_ok());
    assert!(acc.get_tokens()[0].smart_transact);
    assert_eq!(
        acc.set_smart_transact_addr(tk, false, &vec![id(9)]),
        Err(Error::Unauthorized)
    );

    let mut soc = social(100);
    let ex_auths = vec![id(10)];
    assert!(soc
        .set_smart_transact_pkey(0, &passkey(), tk, true, &ex_auths)
        .is_ok());
    assert_eq!(
        soc.set_smart_transact_pkey(0, &vec![0x00], tk, false, &ex_auths),
        Err(Error::Unauthorized)
    );
}

#[test]
fn encrypted_keys_returned_only_for_matching_profile() {
    let acc = social(100);
    let keys = acc.get_encrypted_keys(&vec![9, 9]).unwrap();
    assert_eq!(keys.gen_salt_encrypted, vec![1, 1]);
    assert_eq!(keys.salt_encryption_iv, vec![2, 2]);
    assert_eq!(keys.index_encrypted, vec![3, 3]);
    assert_eq!(keys.index_encryption_iv, vec![4, 4]);
    assert!(matches!(
        acc.get_encrypted_keys(&vec![8]),
        Err(Error::NotFound)
    ));
    let bare = SubAccount::new();
    assert!(matches!(
        bare.get_encrypted_keys(&vec![9, 9]),
        Err(Error::NotFound)
    ));
}

#[test]
fn set_dashboard_balance_needs_executor_membership() {
    let mut acc = social(100);
    let tk = id(7);
    assert_eq!(
        acc.set_dashboard_balance(id(99), tk, 25),
        Err(Error::Unauthorized)
    );
    assert!(acc.set_dashboard_balance(id(10), tk, 25).is_ok());
    assert_eq!(acc.get_balance(tk), 25);
    let listed = acc.get_tokens();
    assert_eq!(listed.len(), 1);
    assert_eq!(listed[0].token_id, tk);
}

#[test]
fn upgrade_is_owner_gated() {
    let mut acc = SubAccount::new();
    let hash32 = vec![0u8; 32];
    assert_eq!(acc.upgrade(&hash32, &vec![id(2)]), Err(Error::NotFound));
    acc.init_with_address(id(1), id(2)).unwrap();
    assert_eq!(acc.upgrade(&hash32, &vec![id(3)]), Err(Error::Unauthorized));
    assert!(acc.upgrade(&hash32, &vec![id(2)]).is_ok());
}

#[test]
fn ledger_handles_extreme_amounts() {
    let mut acc = SubAccount::new();
    let tk = id(5);
    write_balance(&mut acc, tk, i128::MAX);
    assert_eq!(read_balance(&acc, tk), i128::MAX);
    write_balance(&mut acc, tk, -i128::MAX);
    assert_eq!(read_balance(&acc, tk), 0);
    write_balance(&mut acc, tk, -7);
    assert_eq!(read_balance(&acc, tk), -7);
    assert!(acc.get_tokens().is_empty());
}
