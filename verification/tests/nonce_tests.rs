use soroban_sdk::Env;
use subaccount::account::SubAccount;
use subaccount::data::{Error, Identity};

fn ident(n: u64) -> Identity {
    Identity { id: n }
}

fn secret() -> Vec<u8> {
    vec![0xAA, 0xBB, 0xCC]
}

fn social_with_executor() -> SubAccount {
    let mut acc = SubAccount::new();
    acc.init_with_profile(
        ident(1),
        vec![2],
        vec![9, 9],
        vec![1, 1],
        vec![2, 2],
        vec![3, 3],
        vec![4, 4],
        secret(),
        100,
    )
    .unwrap();
    acc.set_executor(0, ident(10)).unwrap();
    acc.set_executor_done().unwrap();
    acc
}

#[test]
fn tx_nonce_digest_changes_with_sequence() {
    let env = Env::default();
    let mut acc = social_with_executor();
    let auths = vec![ident(10)];
    acc.create_tx_nonce(&env, 0, &secret(), ident(3), ident(7), 25, &auths)
        .unwrap();
    let n1 = acc.get_tx_nonce();
    assert_eq!(n1.len(), 32);
    assert_eq!(acc.get_nonce(), 1);
    acc.create_tx_nonce(&env, 0, &secret(), ident(3), ident(7), 25, &auths)
        .unwrap();
    let n2 = acc.get_tx_nonce();
    assert_eq!(acc.get_nonce(), 2);
    assert_ne!(n1, n2);
}

#[test]
fn tx_nonce_is_deterministic_over_inputs() {
    let env = Env::default();
    let auths = vec![ident(10)];
    let mut a = social_with_executor();
    let mut b = social_with_executor();
    a.create_tx_nonce(&env, 0, &secret(), ident(3), ident(7), 25, &auths)
        .unwrap();
    b.create_tx_nonce(&env, 0, &secret(), ident(3), ident(7), 25, &auths)
        .unwrap();
    assert_eq!(a.get_tx_nonce(), b.get_tx_nonce());

    let mut c = social_with_executor();
    c.create_tx_nonce(&env, 0, &secret(), ident(3), ident(7), 26, &auths)
        .unwrap();
    assert_ne!(a.get_tx_nonce(), c.get_tx_nonce());
}

#[test]
fn clear_tx_nonce_resets_to_empty() {
    let env = Env::default();
    let mut acc = social_with_executor();
    let auths = vec![ident(10)];
    acc.create_tx_nonce(&env, 0, &secret(), ident(3), ident(7), 25, &auths)
        .unwrap();
    assert!(!acc.get_tx_nonce().is_empty());
    acc.clear_tx_nonce();
    assert!(acc.get_tx_nonce().is_empty());
    assert_eq!(acc.get_nonce(), 1);
}

#[test]
fn create_tx_nonce_checks_guards() {
    let env = Env::default();
    let mut acc = social_with_executor();
    let auths = vec![ident(10)];
    assert_eq!(
        acc.create_tx_nonce(&env, 0, &vec![0x00], ident(3), ident(7), 25, &auths),
        Err(Error::Unauthorized)
    );
    assert_eq!(
        acc.create_tx_nonce(&env, 3, &secret(), ident(3), ident(7), 25, &auths),
        Err(Error::NotFound)
    );
    assert_eq!(
        acc.create_tx_nonce(&env, 0, &secret(), ident(3), ident(7), 25, &vec![]),
        Err(Error::Unauthorized)
    );
    assert_eq!(acc.get_nonce(), 0);
    assert!(acc.get_tx_nonce().is_empty());
}
