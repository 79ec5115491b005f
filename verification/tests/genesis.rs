use parachain_spec::{testnet_genesis, AccountId, MissingArtifactError, ENDOWMENT};

fn account(tag: u8) -> AccountId {
    AccountId([tag; 20])
}

#[test]
fn endowment_is_two_to_the_sixtieth() {
    assert_eq!(ENDOWMENT, 1u128 << 60);
    assert_eq!(ENDOWMENT, 1_152_921_504_606_846_976);
}

#[test]
fn genesis_invariant() {
    let (a, b, c, root) = (account(1), account(2), account(3), account(9));
    let code = [0u8, 97, 115, 109, 1, 0, 0, 0];
    let genesis = testnet_genesis(root, vec![a, b, c], 2000, Some(&code)).unwrap();
    assert_eq!(
        genesis.pallet_balances.balances,
        vec![(a, 1u128 << 60), (b, 1u128 << 60), (c, 1u128 << 60)]
    );
    assert_eq!(genesis.pallet_sudo.key, root);
    assert_eq!(genesis.parachain_info.parachain_id, 2000);
    assert!(genesis.frame_evm.accounts.is_empty());
    assert_eq!(genesis.frame_system.code, code.to_vec());
}

#[test]
fn root_key_need_not_be_endowed() {
    let genesis = testnet_genesis(account(9), vec![account(1)], 1, Some(&[1u8])).unwrap();
    assert_eq!(genesis.pallet_sudo.key, account(9));
    assert!(genesis.pallet_balances.balances.iter().all(|entry| entry.0 != account(9)));
}

#[test]
fn root_key_may_be_endowed() {
    let genesis = testnet_genesis(account(1), vec![account(1)], 1, Some(&[1u8])).unwrap();
    assert_eq!(genesis.pallet_sudo.key, account(1));
    assert_eq!(genesis.pallet_balances.balances, vec![(account(1), ENDOWMENT)]);
}

#[test]
fn no_endowed_accounts_no_balances() {
    let genesis = testnet_genesis(account(9), vec![], u32::MAX, Some(&[])).unwrap();
    assert!(genesis.pallet_balances.balances.is_empty());
    assert!(genesis.frame_system.code.is_empty());
    assert_eq!(genesis.parachain_info.parachain_id, u32::MAX);
}

#[test]
fn endowed_accounts_keep_their_order() {
    let accounts = vec![account(3), account(1), account(2)];
    let genesis = testnet_genesis(account(0), accounts.clone(), 0, Some(&[7u8; 3])).unwrap();
    let keys: Vec<AccountId> =
        genesis.pallet_balances.balances.iter().map(|entry| entry.0).collect();
    assert_eq!(keys, accounts);
}

#[test]
fn runtime_code_is_embedded_as_it_is() {
    let code: Vec<u8> = (0..=255u8).rev().collect();
    let genesis = testnet_genesis(account(0), vec![], 0, Some(&code)).unwrap();
    assert_eq!(genesis.frame_system.code, code);
}

#[test]
fn missing_runtime_code_gives_no_genesis() {
    let built = testnet_genesis(account(9), vec![account(1)], 2000, None);
    assert_eq!(built, Err(MissingArtifactError {}));
}

#[test]
fn assembly_is_repeatable() {
    let first = testnet_genesis(account(9), vec![account(1), account(2)], 5, Some(&[1u8, 2]));
    let second = testnet_genesis(account(9), vec![account(1), account(2)], 5, Some(&[1u8, 2]));
    assert_eq!(first, second);
}

#[test]
fn account_listed_twice_is_endowed_once() {
    let a = account(1);
    let genesis = testnet_genesis(account(9), vec![a, a], 2000, Some(&[1u8])).unwrap();
    assert_eq!(genesis.pallet_balances.balances, vec![(a, 1u128 << 60)]);
    assert_eq!(genesis.pallet_sudo.key, account(9));
    assert_eq!(genesis.parachain_info.parachain_id, 2000);
}

#[test]
fn repeats_are_dropped_where_they_come_later() {
    let (a, b, c) = (account(1), account(2), account(3));
    let listed = vec![b, a, b, c, a, a, c, b];
    let genesis = testnet_genesis(a, listed, 1, Some(&[1u8])).unwrap();
    assert_eq!(
        genesis.pallet_balances.balances,
        vec![(b, 1u128 << 60), (a, 1u128 << 60), (c, 1u128 << 60)]
    );
}

#[test]
fn repeats_change_nothing() {
    let (a, b) = (account(1), account(2));
    let with_repeats = testnet_genesis(a, vec![a, b, a, b, b], 3, Some(&[5u8, 6]));
    let without = testnet_genesis(a, vec![a, b], 3, Some(&[5u8, 6]));
    assert_eq!(with_repeats, without);
}

#[test]
fn no_account_has_two_balances() {
    let listed: Vec<AccountId> = (0..40u8).map(|i| account(i % 7)).collect();
    let genesis = testnet_genesis(account(0), listed, 1, Some(&[])).unwrap();
    let balances = genesis.pallet_balances.balances;
    assert_eq!(balances.len(), 7);
    for (i, entry) in balances.iter().enumerate() {
        assert_eq!(entry.0, account(i as u8));
        assert_eq!(entry.1, 1_152_921_504_606_846_976);
    }
}

#[test]
fn accounts_that_differ_in_one_byte_are_two_accounts() {
    let a = account(1);
    let mut bytes = [1u8; 20];
    bytes[19] = 2;
    let b = AccountId(bytes);
    let genesis = testnet_genesis(a, vec![a, b], 1, Some(&[])).unwrap();
    assert_eq!(genesis.pallet_balances.balances, vec![(a, 1u128 << 60), (b, 1u128 << 60)]);
}

#[test]
fn missing_runtime_code_comes_before_everything_else() {
    let a = account(1);
    assert_eq!(testnet_genesis(a, vec![a, a], 1, None), Err(MissingArtifactError {}));
}
