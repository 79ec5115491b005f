use parachain_spec::{
    get_account_id_from_seed, get_from_seed, seed_to_path, AccountId, DerivationError, PublicKey,
};

const ALICE: [u8; 33] = [
    0x02, 0x0a, 0x10, 0x91, 0x34, 0x1f, 0xe5, 0x66, 0x4b, 0xfa, 0x17, 0x82, 0xd5, 0xe0, 0x47, 0x79,
    0x68, 0x90, 0x68, 0xc9, 0x16, 0xb0, 0x4c, 0xb3, 0x65, 0xec, 0x31, 0x53, 0x75, 0x56, 0x84, 0xd9,
    0xa1,
];

const ALICE_ADDRESS: [u8; 20] = [
    0xc1, 0x61, 0xf0, 0xda, 0x9f, 0x05, 0xad, 0x6d, 0x5c, 0x25, 0x9b, 0xd9, 0x8a, 0x38, 0xd5, 0xed,
    0x63, 0xc6, 0xd6, 0x6d,
];

#[test]
fn path_is_the_seed_as_a_hard_junction() {
    assert_eq!(seed_to_path("Alice"), "//Alice");
    assert_eq!(seed_to_path(""), "//");
    assert_eq!(seed_to_path("Alice//stash"), "//Alice//stash");
}

const BOB: [u8; 33] = [
    0x03, 0x90, 0x08, 0x4f, 0xdb, 0xf2, 0x7d, 0x2b, 0x79, 0xd2, 0x6a, 0x4f, 0x13, 0xf0, 0xcc, 0xd9,
    0x82, 0xcb, 0x75, 0x5a, 0x66, 0x19, 0x69, 0x14, 0x3c, 0x37, 0xcb, 0xc4, 0x9e, 0xf5, 0xb9, 0x1f,
    0x27,
];

#[test]
fn alice_has_her_known_key() {
    assert_eq!(get_from_seed("Alice"), Ok(PublicKey(ALICE)));
}

#[test]
fn bob_has_his_known_key() {
    assert_eq!(get_from_seed("Bob"), Ok(PublicKey(BOB)));
}

#[test]
fn seed_is_never_read_as_a_raw_secret() {
    let zeros = "0x0000000000000000000000000000000000000000000000000000000000000000";
    let first = get_from_seed(zeros);
    assert!(first.is_ok());
    assert_eq!(first, get_from_seed(zeros));
    assert_ne!(first, Ok(PublicKey(ALICE)));
}

#[test]
fn seed_may_carry_a_password() {
    let plain = get_from_seed("Alice").unwrap();
    let locked = get_from_seed("Alice///secret").unwrap();
    assert_ne!(plain, locked);
    assert_eq!(get_from_seed("Alice///secret"), Ok(locked));
}

#[test]
fn derivation_is_deterministic() {
    for seed in ["Alice", "Bob", "Charlie", "0", "a b c"] {
        let first = get_from_seed(seed);
        let second = get_from_seed(seed);
        assert!(first.is_ok());
        assert_eq!(first, second);
        assert_eq!(get_account_id_from_seed(seed), get_account_id_from_seed(seed));
    }
}

#[test]
fn different_seeds_give_different_keys() {
    let alice = get_from_seed("Alice").unwrap();
    let bob = get_from_seed("Bob").unwrap();
    assert_ne!(alice, bob);
    assert_ne!(alice.into_account(), bob.into_account());
}

#[test]
fn key_is_compressed() {
    let key = get_from_seed("Bob").unwrap();
    assert!(key.0[0] == 2 || key.0[0] == 3);
    assert_eq!(key.as_bytes(), &key.0);
}

#[test]
fn malformed_seed_is_an_error() {
    assert_eq!(get_from_seed(""), Err(DerivationError {}));
    assert_eq!(get_account_id_from_seed(""), Err(DerivationError {}));
}

#[test]
fn soft_junction_in_seed_is_an_error() {
    assert_eq!(get_from_seed("Alice/soft"), Err(DerivationError {}));
    assert_eq!(get_account_id_from_seed("Alice/soft"), Err(DerivationError {}));
}

#[test]
fn address_of_alice() {
    assert_eq!(PublicKey(ALICE).into_account(), AccountId(ALICE_ADDRESS));
    assert_eq!(get_account_id_from_seed("Alice"), Ok(AccountId(ALICE_ADDRESS)));
}

#[test]
fn address_is_the_suffix_of_the_keccak_digest() {
    let mut key = [0u8; 33];
    for (i, byte) in key.iter_mut().enumerate() {
        *byte = i as u8;
    }
    // Keccak-256 of the bytes 0..=32 is
    // f08683775f4a25dfef721c487073fb77026d45ac57e423424290e47af9fd2835.
    let expected = [
        0x70, 0x73, 0xfb, 0x77, 0x02, 0x6d, 0x45, 0xac, 0x57, 0xe4, 0x23, 0x42, 0x42, 0x90, 0xe4,
        0x7a, 0xf9, 0xfd, 0x28, 0x35,
    ];
    assert_eq!(PublicKey(key).into_account(), AccountId(expected));
    // Keccak-256 of 33 zero bytes is
    // f39a869f62e75cf5f0bf914688a6b289caf2049435d8e68c5c5e6d05e44913f3.
    let expected_zero = [
        0x88, 0xa6, 0xb2, 0x89, 0xca, 0xf2, 0x04, 0x94, 0x35, 0xd8, 0xe6, 0x8c, 0x5c, 0x5e, 0x6d,
        0x05, 0xe4, 0x49, 0x13, 0xf3,
    ];
    assert_eq!(PublicKey([0u8; 33]).into_account(), AccountId(expected_zero));
}
