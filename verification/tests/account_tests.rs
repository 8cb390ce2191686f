use keystore::account::Account;
use keystore::address::Address;

#[test]
fn account_address_matches_secret_key() {
    let acc = Account::new();

    let secp = secp256k1::Secp256k1::new();
    let sk = secp256k1::SecretKey::from_byte_array(acc.prv).unwrap();
    let pubkey = secp256k1::PublicKey::from_secret_key(&secp, &sk);

    let expected_addr = Address::from_public_key(&pubkey.serialize());
    assert_eq!(acc.addr, expected_addr);
}

#[test]
fn new_accounts_are_distinct() {
    let a1 = Account::new();
    let a2 = Account::new();

    assert_ne!(a1.prv, a2.prv);
    assert_ne!(a1.addr, a2.addr);
}

#[test]
fn address_is_stable_for_same_public_key() {
    let acc = Account::new();

    let secp = secp256k1::Secp256k1::new();
    let sk = secp256k1::SecretKey::from_byte_array(acc.prv).unwrap();
    let pubkey = secp256k1::PublicKey::from_secret_key(&secp, &sk);

    let addr1 = Address::from_public_key(&pubkey.serialize());
    let addr2 = Address::from_public_key(&pubkey.serialize());

    assert_eq!(addr1, addr2);
}

#[test]
fn many_new_accounts_have_distinct_keys_and_addresses() {
    let mut secrets: Vec<[u8; 32]> = Vec::new();
    let mut addresses: Vec<String> = Vec::new();
    for _ in 0..100 {
        let acc = Account::new();
        secrets.push(acc.prv);
        addresses.push(acc.addr.to_hex());
    }
    secrets.sort();
    addresses.sort();
    for pair in secrets.windows(2) {
        assert_ne!(pair[0], pair[1]);
    }
    for pair in addresses.windows(2) {
        assert_ne!(pair[0], pair[1]);
    }
}
