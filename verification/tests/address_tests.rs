use keystore::address::Address;
use keystore::encoding::hex_encode;
use sha3::digest::{ExtendableOutput, Update, XofReader};

#[test]
fn derive_matches_independent_shake256() {
    let pk = [7u8; 33];
    let addr = Address::from_public_key(&pk);

    let mut hasher = sha3::Shake256::default();
    hasher.update(&pk);
    let mut expected = [0u8; 32];
    hasher.finalize_xof().read(&mut expected);

    assert_eq!(addr.to_hex(), hex_encode(&expected));
}

#[test]
fn derive_is_deterministic() {
    let pk = [0xabu8; 33];
    assert_eq!(Address::from_public_key(&pk), Address::from_public_key(&pk));
}

#[test]
fn derive_rarely_collides() {
    let mut seen: Vec<String> = Vec::new();
    for i in 0..=255u8 {
        for j in 0..4u8 {
            let mut pk = [j; 33];
            pk[0] = i;
            seen.push(Address::from_public_key(&pk).to_hex());
        }
    }
    let total = seen.len();
    seen.sort();
    seen.dedup();
    assert_eq!(seen.len(), total);
}

#[test]
fn hex_encode_known_value() {
    assert_eq!(hex_encode(&[0x00, 0x1f, 0xab, 0xff]), "001fabff");
    assert_eq!(hex_encode(&[]), "");
}

#[test]
fn address_hex_is_64_chars() {
    let pk = [1u8; 33];
    let hex = Address::from_public_key(&pk).to_hex();
    assert_eq!(hex.len(), 64);
    assert!(hex.chars().all(|c| c.is_ascii_hexdigit()));
}
