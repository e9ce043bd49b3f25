use eth_sweeper::scalar::scalar_in_range;
use eth_sweeper::wallet::Wallet;
use eth_sweeper::wallet::generate_keypair;
use eth_sweeper::wallet::public_key_address;

#[test]
fn generated_secret_scalar_lies_in_the_valid_range() {
    for _ in 0..8 {
        let (sk, pk) = generate_keypair();
        assert_eq!(sk.len(), 32);
        assert_eq!(pk.len(), 65);
        assert_eq!(pk[0], 4);
        assert!(scalar_in_range(&sk));
    }
}

#[test]
fn generated_keys_parse_and_correspond_in_secp256k1() {
    let (sk, pk) = generate_keypair();
    let secret = secp256k1::SecretKey::from_slice(&sk).expect("valid scalar");
    let public = secp256k1::PublicKey::from_slice(&pk).expect("valid encoding");
    let engine = secp256k1::Secp256k1::new();
    let derived = secp256k1::PublicKey::from_secret_key(&engine, &secret);
    assert_eq!(public, derived);
}

#[test]
fn address_is_the_low_twenty_bytes_of_the_keccak_digest() {
    let (_, pk) = generate_keypair();
    let address = public_key_address(&pk);
    let digest = web3::signing::keccak256(&pk[1..]);
    assert_eq!(address.as_slice(), &digest[12..]);
    assert_eq!(address.len(), 20);
}

#[test]
fn address_derivation_is_deterministic() {
    let (_, pk) = generate_keypair();
    assert_eq!(public_key_address(&pk), public_key_address(&pk));
}

#[test]
fn wallet_bundles_keys_with_their_derived_address() {
    let (sk, pk) = generate_keypair();
    let wallet = Wallet::new(&sk, &pk);
    assert_eq!(wallet.secret_key, sk);
    assert_eq!(wallet.public_key, pk);
    assert_eq!(wallet.public_address, public_key_address(&pk));
}

#[test]
fn rapid_successive_keypairs_differ() {
    let (sk1, _) = generate_keypair();
    let (sk2, _) = generate_keypair();
    assert_ne!(sk1, sk2);
}

#[test]
fn zero_scalar_is_out_of_range() {
    assert!(!scalar_in_range(&vec![0u8; 32]));
}

#[test]
fn one_is_a_valid_scalar() {
    let mut bytes = vec![0u8; 32];
    bytes[31] = 1;
    assert!(scalar_in_range(&bytes));
}

fn curve_order_bytes() -> Vec<u8> {
    let mut bytes = vec![0xFFu8; 16];
    bytes[15] = 0xFE;
    bytes.extend_from_slice(&[
        0xBA, 0xAE, 0xDC, 0xE6, 0xAF, 0x48, 0xA0, 0x3B, 0xBF, 0xD2, 0x5E, 0x8C, 0xD0, 0x36, 0x41,
        0x41,
    ]);
    bytes
}

#[test]
fn the_curve_order_itself_is_out_of_range() {
    assert!(!scalar_in_range(&curve_order_bytes()));
}

#[test]
fn the_predecessor_of_the_order_is_in_range() {
    let mut bytes = curve_order_bytes();
    bytes[31] = 0x40;
    assert!(scalar_in_range(&bytes));
}

#[test]
fn everything_above_the_order_is_out_of_range() {
    let mut bytes = curve_order_bytes();
    bytes[31] = 0x42;
    assert!(!scalar_in_range(&bytes));
    assert!(!scalar_in_range(&vec![0xFFu8; 32]));
}

#[test]
fn secp256k1_agrees_with_the_range_check_at_the_edges() {
    assert!(secp256k1::SecretKey::from_slice(&[0u8; 32]).is_err());
    assert!(secp256k1::SecretKey::from_slice(&curve_order_bytes()).is_err());
    let mut below = curve_order_bytes();
    below[31] = 0x40;
    assert!(secp256k1::SecretKey::from_slice(&below).is_ok());
}
