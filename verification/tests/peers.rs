use bitcoin::key::CompressedPublicKey;
use bitcoin::secp256k1::{Secp256k1, SecretKey};
use regtest_opener::keys::{
    compressed_public_key, p2wpkh_address, private_key, KeyError, NetworkKind,
};
use regtest_opener::report::output_kind;

#[test]
fn a_repeated_byte_is_a_key_unless_it_is_the_lowest_or_the_highest() {
    for byte in 0..=255u8 {
        assert_eq!(private_key(byte).is_ok(), (1..=254).contains(&byte));
    }
    assert_eq!(private_key(0).unwrap_err(), KeyError::InvalidSecretKey);
    assert_eq!(private_key(255).unwrap_err(), KeyError::InvalidSecretKey);
}

#[test]
fn a_key_error_reads_as_the_curve_library_says_it() {
    let expected = SecretKey::from_slice(&[0; 32]).unwrap_err().to_string();
    assert_eq!(private_key(0).unwrap_err().message(), expected);
}

#[test]
fn a_test_key_repeats_its_byte() {
    let key = private_key(11).unwrap();
    assert_eq!(key.secret_bytes(), [11; 32]);
    assert_eq!(key.network(), NetworkKind::Test);
}

#[test]
fn public_keys_are_those_of_the_curve() {
    let key = compressed_public_key(&private_key(1).unwrap());
    assert_eq!(
        key.to_vec(),
        <Vec<u8> as bitcoin::hex::FromHex>::from_hex(
            "031b84c5567b126440995d3ed5aaba0565d71e1834604819ff9c17f5e9d5dd078f"
        )
        .unwrap()
    );
}

#[test]
fn addresses_are_native_segwit_on_regtest() {
    for byte in [1, 2] {
        let address = p2wpkh_address(&private_key(byte).unwrap());
        let secret = SecretKey::from_slice(&[byte; 32]).unwrap();
        let public = CompressedPublicKey(secret.public_key(&Secp256k1::new()));
        let expected = bitcoin::Address::p2wpkh(&public, bitcoin::Network::Regtest);
        assert_eq!(address.text, expected.to_string());
        assert!(address.text.starts_with("bcrt1q"));
        assert_eq!(address.script_pubkey, expected.script_pubkey().into_bytes());
        assert_eq!(output_kind(&address.script_pubkey, 1), "wallet p2wpkh change");
    }
}

#[test]
fn the_initiator_is_paid_at_a_fixed_script() {
    let address = p2wpkh_address(&private_key(1).unwrap());
    assert_eq!(
        address.script_pubkey,
        <Vec<u8> as bitcoin::hex::FromHex>::from_hex("001479b000887626b294a914501a4cd226b58b235983")
            .unwrap()
    );
}
