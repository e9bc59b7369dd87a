//! The signer: signature validity, canonical-bytes equivalence between the
//! two credential kinds, and the credential error paths.

use ed25519_dalek::{Signature, Signer, SigningKey, Verifier};
use sha3::Digest;

use json_api::client::{build_raw_transaction, Client, RawClient};
use json_api::error::CoreError;
use json_api::ledger::AccountAddress;
use json_api::transaction::{encode_transfer_program, Program};
use json_api::wallet::WalletLibrary;

fn addr(byte: u8) -> AccountAddress {
    AccountAddress::new(vec![byte; 32])
}

fn sample_txn() -> json_api::transaction::RawTransaction {
    let program = encode_transfer_program(&addr(0xBB), 1000);
    build_raw_transaction(addr(0xAA), 5, program, None, None, 1_000_000)
}

#[test]
fn keypair_signature_verifies() {
    let mut client = Client::from_private_key(vec![7u8; 32]);
    let signed = client.sign_txn(sample_txn()).unwrap();
    assert!(signed.verify_signature());
}

#[test]
fn keypair_signature_verifies_under_the_real_primitive() {
    let secret = [9u8; 32];
    let mut client = Client::from_private_key(secret.to_vec());
    let signed = client.sign_txn(sample_txn()).unwrap();

    let signing_key = SigningKey::from_bytes(&secret);
    assert_eq!(signed.public_key, signing_key.verifying_key().to_bytes().to_vec());
    let digest = sha3::Sha3_256::digest(&signed.raw_txn_bytes).to_vec();
    let sig_bytes: [u8; 64] = signed.signature.as_slice().try_into().unwrap();
    let signature = Signature::from_bytes(&sig_bytes);
    assert!(signing_key.verifying_key().verify(&digest, &signature).is_ok());
}

#[test]
fn tampered_bytes_do_not_verify() {
    let mut client = Client::from_private_key(vec![7u8; 32]);
    let mut signed = client.sign_txn(sample_txn()).unwrap();
    signed.raw_txn_bytes[0] ^= 1;
    assert!(!signed.verify_signature());
}

#[test]
fn wallet_and_keypair_produce_identical_raw_bytes() {
    let mnemonic = "galaxy quilt mirror upset fossil direct";
    let mut wallet = WalletLibrary::new_from_mnemonic(mnemonic).unwrap();
    let exported = wallet.get_child_private_key(0);

    let mut wallet_client = Client::from_mnemonic(mnemonic, 0).unwrap();
    let wallet_signed = wallet_client.sign_txn(sample_txn()).unwrap();

    let mut keypair_client = Client::from_private_key(exported);
    let keypair_signed = keypair_client.sign_txn(sample_txn()).unwrap();

    assert_eq!(wallet_signed.raw_txn_bytes, keypair_signed.raw_txn_bytes);
    // With the same underlying key the deterministic primitive even agrees
    // on the key and signature material.
    assert_eq!(wallet_signed.public_key, keypair_signed.public_key);
    assert_eq!(wallet_signed.signature, keypair_signed.signature);
    assert!(wallet_signed.verify_signature());
}

#[test]
fn different_credentials_same_bytes_different_signatures() {
    let mut a = Client::from_private_key(vec![1u8; 32]);
    let mut b = Client::from_private_key(vec![2u8; 32]);
    let signed_a = a.sign_txn(sample_txn()).unwrap();
    let signed_b = b.sign_txn(sample_txn()).unwrap();
    assert_eq!(signed_a.raw_txn_bytes, signed_b.raw_txn_bytes);
    assert_ne!(signed_a.public_key, signed_b.public_key);
    assert_ne!(signed_a.signature, signed_b.signature);
}

#[test]
fn wallet_materialization_is_idempotent() {
    let mut wallet = WalletLibrary::new_from_mnemonic("alpha bravo charlie").unwrap();
    let first = wallet.new_address_at_child_number(0).unwrap();
    let leaf_after_first = wallet.key_leaf;
    let again = wallet.new_address_at_child_number(0).unwrap();
    assert_eq!(first.as_bytes(), again.as_bytes());
    assert_eq!(wallet.key_leaf, leaf_after_first);
}

#[test]
fn wallet_rejects_out_of_sequence_child() {
    let mut wallet = WalletLibrary::new_from_mnemonic("alpha bravo charlie").unwrap();
    match wallet.new_address_at_child_number(5) {
        Err(CoreError::Derivation { .. }) => {},
        _ => panic!("materializing child 5 on a fresh wallet must fail"),
    }
}

#[test]
fn wallet_sign_fails_with_derivation_error_out_of_policy() {
    let mut client = Client::from_mnemonic("alpha bravo charlie", 3).unwrap();
    match client.sign_txn(sample_txn()) {
        Err(CoreError::Derivation { .. }) => {},
        _ => panic!("signing with child 3 on a fresh wallet must fail"),
    }
}

#[test]
fn malformed_mnemonic_is_a_credential_error() {
    for bad in ["", " leading", "trailing ", "double  space", "UPPER case", "acce\u{301}nt"] {
        match Client::from_mnemonic(bad, 0) {
            Err(CoreError::Credential { .. }) => {},
            _ => panic!("mnemonic {:?} must be rejected", bad),
        }
    }
}

#[test]
fn from_raw_accepts_a_round_tripped_private_key() {
    let secret = vec![3u8; 32];
    let raw = RawClient::KeyPair { private_key: hex::encode(&secret) };
    let client = Client::from_raw(&raw).unwrap();
    match client {
        Client::KeyPair(kp) => assert_eq!(kp.private_key, secret),
        _ => panic!("a private-key credential must resolve to a key pair"),
    }
}

#[test]
fn from_raw_rejects_bad_hex_and_short_keys() {
    for bad in ["abc", "zzzz", "aabb"] {
        let raw = RawClient::KeyPair { private_key: bad.to_string() };
        match Client::from_raw(&raw) {
            Err(CoreError::Credential { .. }) => {},
            _ => panic!("private key {:?} must be rejected", bad),
        }
    }
}

#[test]
fn from_raw_resolves_wallet_credentials() {
    let raw = RawClient::Wallet { mnemonic: "alpha bravo charlie".to_string(), child_number: 4 };
    match Client::from_raw(&raw).unwrap() {
        Client::Wallet(_, child) => assert_eq!(child, 4),
        _ => panic!("a mnemonic credential must resolve to a wallet"),
    }
}

#[test]
fn from_form_fields_prefers_the_private_key() {
    let client = Client::from_form_fields(
        &Some(hex::encode([5u8; 32])),
        &Some("alpha bravo".to_string()),
        Some(0),
    )
    .unwrap();
    assert!(matches!(client, Client::KeyPair(_)));

    let client =
        Client::from_form_fields(&None, &Some("alpha bravo".to_string()), Some(2)).unwrap();
    assert!(matches!(client, Client::Wallet(_, 2)));

    match Client::from_form_fields(&None, &None, None) {
        Err(CoreError::Credential { .. }) => {},
        _ => panic!("an empty form must be a credential error"),
    }
}

#[test]
fn exported_key_hex_round_trips_through_from_raw() {
    let wallet = WalletLibrary::new_from_mnemonic("omega zulu").unwrap();
    let key = wallet.get_child_private_key(0);
    let raw = RawClient::KeyPair { private_key: hex::encode(&key) };
    match Client::from_raw(&raw).unwrap() {
        Client::KeyPair(kp) => assert_eq!(kp.private_key, key),
        _ => panic!("expected a key pair"),
    }
}

#[test]
fn signing_error_messages_are_kept() {
    let err = CoreError::Signature { message: "unexpected".to_string() };
    assert_eq!(err.message(), "unexpected");
    let err = CoreError::Serialization { message: "canonical bytes".to_string() };
    assert_eq!(err.message(), "canonical bytes");
    let api = json_api::error::ApiError::from_core(&err);
    assert_eq!(api.response.error, "canonical bytes");
}

#[test]
fn program_arguments_survive_signing() {
    let program = Program::new(
        vec![9u8, 8, 7],
        vec![
            json_api::transaction::TransactionArgument::U64(42),
            json_api::transaction::TransactionArgument::ByteArray(vec![1, 2, 3]),
        ],
    );
    let txn = build_raw_transaction(addr(0x01), 0, program, None, None, 10);
    let mut client = Client::from_private_key(vec![4u8; 32]);
    let signed = client.sign_txn(txn).unwrap();
    assert_eq!(signed.raw_txn.program.code, vec![9u8, 8, 7]);
    assert!(signed.verify_signature());
}
