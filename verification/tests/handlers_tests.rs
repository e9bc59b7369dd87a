//! The gateway operations end to end, including the transfer scenario.

use ed25519_dalek::{Signature, SigningKey, Verifier};
use sha3::Digest;

use json_api::client::Client;
use json_api::codec::encode_account_resource;
use json_api::handlers::{
    create_wallet_account, get_events_by_account_and_type, get_latest_account_state, mint_coins,
    transfer_coins, txns_with_events, CreateWalletAddressData, EventType, MintCoinsData,
    TransferCoinsData,
};
use json_api::ledger::{AccountAddress, AccountResource, AccountStateBlob, ContractEvent, AccessPath};
use json_api::state::{app_state_settings, faucet_response_to_result, quorum_size};
use json_api::wallet::{mnemonic_is_valid, WalletLibrary};

fn transfer_form(private_key: Option<String>) -> TransferCoinsData {
    TransferCoinsData {
        sender_addr: hex::encode([0xAAu8; 32]),
        receiver_addr: hex::encode([0xBBu8; 32]),
        num_coins: 1000,
        gas_unit_price: None,
        max_gas_amount: None,
        private_key,
        mnemonic: None,
        child_number: None,
    }
}

#[test]
fn scenario_transfer_with_defaults() {
    // Sender 0xAA.., sequence number 5, transfer of 1000 units to 0xBB..,
    // no explicit gas.
    let secret = [0x51u8; 32];
    let form = transfer_form(Some(hex::encode(secret)));
    let before = chrono::Utc::now().timestamp() as u64;
    let (req, seq) = transfer_coins(&form, 5).unwrap();
    let after = chrono::Utc::now().timestamp() as u64;

    assert_eq!(seq, 5);
    let signed = &req.signed_txn;
    assert_eq!(signed.raw_txn.sender.as_bytes(), &vec![0xAAu8; 32]);
    assert_eq!(signed.raw_txn.sequence_number, 5);
    assert_eq!(signed.raw_txn.max_gas_amount, 10_000);
    assert_eq!(signed.raw_txn.gas_unit_price, 0);
    assert!(signed.raw_txn.expiration_time >= before + 100);
    assert!(signed.raw_txn.expiration_time <= after + 100);

    // The signature verifies against that key's public key and the exact
    // serialized transaction bytes.
    let signing_key = SigningKey::from_bytes(&secret);
    assert_eq!(signed.public_key, signing_key.verifying_key().to_bytes().to_vec());
    let digest = sha3::Sha3_256::digest(&signed.raw_txn_bytes).to_vec();
    let sig_bytes: [u8; 64] = signed.signature.as_slice().try_into().unwrap();
    assert!(signing_key
        .verifying_key()
        .verify(&digest, &Signature::from_bytes(&sig_bytes))
        .is_ok());
    assert!(signed.verify_signature());
}

#[test]
fn transfer_rejects_bad_addresses_and_missing_credentials() {
    let mut form = transfer_form(Some(hex::encode([1u8; 32])));
    form.sender_addr = "xyz".to_string();
    assert!(transfer_coins(&form, 0).is_err());

    let mut form = transfer_form(Some(hex::encode([1u8; 32])));
    form.receiver_addr = "aabb".to_string();
    assert!(transfer_coins(&form, 0).is_err());

    let form = transfer_form(None);
    assert!(transfer_coins(&form, 0).is_err());
}

#[test]
fn transfer_with_wallet_credential_uses_first_child() {
    let mut form = transfer_form(None);
    form.mnemonic = Some("orchid tango umbrella".to_string());
    form.child_number = Some(0);
    let (req, _) = transfer_coins(&form, 9).unwrap();
    assert!(req.signed_txn.verify_signature());

    // A fresh wallet cannot sign with a later child.
    let mut form = transfer_form(None);
    form.mnemonic = Some("orchid tango umbrella".to_string());
    form.child_number = Some(2);
    assert!(transfer_coins(&form, 9).is_err());
}

#[test]
fn wallet_account_creation_exports_matching_material() {
    let data = CreateWalletAddressData {
        mnemonic: "maple fox garden".to_string(),
        child_number: 0,
    };
    let info = create_wallet_account(&data).unwrap();
    assert_eq!(info.child_number, 0);

    // The exported key reconstructs the same address: hash of the public key
    // of the exported private key.
    let key = hex::decode(&info.private_key).unwrap();
    let secret: [u8; 32] = key.as_slice().try_into().unwrap();
    let public_key = SigningKey::from_bytes(&secret).verifying_key().to_bytes();
    let address = sha3::Sha3_256::digest(public_key).to_vec();
    assert_eq!(info.address, hex::encode(address));

    // And it is the key the wallet itself reports for that child.
    let wallet = WalletLibrary::new_from_mnemonic("maple fox garden").unwrap();
    assert_eq!(key, wallet.get_child_private_key(0));
}

#[test]
fn wallet_account_creation_rejects_out_of_policy_children() {
    let data = CreateWalletAddressData {
        mnemonic: "maple fox garden".to_string(),
        child_number: 3,
    };
    assert!(create_wallet_account(&data).is_err());
    let data = CreateWalletAddressData { mnemonic: "bad  mnemonic".to_string(), child_number: 0 };
    assert!(create_wallet_account(&data).is_err());
}

#[test]
fn mnemonic_validation_cases() {
    assert!(mnemonic_is_valid("alpha bravo charlie"));
    assert!(mnemonic_is_valid("a"));
    assert!(mnemonic_is_valid("abc123"));
    assert!(!mnemonic_is_valid(""));
    assert!(!mnemonic_is_valid(" alpha"));
    assert!(!mnemonic_is_valid("alpha "));
    assert!(!mnemonic_is_valid("alpha  bravo"));
    assert!(!mnemonic_is_valid("Alpha"));
    assert!(!mnemonic_is_valid("al-pha"));
}

#[test]
fn latest_account_state_defaults_for_unknown_accounts() {
    let addr = hex::encode([2u8; 32]);
    let ser = get_latest_account_state(&addr, &None).unwrap();
    assert_eq!(ser.balance, 0);
    assert_eq!(ser.sequence_number, 0);
    assert_eq!(ser.authentication_key, Vec::<u8>::new());
    assert_eq!(ser.sent_events_count, 0);
    assert_eq!(ser.received_events_count, 0);
}

#[test]
fn latest_account_state_reads_the_blob() {
    let addr = hex::encode([2u8; 32]);
    let resource = AccountResource::new(500, 4, vec![7u8; 32], 1, 2);
    let blob = AccountStateBlob::new(encode_account_resource(&resource));
    let ser = get_latest_account_state(&addr, &Some(blob)).unwrap();
    assert_eq!(ser.balance, 500);
    assert_eq!(ser.sequence_number, 4);

    let garbage = AccountStateBlob::new(vec![1, 2, 3]);
    assert!(get_latest_account_state(&addr, &Some(garbage)).is_err());
    assert!(get_latest_account_state("zz", &None).is_err());
}

#[test]
fn mint_request_url_is_exact() {
    let data = MintCoinsData { receiver: hex::encode([0xCDu8; 32]), num_coins: 42 };
    let url = mint_coins(&data, "faucet.testnet:80").unwrap();
    let expected = format!(
        "http://faucet.testnet:80?amount=42&address={}",
        hex::encode([0xCDu8; 32])
    );
    assert_eq!(url, expected);

    let bad = MintCoinsData { receiver: "nope".to_string(), num_coins: 42 };
    assert!(mint_coins(&bad, "faucet.testnet:80").is_err());
}

#[test]
fn committed_transactions_keep_their_events() {
    let mut client = Client::from_private_key(vec![6u8; 32]);
    let txn = json_api::client::build_raw_transaction(
        AccountAddress::new(vec![1u8; 32]),
        0,
        json_api::transaction::Program::new(Vec::new(), Vec::new()),
        None,
        None,
        10,
    );
    let signed_a = client.sign_txn(txn.clone()).unwrap();
    let signed_b = client.sign_txn(txn).unwrap();
    let event = ContractEvent::new(
        AccessPath::new(AccountAddress::new(vec![3u8; 32]), vec![1]),
        0,
        vec![9],
    );
    let out = txns_with_events(vec![(signed_a, Some(vec![event])), (signed_b, None)]);
    assert_eq!(out.len(), 2);
    assert!(out[0].events.is_some());
    assert_eq!(out[0].events.as_ref().unwrap().len(), 1);
    assert!(out[1].events.is_none());
}

#[test]
fn event_queries_select_the_documented_paths() {
    let addr = hex::encode([9u8; 32]);
    let sent = get_events_by_account_and_type(&addr, EventType::Sent).unwrap();
    assert_eq!(sent.path, b"/sent_events_count".to_vec());
    let received = get_events_by_account_and_type(&addr, EventType::Received).unwrap();
    assert_eq!(received.path, b"/received_events_count".to_vec());
    assert_eq!(received.address.as_bytes(), &vec![9u8; 32]);
    assert!(get_events_by_account_and_type("zz", EventType::Sent).is_err());
}

#[test]
fn quorum_needs_a_supermajority() {
    assert_eq!(quorum_size(1), 1);
    assert_eq!(quorum_size(2), 2);
    assert_eq!(quorum_size(3), 3);
    assert_eq!(quorum_size(4), 3);
    assert_eq!(quorum_size(7), 5);
    assert_eq!(quorum_size(10), 7);
}

#[test]
fn settings_require_validators_and_derive_the_faucet_host() {
    assert!(app_state_settings(0, "ac.testnet", None).is_err());

    let (quorum, faucet) = app_state_settings(4, "ac.testnet", None).unwrap();
    assert_eq!(quorum, 3);
    assert_eq!(faucet.faucet_url, "faucet.testnet");

    let (_, faucet) =
        app_state_settings(4, "ac.testnet", Some("faucet.example:8000".to_string())).unwrap();
    assert_eq!(faucet.faucet_url, "faucet.example:8000");
}

#[test]
fn faucet_responses_are_judged_by_status() {
    assert!(faucet_response_to_result(200, "ok").is_ok());
    let err = faucet_response_to_result(500, "boom").unwrap_err();
    assert_eq!(err.response.error, "failed to query remote faucet server: boom");
    assert!(faucet_response_to_result(404, "").is_err());
}
