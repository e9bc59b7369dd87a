//! Canonical byte serialization: account-resource round trips, decode
//! failures, and the text helpers.

use json_api::codec::{decode_account_resource, encode_account_resource, encode_raw_transaction};
use json_api::client::build_raw_transaction;
use json_api::ledger::{AccountAddress, AccountResource};
use json_api::state::u64_to_decimal;
use json_api::transaction::{Program, TransactionArgument};
use json_api::utils::address_from_strings;

#[test]
fn account_resource_round_trips() {
    let resource = AccountResource::new(12345, 7, vec![9u8, 8, 7, 6], 2, 3);
    let bytes = encode_account_resource(&resource);
    let decoded = decode_account_resource(&bytes).unwrap();
    assert_eq!(decoded.balance(), 12345);
    assert_eq!(decoded.sequence_number(), 7);
    assert_eq!(decoded.authentication_key(), &vec![9u8, 8, 7, 6]);
    assert_eq!(decoded.sent_events_count(), 2);
    assert_eq!(decoded.received_events_count(), 3);
}

#[test]
fn empty_key_round_trips() {
    let resource = AccountResource::new(0, 0, Vec::new(), 0, 0);
    let bytes = encode_account_resource(&resource);
    assert_eq!(bytes.len(), 40);
    let decoded = decode_account_resource(&bytes).unwrap();
    assert_eq!(decoded.authentication_key(), &Vec::<u8>::new());
}

#[test]
fn short_blobs_do_not_decode() {
    assert!(decode_account_resource(&[]).is_none());
    assert!(decode_account_resource(&[0u8; 39]).is_none());
}

#[test]
fn inconsistent_key_length_does_not_decode() {
    let resource = AccountResource::new(1, 2, vec![1u8, 2, 3], 4, 5);
    let mut bytes = encode_account_resource(&resource);
    bytes.push(0); // one trailing byte no longer matches the key length
    assert!(decode_account_resource(&bytes).is_none());
    let resource = AccountResource::new(1, 2, vec![1u8, 2, 3], 4, 5);
    let mut bytes = encode_account_resource(&resource);
    bytes.pop();
    assert!(decode_account_resource(&bytes).is_none());
}

#[test]
fn arguments_are_tagged_and_length_prefixed() {
    let program = Program::new(
        vec![0xC0u8, 0xDE],
        vec![
            TransactionArgument::U64(0x0102030405060708),
            TransactionArgument::Address(AccountAddress::new(vec![0x33u8; 32])),
            TransactionArgument::ByteArray(vec![0xFFu8]),
        ],
    );
    let txn = build_raw_transaction(AccountAddress::new(vec![0u8; 32]), 0, program, None, None, 0);
    let bytes = encode_raw_transaction(&txn);

    let mut expected: Vec<u8> = Vec::new();
    expected.extend_from_slice(&[0u8; 32]); // sender
    expected.extend_from_slice(&[0u8; 8]); // sequence number
    expected.extend_from_slice(&[2, 0, 0, 0, 0, 0, 0, 0]); // code length
    expected.extend_from_slice(&[0xC0, 0xDE]); // code
    expected.extend_from_slice(&[3, 0, 0, 0, 0, 0, 0, 0]); // argument count
    expected.push(0); // u64 tag
    expected.extend_from_slice(&[8, 7, 6, 5, 4, 3, 2, 1]);
    expected.push(1); // address tag
    expected.extend_from_slice(&[32, 0, 0, 0, 0, 0, 0, 0]);
    expected.extend_from_slice(&[0x33u8; 32]);
    expected.push(2); // byte-array tag
    expected.extend_from_slice(&[1, 0, 0, 0, 0, 0, 0, 0]);
    expected.push(0xFF);
    expected.extend_from_slice(&[16, 39, 0, 0, 0, 0, 0, 0]); // max gas 10_000
    expected.extend_from_slice(&[0u8; 8]); // gas unit price
    expected.extend_from_slice(&[100, 0, 0, 0, 0, 0, 0, 0]); // expiration 0 + 100
    assert_eq!(bytes, expected);
}

#[test]
fn addresses_round_trip_through_hex() {
    let text = hex::encode([0xABu8; 32]);
    let address = address_from_strings(&text).unwrap();
    assert_eq!(address.as_bytes(), &vec![0xABu8; 32]);
    // Upper-case digits are accepted too.
    let address = address_from_strings(&text.to_uppercase()).unwrap();
    assert_eq!(address.as_bytes(), &vec![0xABu8; 32]);
}

#[test]
fn bad_address_text_is_rejected() {
    // Odd length, a non-hex digit, and a wrong byte count.
    assert!(address_from_strings("abc").is_err());
    assert!(address_from_strings("zz").is_err());
    assert!(address_from_strings(&hex::encode([1u8; 16])).is_err());
    assert!(address_from_strings("").is_err());
}

#[test]
fn decimal_spelling_is_exact() {
    assert_eq!(u64_to_decimal(0), "0");
    assert_eq!(u64_to_decimal(7), "7");
    assert_eq!(u64_to_decimal(10_000), "10000");
    assert_eq!(u64_to_decimal(u64::MAX), "18446744073709551615");
}
