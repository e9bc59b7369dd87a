//! The transaction builder: default substitution and determinism modulo
//! time.

use json_api::client::{build_raw_transaction, GAS_UNIT_PRICE, MAX_GAS_AMOUNT, TX_EXPIRATION};
use json_api::ledger::AccountAddress;
use json_api::transaction::{Program, TransactionArgument};

fn addr(byte: u8) -> AccountAddress {
    AccountAddress::new(vec![byte; 32])
}

fn empty_program() -> Program {
    Program::new(Vec::new(), Vec::new())
}

#[test]
fn defaults_are_substituted() {
    let txn = build_raw_transaction(addr(0x11), 7, empty_program(), None, None, 50_000);
    assert_eq!(txn.gas_unit_price, 0);
    assert_eq!(txn.gas_unit_price, GAS_UNIT_PRICE);
    assert_eq!(txn.max_gas_amount, 10_000);
    assert_eq!(txn.max_gas_amount, MAX_GAS_AMOUNT);
}

#[test]
fn explicit_gas_overrides_defaults() {
    let txn = build_raw_transaction(addr(0x11), 7, empty_program(), Some(3), Some(777), 50_000);
    assert_eq!(txn.gas_unit_price, 3);
    assert_eq!(txn.max_gas_amount, 777);
}

#[test]
fn expiration_is_now_plus_fixed_window() {
    let txn = build_raw_transaction(addr(0x11), 7, empty_program(), None, None, 1_000_000);
    assert_eq!(txn.expiration_time, 1_000_000 + 100);
    assert_eq!(txn.expiration_time, 1_000_000 + TX_EXPIRATION);
}

#[test]
fn builds_with_same_inputs_and_instant_are_identical() {
    let program = |receiver: u8| {
        Program::new(
            vec![1u8, 2, 3],
            vec![TransactionArgument::Address(addr(receiver)), TransactionArgument::U64(9)],
        )
    };
    let a = build_raw_transaction(addr(0x42), 3, program(0x43), Some(1), Some(2), 12345);
    let b = build_raw_transaction(addr(0x42), 3, program(0x43), Some(1), Some(2), 12345);
    assert_eq!(
        json_api::codec::encode_raw_transaction(&a),
        json_api::codec::encode_raw_transaction(&b)
    );
}

#[test]
fn builds_at_different_instants_differ_only_in_expiration() {
    let a = build_raw_transaction(addr(0x42), 3, empty_program(), None, None, 100);
    let b = build_raw_transaction(addr(0x42), 3, empty_program(), None, None, 200);
    assert_eq!(a.sender.as_bytes(), b.sender.as_bytes());
    assert_eq!(a.sequence_number, b.sequence_number);
    assert_eq!(a.max_gas_amount, b.max_gas_amount);
    assert_eq!(a.gas_unit_price, b.gas_unit_price);
    assert_eq!(a.expiration_time, 200);
    assert_eq!(b.expiration_time, 300);
}

#[test]
fn canonical_bytes_have_the_documented_layout() {
    let txn = build_raw_transaction(addr(0xAA), 5, empty_program(), None, None, 1_000_000);
    let bytes = json_api::codec::encode_raw_transaction(&txn);
    let mut expected: Vec<u8> = Vec::new();
    expected.extend_from_slice(&[0xAAu8; 32]);
    expected.extend_from_slice(&[5, 0, 0, 0, 0, 0, 0, 0]);
    expected.extend_from_slice(&[0; 8]); // code length
    expected.extend_from_slice(&[0; 8]); // argument count
    expected.extend_from_slice(&[16, 39, 0, 0, 0, 0, 0, 0]); // 10_000
    expected.extend_from_slice(&[0; 8]); // gas unit price
    expected.extend_from_slice(&[164, 66, 15, 0, 0, 0, 0, 0]); // 1_000_100
    assert_eq!(bytes, expected);
}
