//! Proof serialization: order fidelity, the absence/empty distinction, and
//! the composed encodings.

use json_api::ledger::{
    AccessPath, AccountAddress, AccountResource, AccountStateBlob, ContractEvent, HashValue,
    TransactionInfo,
};
use json_api::proofs::{
    AccountStateProof, AccountStateWithProof, AccumulatorProof, EventProof, EventWithProof,
    SparseMerkleProof,
};
use json_api::serializers::{
    encode_account_state_proof, encode_accumulator, encode_contract_event, encode_event_proof,
    encode_event_with_proof, serialize_account, serialize_blob, serialize_contract_events,
    serialize_events_with_proof, AccountResourceSer,
};

fn hash(byte: u8) -> HashValue {
    HashValue::new(vec![byte; 32])
}

fn sample_info() -> TransactionInfo {
    TransactionInfo::new(hash(0xA1), hash(0xA2), hash(0xA3), 77)
}

fn sample_event(seq: u64) -> ContractEvent {
    ContractEvent::new(
        AccessPath::new(AccountAddress::new(vec![0x10u8; 32]), vec![1, 2, 3]),
        seq,
        vec![0xDE, 0xAD],
    )
}

#[test]
fn sibling_order_is_preserved() {
    let h1 = hash(1);
    let h2 = hash(2);
    let h3 = hash(3);
    let source = AccumulatorProof::new(vec![h1, h2, h3]);
    let ser = encode_accumulator(&source);
    assert_eq!(ser.siblings, vec![vec![1u8; 32], vec![2u8; 32], vec![3u8; 32]]);
    // A reversed or sorted order is a failing case.
    assert_ne!(ser.siblings, vec![vec![3u8; 32], vec![2u8; 32], vec![1u8; 32]]);
}

#[test]
fn sparse_merkle_leaf_is_copied() {
    let source = SparseMerkleProof::new(Some((hash(7), hash(8))), vec![hash(9)]);
    let ser = json_api::serializers::encode_sparse_merkle(&source);
    assert_eq!(ser.leaf, Some((vec![7u8; 32], vec![8u8; 32])));
    assert_eq!(ser.siblings, vec![vec![9u8; 32]]);
}

#[test]
fn sparse_merkle_absent_leaf_stays_absent() {
    let source = SparseMerkleProof::new(None, vec![]);
    let ser = json_api::serializers::encode_sparse_merkle(&source);
    assert_eq!(ser.leaf, None);
    assert!(ser.siblings.is_empty());
}

#[test]
fn account_state_proof_composes_all_parts() {
    let source = AccountStateProof::new(
        AccumulatorProof::new(vec![hash(1), hash(2)]),
        sample_info(),
        SparseMerkleProof::new(Some((hash(3), hash(4))), vec![hash(5)]),
    );
    let ser = encode_account_state_proof(&source);
    assert_eq!(
        ser.ledger_info_to_transaction_info_proof.siblings,
        vec![vec![1u8; 32], vec![2u8; 32]]
    );
    assert_eq!(ser.transaction_info.signed_transaction_hash, vec![0xA1u8; 32]);
    assert_eq!(ser.transaction_info.state_root_hash, vec![0xA2u8; 32]);
    assert_eq!(ser.transaction_info.event_root_hash, vec![0xA3u8; 32]);
    assert_eq!(ser.transaction_info.gas_used, 77);
    assert_eq!(ser.transaction_info_to_account_proof.leaf, Some((vec![3u8; 32], vec![4u8; 32])));
    assert_eq!(ser.transaction_info_to_account_proof.siblings, vec![vec![5u8; 32]]);
}

#[test]
fn event_proof_composes_both_accumulators() {
    let source = EventProof::new(
        AccumulatorProof::new(vec![hash(0x11)]),
        sample_info(),
        AccumulatorProof::new(vec![hash(0x22), hash(0x33)]),
    );
    let ser = encode_event_proof(&source);
    assert_eq!(ser.ledger_info_to_transaction_info_proof.siblings, vec![vec![0x11u8; 32]]);
    assert_eq!(
        ser.transaction_info_to_event_proof.siblings,
        vec![vec![0x22u8; 32], vec![0x33u8; 32]]
    );
}

#[test]
fn event_with_proof_keeps_position_and_payload() {
    let value = EventWithProof::new(
        42,
        3,
        sample_event(9),
        EventProof::new(
            AccumulatorProof::new(vec![]),
            sample_info(),
            AccumulatorProof::new(vec![]),
        ),
    );
    let ser = encode_event_with_proof(&value);
    assert_eq!(ser.transaction_version, 42);
    assert_eq!(ser.event_index, 3);
    assert_eq!(ser.event.sequence_number, 9);
    assert_eq!(ser.event.event_data, vec![0xDE, 0xAD]);
    assert_eq!(ser.event.access_path.address, vec![0x10u8; 32]);
    assert_eq!(ser.event.access_path.path, vec![1, 2, 3]);
}

#[test]
fn contract_event_payload_is_uninterpreted() {
    let ser = encode_contract_event(&sample_event(1));
    assert_eq!(ser.event_data, vec![0xDE, 0xAD]);
}

#[test]
fn absent_account_encodes_as_none_not_as_empty_proof() {
    assert!(serialize_account(&None).is_none());

    let present = AccountStateWithProof::new(
        5,
        None,
        AccountStateProof::new(
            AccumulatorProof::new(vec![]),
            sample_info(),
            SparseMerkleProof::new(None, vec![]),
        ),
    );
    let ser = serialize_account(&Some(present)).unwrap();
    assert_eq!(ser.version, 5);
    assert_eq!(ser.blob, None);
}

#[test]
fn blob_absence_differs_from_empty_blob() {
    assert_eq!(serialize_blob(&None), None);
    assert_eq!(serialize_blob(&Some(AccountStateBlob::new(Vec::new()))), Some(Vec::new()));
    assert_eq!(serialize_blob(&Some(AccountStateBlob::new(vec![1, 2]))), Some(vec![1, 2]));
}

#[test]
fn events_with_proof_are_mirrored_in_order() {
    let make = |version: u64| {
        EventWithProof::new(
            version,
            0,
            sample_event(version),
            EventProof::new(
                AccumulatorProof::new(vec![]),
                sample_info(),
                AccumulatorProof::new(vec![]),
            ),
        )
    };
    let sers = serialize_events_with_proof(&vec![make(1), make(2), make(3)]);
    assert_eq!(sers.len(), 3);
    assert_eq!(sers[0].transaction_version, 1);
    assert_eq!(sers[1].transaction_version, 2);
    assert_eq!(sers[2].transaction_version, 3);
}

#[test]
fn optional_contract_events_keep_absence_and_order() {
    assert!(serialize_contract_events(&None).is_none());
    let sers = serialize_contract_events(&Some(vec![sample_event(4), sample_event(5)])).unwrap();
    assert_eq!(sers.len(), 2);
    assert_eq!(sers[0].sequence_number, 4);
    assert_eq!(sers[1].sequence_number, 5);
}

#[test]
fn account_resource_mirror_copies_every_field() {
    let ser = AccountResourceSer::from(AccountResource::new(10, 11, vec![0xAA], 12, 13));
    assert_eq!(ser.balance, 10);
    assert_eq!(ser.sequence_number, 11);
    assert_eq!(ser.authentication_key, vec![0xAA]);
    assert_eq!(ser.sent_events_count, 12);
    assert_eq!(ser.received_events_count, 13);
}
