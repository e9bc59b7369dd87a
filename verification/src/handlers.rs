//! The decisions behind each gateway operation.
//!
//! The HTTP routing, the ledger RPC client and the faucet call live outside
//! the core; every function here takes what those collaborators hand over as
//! plain values and performs the whole computation of one handler: resolving
//! credentials, parsing addresses, building and signing transactions, and
//! mirroring results for the JSON response.

use vstd::prelude::*;
use vstd::string::StringSliceAdditionalSpecFns;
use vstd::utf8::encode_utf8;

use crate::client::{Client, MAX_GAS_AMOUNT, GAS_UNIT_PRICE};
use crate::codec;
use crate::error::ApiError;
use crate::ledger::{
    AccessPath, AccountAddress, AccountStateBlob, ContractEvent, ADDRESS_LENGTH,
};
use crate::serializers::{AccountResourceSer, TxWithEvents};
use crate::transaction::{transfer_program_code, SignedTransaction, SubmitTransactionRequest, TransactionArgumentV};
use crate::trusted;
use crate::utils;
use crate::wallet::{
    address_of_child, child_in_policy, child_key_of, seed_of_mnemonic, valid_mnemonic_bytes,
    WalletLibrary,
};

verus! {

/// The form of a request to materialize a wallet account.
#[derive(Debug)]
pub struct CreateWalletAddressData {
    pub mnemonic: String,
    pub child_number: u64,
}

/// The form of a request to mint coins to an address.
#[derive(Debug)]
pub struct MintCoinsData {
    pub receiver: String,
    /// In the smallest coin unit.
    pub num_coins: u64,
}

/// The form of a request to transfer coins, with the sender's credential.
#[derive(Debug)]
pub struct TransferCoinsData {
    pub sender_addr: String,
    pub receiver_addr: String,
    pub num_coins: u64,
    pub gas_unit_price: Option<u64>,
    pub max_gas_amount: Option<u64>,
    pub private_key: Option<String>,
    pub mnemonic: Option<String>,
    pub child_number: Option<u64>,
}

/// Which event stream of an account to read.
#[derive(Debug, Clone, Copy, PartialEq, Eq, Structural)]
pub enum EventType {
    Sent,
    Received,
}

/// The answer to a wallet-account request: the materialized address and the
/// exported child key, both in hex.
#[derive(Debug)]
pub struct WalletAccountInfo {
    pub address: String,
    pub child_number: u64,
    pub private_key: String,
}

/// Whether a string spells an account address in hex.
pub open spec fn address_text_ok(s: Seq<char>) -> bool {
    &&& trusted::valid_hex_bytes(encode_utf8(s))
    &&& trusted::hex_decoded(encode_utf8(s)).len() == ADDRESS_LENGTH
}

/// The address a hex string spells.
pub open spec fn address_of_text(s: Seq<char>) -> Seq<u8> {
    trusted::hex_decoded(encode_utf8(s))
}

/// Materializes the account at the requested child of a fresh wallet and
/// exports its address and private key. A fresh wallet materializes
/// sequentially, so only the first child index is in policy.
pub fn create_wallet_account(data: &CreateWalletAddressData) -> (r: Result<
    WalletAccountInfo,
    ApiError,
>)
    ensures
        match r {
            Ok(info) => {
                &&& valid_mnemonic_bytes(encode_utf8(data.mnemonic@))
                &&& child_in_policy(0, data.child_number)
                &&& info.child_number == data.child_number
                &&& info.address@ == trusted::hex_encoded(
                    address_of_child(
                        seed_of_mnemonic(encode_utf8(data.mnemonic@)),
                        data.child_number,
                    ),
                )
                &&& info.private_key@ == trusted::hex_encoded(
                    child_key_of(seed_of_mnemonic(encode_utf8(data.mnemonic@)), data.child_number),
                )
            },
            Err(_) => {
                ||| !valid_mnemonic_bytes(encode_utf8(data.mnemonic@))
                ||| !child_in_policy(0, data.child_number)
            },
        },
{
    let mut wallet = match WalletLibrary::new_from_mnemonic(data.mnemonic.as_str()) {
        Ok(w) => w,
        Err(e) => {
            return Err(ApiError::from_core(&e));
        },
    };
    let address = match wallet.new_address_at_child_number(data.child_number) {
        Ok(a) => a,
        Err(e) => {
            return Err(ApiError::from_core(&e));
        },
    };
    let key = wallet.get_child_private_key(data.child_number);
    let address_hex = trusted::hex_encode(address.as_bytes().as_slice());
    let private_key_hex = trusted::hex_encode(key.as_slice());
    Ok(
        WalletAccountInfo {
            address: address_hex,
            child_number: data.child_number,
            private_key: private_key_hex,
        },
    )
}

/// Reads the account resource out of the blob the ledger returned for the
/// given address text, substituting the default resource for an account the
/// ledger has never seen.
pub fn get_latest_account_state(addr: &str, account_blob: &Option<AccountStateBlob>) -> (r: Result<
    AccountResourceSer,
    ApiError,
>)
    ensures
        match r {
            Ok(ser) => {
                &&& address_text_ok(addr@)
                &&& match account_blob {
                    Some(blob) => codec::decoded_account_resource(blob@) == Some(ser@),
                    None => ser@ == crate::ledger::default_account_resource(),
                }
            },
            Err(_) => {
                ||| !address_text_ok(addr@)
                ||| (account_blob matches Some(blob) && codec::decoded_account_resource(blob@)
                    is None)
            },
        },
{
    let _address = utils::address_from_strings(addr)?;
    let resource = utils::get_account_resource_or_default(account_blob)?;
    Ok(AccountResourceSer::from(resource))
}

/// Validates a mint request and builds the exact faucet URL to fetch.
pub fn mint_coins(data: &MintCoinsData, faucet_url: &str) -> (r: Result<String, ApiError>)
    ensures
        match r {
            Ok(url) => {
                &&& address_text_ok(data.receiver@)
                &&& url@ == "http://"@ + faucet_url@ + "?amount="@ + crate::state::decimal_digits(
                    data.num_coins,
                ) + "&address="@ + trusted::hex_encoded(address_of_text(data.receiver@))
            },
            Err(_) => !address_text_ok(data.receiver@),
        },
{
    let receiver = utils::address_from_strings(data.receiver.as_str())?;
    Ok(crate::state::mint_coins_url(faucet_url, data.num_coins, &receiver))
}

/// Whether the transfer form carries a resolvable credential.
pub open spec fn transfer_credential_ok(data: &TransferCoinsData) -> bool {
    match data.private_key {
        Some(pk) => trusted::valid_hex_bytes(encode_utf8(pk@)) && trusted::hex_decoded(
            encode_utf8(pk@),
        ).len() >= 32,
        None => data.mnemonic matches Some(m) && data.child_number is Some
            && valid_mnemonic_bytes(encode_utf8(m@)),
    }
}

/// Whether the resolved credential may sign: a key pair always may; a wallet
/// resolved from a mnemonic is fresh, so only its first child is in policy.
pub open spec fn transfer_sign_allowed(data: &TransferCoinsData) -> bool {
    match data.private_key {
        Some(_) => true,
        None => data.child_number == Some(0u64),
    }
}

/// Resolves the credential and both addresses from the transfer form, then
/// builds and signs the transfer of `num_coins` at the current instant
/// against the given sender sequence number.
pub fn transfer_coins(data: &TransferCoinsData, sequence_number: u64) -> (r: Result<
    (SubmitTransactionRequest, u64),
    ApiError,
>)
    ensures
        r is Ok <==> ({
            &&& transfer_credential_ok(data)
            &&& address_text_ok(data.sender_addr@)
            &&& address_text_ok(data.receiver_addr@)
            &&& transfer_sign_allowed(data)
        }),
        match r {
            Ok((req, seq)) => {
                &&& seq == sequence_number
                &&& req.signed_txn.raw_txn@.sender == address_of_text(data.sender_addr@)
                &&& req.signed_txn.raw_txn@.sequence_number == sequence_number
                &&& req.signed_txn.raw_txn@.program.code == transfer_program_code()
                &&& req.signed_txn.raw_txn@.program.args.len() == 2
                &&& req.signed_txn.raw_txn@.program.args[0] == TransactionArgumentV::Address(
                    address_of_text(data.receiver_addr@),
                )
                &&& req.signed_txn.raw_txn@.program.args[1] == TransactionArgumentV::U64(
                    data.num_coins,
                )
                &&& req.signed_txn.raw_txn@.max_gas_amount == (match data.max_gas_amount {
                    Some(x) => x,
                    None => MAX_GAS_AMOUNT,
                })
                &&& req.signed_txn.raw_txn@.gas_unit_price == (match data.gas_unit_price {
                    Some(x) => x,
                    None => GAS_UNIT_PRICE,
                })
                &&& req.signed_txn.well_formed()
                &&& req.signed_txn.well_signed()
            },
            Err(_) => true,
        },
{
    let mut client = match Client::from_form_fields(
        &data.private_key,
        &data.mnemonic,
        data.child_number,
    ) {
        Ok(c) => c,
        Err(e) => {
            return Err(ApiError::from_core(&e));
        },
    };
    let sender = utils::address_from_strings(data.sender_addr.as_str())?;
    let receiver = utils::address_from_strings(data.receiver_addr.as_str())?;
    match client.transfer_coins(
        sender,
        &receiver,
        data.num_coins,
        data.gas_unit_price,
        data.max_gas_amount,
        sequence_number,
    ) {
        Ok(result) => Ok(result),
        Err(e) => Err(ApiError::from_core(&e)),
    }
}

/// Pairs every committed transaction with the events fetched for it,
/// position by position.
pub fn txns_with_events(val: Vec<(SignedTransaction, Option<Vec<ContractEvent>>)>) -> (r: Vec<
    TxWithEvents,
>)
    ensures
        r@.len() == val@.len(),
        forall|i: int| 0 <= i < val@.len() ==> (#[trigger] r@[i]).transaction == val@[i].0
            && r@[i].events == val@[i].1,
{
    let ghost orig = val@;
    let mut val = val;
    let mut r: Vec<TxWithEvents> = Vec::new();
    while val.len() > 0
        invariant
            r@.len() + val@.len() == orig.len(),
            val@ == orig.subrange(r@.len() as int, orig.len() as int),
            forall|j: int| 0 <= j < r@.len() ==> (#[trigger] r@[j]).transaction == orig[j].0
                && r@[j].events == orig[j].1,
        decreases val@.len(),
    {
        let pair = val.remove(0);
        r.push(TxWithEvents { transaction: pair.0, events: pair.1 });
        proof {
            assert(val@ =~= orig.subrange(r@.len() as int, orig.len() as int));
        }
    }
    r
}

/// The state path of the sent-events counter under an account.
pub open spec fn spec_sent_event_path() -> Seq<u8> {
    seq![
        47u8, 115u8, 101u8, 110u8, 116u8, 95u8, 101u8, 118u8, 101u8, 110u8, 116u8, 115u8, 95u8,
        99u8, 111u8, 117u8, 110u8, 116u8,
    ]
}

/// The state path of the received-events counter under an account.
pub open spec fn spec_received_event_path() -> Seq<u8> {
    seq![
        47u8, 114u8, 101u8, 99u8, 101u8, 105u8, 118u8, 101u8, 100u8, 95u8, 101u8, 118u8, 101u8,
        110u8, 116u8, 115u8, 95u8, 99u8, 111u8, 117u8, 110u8, 116u8,
    ]
}

/// The path selected by an event type.
pub open spec fn spec_event_path(event_type: EventType) -> Seq<u8> {
    match event_type {
        EventType::Sent => spec_sent_event_path(),
        EventType::Received => spec_received_event_path(),
    }
}

/// The state path of the sent-events counter.
pub fn account_sent_event_path() -> (r: Vec<u8>)
    ensures
        r@ == spec_sent_event_path(),
{
    let r: Vec<u8> = vec![
        47u8, 115u8, 101u8, 110u8, 116u8, 95u8, 101u8, 118u8, 101u8, 110u8, 116u8, 115u8, 95u8,
        99u8, 111u8, 117u8, 110u8, 116u8,
    ];
    proof {
        assert(r@ =~= spec_sent_event_path());
    }
    r
}

/// The state path of the received-events counter.
pub fn account_received_event_path() -> (r: Vec<u8>)
    ensures
        r@ == spec_received_event_path(),
{
    let r: Vec<u8> = vec![
        47u8, 114u8, 101u8, 99u8, 101u8, 105u8, 118u8, 101u8, 100u8, 95u8, 101u8, 118u8, 101u8,
        110u8, 116u8, 115u8, 95u8, 99u8, 111u8, 117u8, 110u8, 116u8,
    ];
    proof {
        assert(r@ =~= spec_received_event_path());
    }
    r
}

/// The access path an events query reads: the account's sent or received
/// counter, as requested.
pub fn get_events_by_account_and_type(addr: &str, event_type: EventType) -> (r: Result<
    AccessPath,
    ApiError,
>)
    ensures
        match r {
            Ok(p) => {
                &&& address_text_ok(addr@)
                &&& p@.address == address_of_text(addr@)
                &&& p@.path == spec_event_path(event_type)
                &&& p.well_formed()
            },
            Err(_) => !address_text_ok(addr@),
        },
{
    let address = utils::address_from_strings(addr)?;
    let path: Vec<u8> = match event_type {
        EventType::Sent => account_sent_event_path(),
        EventType::Received => account_received_event_path(),
    };
    Ok(AccessPath::new(address, path))
}

} // verus!
