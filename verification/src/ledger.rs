//! The ledger-native values the gateway handles: addresses, hashes, access
//! paths, contract events, transaction metadata and account resources.
//!
//! Each executable type carries a view onto a plain mathematical value, so
//! that contracts can speak of contents rather than representation.

use vstd::prelude::*;
use vstd::slice::slice_to_vec;

verus! {

/// Byte length of an account address.
pub const ADDRESS_LENGTH: usize = 32;

/// Byte length of a content hash.
pub const HASH_LENGTH: usize = 32;

/// A ledger account address: exactly 32 bytes.
#[derive(Debug)]
pub struct AccountAddress {
    pub bytes: Vec<u8>,
}

impl View for AccountAddress {
    type V = Seq<u8>;

    open spec fn view(&self) -> Seq<u8> {
        self.bytes@
    }
}

impl AccountAddress {
    pub open spec fn well_formed(&self) -> bool {
        self@.len() == ADDRESS_LENGTH
    }

    pub fn new(bytes: Vec<u8>) -> (r: Self)
        requires
            bytes@.len() == ADDRESS_LENGTH,
        ensures
            r@ == bytes@,
            r.well_formed(),
    {
        AccountAddress { bytes }
    }

    /// Accepts exactly the byte strings of address length.
    pub fn from_bytes(bytes: Vec<u8>) -> (r: Option<Self>)
        ensures
            match r {
                Some(a) => bytes@.len() == ADDRESS_LENGTH && a@ == bytes@ && a.well_formed(),
                None => bytes@.len() != ADDRESS_LENGTH,
            },
    {
        if bytes.len() == ADDRESS_LENGTH {
            Some(AccountAddress { bytes })
        } else {
            None
        }
    }

    pub fn as_bytes(&self) -> (r: &Vec<u8>)
        ensures
            r@ == self@,
    {
        &self.bytes
    }
}

/// A 32-byte content hash as carried inside proofs.
#[derive(Debug)]
pub struct HashValue {
    pub bytes: Vec<u8>,
}

impl View for HashValue {
    type V = Seq<u8>;

    open spec fn view(&self) -> Seq<u8> {
        self.bytes@
    }
}

impl HashValue {
    pub open spec fn well_formed(&self) -> bool {
        self@.len() == HASH_LENGTH
    }

    pub fn new(bytes: Vec<u8>) -> (r: Self)
        requires
            bytes@.len() == HASH_LENGTH,
        ensures
            r@ == bytes@,
            r.well_formed(),
    {
        HashValue { bytes }
    }

    pub fn as_bytes(&self) -> (r: &Vec<u8>)
        ensures
            r@ == self@,
    {
        &self.bytes
    }
}

/// The abstract value of an access path.
#[verifier::ext_equal]
pub struct AccessPathV {
    pub address: Seq<u8>,
    pub path: Seq<u8>,
}

/// A structured address of one resource or field under an account.
#[derive(Debug)]
pub struct AccessPath {
    pub address: AccountAddress,
    pub path: Vec<u8>,
}

impl View for AccessPath {
    type V = AccessPathV;

    open spec fn view(&self) -> AccessPathV {
        AccessPathV { address: self.address@, path: self.path@ }
    }
}

impl AccessPath {
    pub open spec fn well_formed(&self) -> bool {
        self.address.well_formed()
    }

    pub fn new(address: AccountAddress, path: Vec<u8>) -> (r: Self)
        ensures
            r@.address == address@,
            r@.path == path@,
    {
        AccessPath { address, path }
    }
}

/// The abstract value of a contract event.
#[verifier::ext_equal]
pub struct ContractEventV {
    pub access_path: AccessPathV,
    pub sequence_number: u64,
    pub event_data: Seq<u8>,
}

/// An event emitted under an access path: a per-path sequence number and an
/// opaque payload, never interpreted by this layer.
#[derive(Debug)]
pub struct ContractEvent {
    pub access_path: AccessPath,
    pub sequence_number: u64,
    pub event_data: Vec<u8>,
}

impl View for ContractEvent {
    type V = ContractEventV;

    open spec fn view(&self) -> ContractEventV {
        ContractEventV {
            access_path: self.access_path@,
            sequence_number: self.sequence_number,
            event_data: self.event_data@,
        }
    }
}

impl ContractEvent {
    pub fn new(access_path: AccessPath, sequence_number: u64, event_data: Vec<u8>) -> (r: Self)
        ensures
            r@.access_path == access_path@,
            r@.sequence_number == sequence_number,
            r@.event_data == event_data@,
    {
        ContractEvent { access_path, sequence_number, event_data }
    }

    pub fn access_path(&self) -> (r: &AccessPath)
        ensures
            r@ == self@.access_path,
    {
        &self.access_path
    }

    pub fn sequence_number(&self) -> (r: u64)
        ensures
            r == self@.sequence_number,
    {
        self.sequence_number
    }

    pub fn event_data(&self) -> (r: &Vec<u8>)
        ensures
            r@ == self@.event_data,
    {
        &self.event_data
    }
}

/// The abstract value of a transaction-info record.
#[verifier::ext_equal]
pub struct TransactionInfoV {
    pub signed_transaction_hash: Seq<u8>,
    pub state_root_hash: Seq<u8>,
    pub event_root_hash: Seq<u8>,
    pub gas_used: u64,
}

/// The per-transaction record carried inside proofs: the three root hashes
/// and the gas consumed.
#[derive(Debug)]
pub struct TransactionInfo {
    pub signed_transaction_hash: HashValue,
    pub state_root_hash: HashValue,
    pub event_root_hash: HashValue,
    pub gas_used: u64,
}

impl View for TransactionInfo {
    type V = TransactionInfoV;

    open spec fn view(&self) -> TransactionInfoV {
        TransactionInfoV {
            signed_transaction_hash: self.signed_transaction_hash@,
            state_root_hash: self.state_root_hash@,
            event_root_hash: self.event_root_hash@,
            gas_used: self.gas_used,
        }
    }
}

impl TransactionInfo {
    pub open spec fn well_formed(&self) -> bool {
        &&& self.signed_transaction_hash.well_formed()
        &&& self.state_root_hash.well_formed()
        &&& self.event_root_hash.well_formed()
    }

    pub fn new(
        signed_transaction_hash: HashValue,
        state_root_hash: HashValue,
        event_root_hash: HashValue,
        gas_used: u64,
    ) -> (r: Self)
        ensures
            r@.signed_transaction_hash == signed_transaction_hash@,
            r@.state_root_hash == state_root_hash@,
            r@.event_root_hash == event_root_hash@,
            r@.gas_used == gas_used,
    {
        TransactionInfo { signed_transaction_hash, state_root_hash, event_root_hash, gas_used }
    }
}

/// The abstract value of an account resource.
#[verifier::ext_equal]
pub struct AccountResourceV {
    pub balance: u64,
    pub sequence_number: u64,
    pub authentication_key: Seq<u8>,
    pub sent_events_count: u64,
    pub received_events_count: u64,
}

/// The account state a caller reads back: balance, next sequence number,
/// authentication key and the two event counters.
#[derive(Debug)]
pub struct AccountResource {
    pub balance: u64,
    pub sequence_number: u64,
    pub authentication_key: Vec<u8>,
    pub sent_events_count: u64,
    pub received_events_count: u64,
}

impl View for AccountResource {
    type V = AccountResourceV;

    open spec fn view(&self) -> AccountResourceV {
        AccountResourceV {
            balance: self.balance,
            sequence_number: self.sequence_number,
            authentication_key: self.authentication_key@,
            sent_events_count: self.sent_events_count,
            received_events_count: self.received_events_count,
        }
    }
}

impl AccountResource {
    pub fn new(
        balance: u64,
        sequence_number: u64,
        authentication_key: Vec<u8>,
        sent_events_count: u64,
        received_events_count: u64,
    ) -> (r: Self)
        ensures
            r@.balance == balance,
            r@.sequence_number == sequence_number,
            r@.authentication_key == authentication_key@,
            r@.sent_events_count == sent_events_count,
            r@.received_events_count == received_events_count,
    {
        AccountResource {
            balance,
            sequence_number,
            authentication_key,
            sent_events_count,
            received_events_count,
        }
    }

    pub fn balance(&self) -> (r: u64)
        ensures
            r == self@.balance,
    {
        self.balance
    }

    pub fn sequence_number(&self) -> (r: u64)
        ensures
            r == self@.sequence_number,
    {
        self.sequence_number
    }

    pub fn authentication_key(&self) -> (r: &Vec<u8>)
        ensures
            r@ == self@.authentication_key,
    {
        &self.authentication_key
    }

    pub fn sent_events_count(&self) -> (r: u64)
        ensures
            r == self@.sent_events_count,
    {
        self.sent_events_count
    }

    pub fn received_events_count(&self) -> (r: u64)
        ensures
            r == self@.received_events_count,
    {
        self.received_events_count
    }
}

/// The abstract value of a default account resource: all counters zero and
/// an empty authentication key.
pub open spec fn default_account_resource() -> AccountResourceV {
    AccountResourceV {
        balance: 0,
        sequence_number: 0,
        authentication_key: Seq::empty(),
        sent_events_count: 0,
        received_events_count: 0,
    }
}

impl Default for AccountResource {
    /// The resource reported for an account the ledger has never seen.
    fn default() -> (r: Self)
        ensures
            r@ == default_account_resource(),
    {
        let r = AccountResource {
            balance: 0,
            sequence_number: 0,
            authentication_key: Vec::new(),
            sent_events_count: 0,
            received_events_count: 0,
        };
        proof {
            assert(r@.authentication_key =~= default_account_resource().authentication_key);
        }
        r
    }
}

/// An account's state as an opaque byte blob, exactly as stored.
#[derive(Debug)]
pub struct AccountStateBlob {
    pub bytes: Vec<u8>,
}

impl View for AccountStateBlob {
    type V = Seq<u8>;

    open spec fn view(&self) -> Seq<u8> {
        self.bytes@
    }
}

impl AccountStateBlob {
    pub fn new(bytes: Vec<u8>) -> (r: Self)
        ensures
            r@ == bytes@,
    {
        AccountStateBlob { bytes }
    }

    pub fn as_bytes(&self) -> (r: &Vec<u8>)
        ensures
            r@ == self@,
    {
        &self.bytes
    }
}


impl Clone for AccountAddress {
    fn clone(&self) -> (r: Self)
        ensures
            r@ == self@,
    {
        AccountAddress { bytes: slice_to_vec(self.bytes.as_slice()) }
    }
}

impl Clone for HashValue {
    fn clone(&self) -> (r: Self)
        ensures
            r@ == self@,
    {
        HashValue { bytes: slice_to_vec(self.bytes.as_slice()) }
    }
}

impl Clone for AccessPath {
    fn clone(&self) -> (r: Self)
        ensures
            r@ == self@,
    {
        AccessPath { address: self.address.clone(), path: slice_to_vec(self.path.as_slice()) }
    }
}

impl Clone for ContractEvent {
    fn clone(&self) -> (r: Self)
        ensures
            r@ == self@,
    {
        ContractEvent {
            access_path: self.access_path.clone(),
            sequence_number: self.sequence_number,
            event_data: slice_to_vec(self.event_data.as_slice()),
        }
    }
}

impl Clone for TransactionInfo {
    fn clone(&self) -> (r: Self)
        ensures
            r@ == self@,
    {
        TransactionInfo {
            signed_transaction_hash: self.signed_transaction_hash.clone(),
            state_root_hash: self.state_root_hash.clone(),
            event_root_hash: self.event_root_hash.clone(),
            gas_used: self.gas_used,
        }
    }
}

impl Clone for AccountResource {
    fn clone(&self) -> (r: Self)
        ensures
            r@ == self@,
    {
        AccountResource {
            balance: self.balance,
            sequence_number: self.sequence_number,
            authentication_key: slice_to_vec(self.authentication_key.as_slice()),
            sent_events_count: self.sent_events_count,
            received_events_count: self.received_events_count,
        }
    }
}

impl Clone for AccountStateBlob {
    fn clone(&self) -> (r: Self)
        ensures
            r@ == self@,
    {
        AccountStateBlob { bytes: slice_to_vec(self.bytes.as_slice()) }
    }
}

} // verus!
