//! Ledger-native cryptographic proof structures.
//!
//! Sibling order is load-bearing: every sibling sequence runs from leaf to
//! root, exactly as the ledger produced it, and every view below keeps that
//! order. Reordering the siblings silently invalidates a proof without any
//! serialization error, so the contracts in `serializers` state order
//! preservation exactly.

use vstd::prelude::*;

use crate::ledger::{AccountStateBlob, ContractEvent, ContractEventV, HashValue, TransactionInfo, TransactionInfoV};

verus! {

/// The abstract value of a sparse Merkle proof.
#[verifier::ext_equal]
pub struct SparseMerkleProofV {
    pub leaf: Option<(Seq<u8>, Seq<u8>)>,
    pub siblings: Seq<Seq<u8>>,
}

/// An inclusion/exclusion proof for a key in the sparse account tree: the
/// optional leaf pair (key hash, value hash) and the sibling hashes from
/// leaf to root.
#[derive(Debug)]
pub struct SparseMerkleProof {
    pub leaf: Option<(HashValue, HashValue)>,
    pub siblings: Vec<HashValue>,
}

impl View for SparseMerkleProof {
    type V = SparseMerkleProofV;

    open spec fn view(&self) -> SparseMerkleProofV {
        SparseMerkleProofV {
            leaf: match self.leaf {
                Some(pair) => Some((pair.0@, pair.1@)),
                None => None,
            },
            siblings: Seq::new(self.siblings@.len(), |i: int| self.siblings@[i]@),
        }
    }
}

impl SparseMerkleProof {
    pub fn new(leaf: Option<(HashValue, HashValue)>, siblings: Vec<HashValue>) -> (r: Self)
        ensures
            r.leaf == leaf,
            r.siblings == siblings,
    {
        SparseMerkleProof { leaf, siblings }
    }

    pub fn leaf(&self) -> (r: &Option<(HashValue, HashValue)>)
        ensures
            r == &self.leaf,
    {
        &self.leaf
    }

    pub fn siblings(&self) -> (r: &Vec<HashValue>)
        ensures
            r == &self.siblings,
    {
        &self.siblings
    }
}

/// The abstract value of an accumulator proof.
#[verifier::ext_equal]
pub struct AccumulatorProofV {
    pub siblings: Seq<Seq<u8>>,
}

/// An inclusion proof for a position in the append-only ledger accumulator:
/// the sibling hashes from leaf to root.
#[derive(Debug)]
pub struct AccumulatorProof {
    pub siblings: Vec<HashValue>,
}

impl View for AccumulatorProof {
    type V = AccumulatorProofV;

    open spec fn view(&self) -> AccumulatorProofV {
        AccumulatorProofV { siblings: Seq::new(self.siblings@.len(), |i: int| self.siblings@[i]@) }
    }
}

impl AccumulatorProof {
    pub fn new(siblings: Vec<HashValue>) -> (r: Self)
        ensures
            r.siblings == siblings,
    {
        AccumulatorProof { siblings }
    }

    pub fn siblings(&self) -> (r: &Vec<HashValue>)
        ensures
            r == &self.siblings,
    {
        &self.siblings
    }
}

/// The abstract value of an account-state proof.
#[verifier::ext_equal]
pub struct AccountStateProofV {
    pub ledger_info_to_transaction_info_proof: AccumulatorProofV,
    pub transaction_info: TransactionInfoV,
    pub transaction_info_to_account_proof: SparseMerkleProofV,
}

/// The full proof of an account state: ledger info down to a transaction
/// info, the transaction info itself, and from there down to the account.
#[derive(Debug)]
pub struct AccountStateProof {
    pub ledger_info_to_transaction_info_proof: AccumulatorProof,
    pub transaction_info: TransactionInfo,
    pub transaction_info_to_account_proof: SparseMerkleProof,
}

impl View for AccountStateProof {
    type V = AccountStateProofV;

    open spec fn view(&self) -> AccountStateProofV {
        AccountStateProofV {
            ledger_info_to_transaction_info_proof: self.ledger_info_to_transaction_info_proof@,
            transaction_info: self.transaction_info@,
            transaction_info_to_account_proof: self.transaction_info_to_account_proof@,
        }
    }
}

impl AccountStateProof {
    pub fn new(
        ledger_info_to_transaction_info_proof: AccumulatorProof,
        transaction_info: TransactionInfo,
        transaction_info_to_account_proof: SparseMerkleProof,
    ) -> (r: Self)
        ensures
            r.ledger_info_to_transaction_info_proof == ledger_info_to_transaction_info_proof,
            r.transaction_info == transaction_info,
            r.transaction_info_to_account_proof == transaction_info_to_account_proof,
    {
        AccountStateProof {
            ledger_info_to_transaction_info_proof,
            transaction_info,
            transaction_info_to_account_proof,
        }
    }

    pub fn ledger_info_to_transaction_info_proof(&self) -> (r: &AccumulatorProof)
        ensures
            r == &self.ledger_info_to_transaction_info_proof,
    {
        &self.ledger_info_to_transaction_info_proof
    }

    pub fn transaction_info(&self) -> (r: &TransactionInfo)
        ensures
            r == &self.transaction_info,
    {
        &self.transaction_info
    }

    pub fn transaction_info_to_account_proof(&self) -> (r: &SparseMerkleProof)
        ensures
            r == &self.transaction_info_to_account_proof,
    {
        &self.transaction_info_to_account_proof
    }
}

/// The abstract value of an event proof.
#[verifier::ext_equal]
pub struct EventProofV {
    pub ledger_info_to_transaction_info_proof: AccumulatorProofV,
    pub transaction_info: TransactionInfoV,
    pub transaction_info_to_event_proof: AccumulatorProofV,
}

/// The full proof of one contract event: ledger info down to a transaction
/// info, the transaction info itself, and from there down to the event.
#[derive(Debug)]
pub struct EventProof {
    pub ledger_info_to_transaction_info_proof: AccumulatorProof,
    pub transaction_info: TransactionInfo,
    pub transaction_info_to_event_proof: AccumulatorProof,
}

impl View for EventProof {
    type V = EventProofV;

    open spec fn view(&self) -> EventProofV {
        EventProofV {
            ledger_info_to_transaction_info_proof: self.ledger_info_to_transaction_info_proof@,
            transaction_info: self.transaction_info@,
            transaction_info_to_event_proof: self.transaction_info_to_event_proof@,
        }
    }
}

impl EventProof {
    pub fn new(
        ledger_info_to_transaction_info_proof: AccumulatorProof,
        transaction_info: TransactionInfo,
        transaction_info_to_event_proof: AccumulatorProof,
    ) -> (r: Self)
        ensures
            r.ledger_info_to_transaction_info_proof == ledger_info_to_transaction_info_proof,
            r.transaction_info == transaction_info,
            r.transaction_info_to_event_proof == transaction_info_to_event_proof,
    {
        EventProof {
            ledger_info_to_transaction_info_proof,
            transaction_info,
            transaction_info_to_event_proof,
        }
    }

    pub fn ledger_info_to_transaction_info_proof(&self) -> (r: &AccumulatorProof)
        ensures
            r == &self.ledger_info_to_transaction_info_proof,
    {
        &self.ledger_info_to_transaction_info_proof
    }

    pub fn transaction_info(&self) -> (r: &TransactionInfo)
        ensures
            r == &self.transaction_info,
    {
        &self.transaction_info
    }

    pub fn transaction_info_to_event_proof(&self) -> (r: &AccumulatorProof)
        ensures
            r == &self.transaction_info_to_event_proof,
    {
        &self.transaction_info_to_event_proof
    }
}

/// The abstract value of an account state carried with its proof.
#[verifier::ext_equal]
pub struct AccountStateWithProofV {
    pub version: u64,
    pub blob: Option<Seq<u8>>,
    pub proof: AccountStateProofV,
}

/// An account state at a ledger version, together with its proof. An absent
/// blob means the ledger has no state for the account; it is never collapsed
/// into an empty blob.
#[derive(Debug)]
pub struct AccountStateWithProof {
    pub version: u64,
    pub blob: Option<AccountStateBlob>,
    pub proof: AccountStateProof,
}

impl View for AccountStateWithProof {
    type V = AccountStateWithProofV;

    open spec fn view(&self) -> AccountStateWithProofV {
        AccountStateWithProofV {
            version: self.version,
            blob: match self.blob {
                Some(b) => Some(b@),
                None => None,
            },
            proof: self.proof@,
        }
    }
}

impl AccountStateWithProof {
    pub fn new(version: u64, blob: Option<AccountStateBlob>, proof: AccountStateProof) -> (r: Self)
        ensures
            r.version == version,
            r.blob == blob,
            r.proof == proof,
    {
        AccountStateWithProof { version, blob, proof }
    }
}

/// The abstract value of an event carried with its proof.
#[verifier::ext_equal]
pub struct EventWithProofV {
    pub transaction_version: u64,
    pub event_index: u64,
    pub event: ContractEventV,
    pub proof: EventProofV,
}

/// A contract event located at a transaction version and event index,
/// together with its proof.
#[derive(Debug)]
pub struct EventWithProof {
    pub transaction_version: u64,
    pub event_index: u64,
    pub event: ContractEvent,
    pub proof: EventProof,
}

impl View for EventWithProof {
    type V = EventWithProofV;

    open spec fn view(&self) -> EventWithProofV {
        EventWithProofV {
            transaction_version: self.transaction_version,
            event_index: self.event_index,
            event: self.event@,
            proof: self.proof@,
        }
    }
}

impl EventWithProof {
    pub fn new(
        transaction_version: u64,
        event_index: u64,
        event: ContractEvent,
        proof: EventProof,
    ) -> (r: Self)
        ensures
            r.transaction_version == transaction_version,
            r.event_index == event_index,
            r.event == event,
            r.proof == proof,
    {
        EventWithProof { transaction_version, event_index, event, proof }
    }
}

} // verus!
