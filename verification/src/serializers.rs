//! Mirror shapes for JSON consumers.
//!
//! Every ledger-native proof type has a structurally identical mirror built
//! from plain byte vectors, produced by a total conversion: no field is
//! dropped, reordered or recomputed, and an absent proof stays absent. Each
//! conversion's contract says that the mirror and the source have the same
//! abstract value.

use vstd::prelude::*;
use vstd::slice::slice_to_vec;

use crate::ledger::{
    AccessPathV, AccountResource, AccountResourceV, AccountStateBlob, ContractEvent,
    ContractEventV, HashValue, TransactionInfo, TransactionInfoV,
};
use crate::proofs::{
    AccountStateProof, AccountStateProofV, AccountStateWithProof, AccountStateWithProofV,
    AccumulatorProof, AccumulatorProofV, EventProof, EventProofV, EventWithProof, EventWithProofV,
    SparseMerkleProof, SparseMerkleProofV,
};
use crate::transaction::SignedTransaction;

verus! {

/// The account-resource fields as a caller reads them back.
#[derive(Debug)]
pub struct AccountResourceSer {
    pub balance: u64,
    pub sequence_number: u64,
    pub authentication_key: Vec<u8>,
    pub sent_events_count: u64,
    pub received_events_count: u64,
}

impl View for AccountResourceSer {
    type V = AccountResourceV;

    open spec fn view(&self) -> AccountResourceV {
        AccountResourceV {
            balance: self.balance,
            sequence_number: self.sequence_number,
            authentication_key: self.authentication_key@,
            sent_events_count: self.sent_events_count,
            received_events_count: self.received_events_count,
        }
    }
}

impl AccountResourceSer {
    /// Mirrors an account resource field for field.
    pub fn from(acc: AccountResource) -> (r: Self)
        ensures
            r@ == acc@,
    {
        let r = AccountResourceSer {
            balance: acc.balance(),
            sequence_number: acc.sequence_number(),
            authentication_key: slice_to_vec(acc.authentication_key().as_slice()),
            sent_events_count: acc.sent_events_count(),
            received_events_count: acc.received_events_count(),
        };
        proof {
            assert(r@ =~= acc@);
        }
        r
    }
}

/// A committed transaction paired with the events it emitted, if the caller
/// asked for them.
#[derive(Debug)]
pub struct TxWithEvents {
    pub transaction: SignedTransaction,
    pub events: Option<Vec<ContractEvent>>,
}

/// An account state with proof paired with the events read for it.
#[derive(Debug)]
pub struct AccWithEvents {
    pub account: Option<AccountStateWithProof>,
    pub events: Vec<EventWithProof>,
}

/// The mirror of an access path.
#[derive(Debug)]
pub struct AccessPathSer {
    pub address: Vec<u8>,
    pub path: Vec<u8>,
}

impl View for AccessPathSer {
    type V = AccessPathV;

    open spec fn view(&self) -> AccessPathV {
        AccessPathV { address: self.address@, path: self.path@ }
    }
}

/// The mirror of a contract event.
#[derive(Debug)]
pub struct ContractEventSer {
    pub access_path: AccessPathSer,
    pub sequence_number: u64,
    pub event_data: Vec<u8>,
}

impl View for ContractEventSer {
    type V = ContractEventV;

    open spec fn view(&self) -> ContractEventV {
        ContractEventV {
            access_path: self.access_path@,
            sequence_number: self.sequence_number,
            event_data: self.event_data@,
        }
    }
}

impl ContractEventSer {
    /// The event payload, copied verbatim.
    pub fn event_data_cloned(ev: &ContractEvent) -> (r: Vec<u8>)
        ensures
            r@ == ev@.event_data,
    {
        slice_to_vec(ev.event_data().as_slice())
    }
}

/// The mirror of a transaction-info record, with its natural field set.
#[derive(Debug)]
pub struct TransactionInfoSer {
    pub signed_transaction_hash: Vec<u8>,
    pub state_root_hash: Vec<u8>,
    pub event_root_hash: Vec<u8>,
    pub gas_used: u64,
}

impl View for TransactionInfoSer {
    type V = TransactionInfoV;

    open spec fn view(&self) -> TransactionInfoV {
        TransactionInfoV {
            signed_transaction_hash: self.signed_transaction_hash@,
            state_root_hash: self.state_root_hash@,
            event_root_hash: self.event_root_hash@,
            gas_used: self.gas_used,
        }
    }
}

/// The mirror of a sparse Merkle proof.
#[derive(Debug)]
pub struct SparseMerkleProofSer {
    pub leaf: Option<(Vec<u8>, Vec<u8>)>,
    pub siblings: Vec<Vec<u8>>,
}

impl View for SparseMerkleProofSer {
    type V = SparseMerkleProofV;

    open spec fn view(&self) -> SparseMerkleProofV {
        SparseMerkleProofV {
            leaf: match self.leaf {
                Some(pair) => Some((pair.0@, pair.1@)),
                None => None,
            },
            siblings: Seq::new(self.siblings@.len(), |i: int| self.siblings@[i]@),
        }
    }
}

/// The mirror of an accumulator proof.
#[derive(Debug)]
pub struct AccumulatorProofSer {
    pub siblings: Vec<Vec<u8>>,
}

impl View for AccumulatorProofSer {
    type V = AccumulatorProofV;

    open spec fn view(&self) -> AccumulatorProofV {
        AccumulatorProofV { siblings: Seq::new(self.siblings@.len(), |i: int| self.siblings@[i]@) }
    }
}

/// The mirror of an account-state proof.
#[derive(Debug)]
pub struct AccountStateProofSer {
    pub ledger_info_to_transaction_info_proof: AccumulatorProofSer,
    pub transaction_info: TransactionInfoSer,
    pub transaction_info_to_account_proof: SparseMerkleProofSer,
}

impl View for AccountStateProofSer {
    type V = AccountStateProofV;

    open spec fn view(&self) -> AccountStateProofV {
        AccountStateProofV {
            ledger_info_to_transaction_info_proof: self.ledger_info_to_transaction_info_proof@,
            transaction_info: self.transaction_info@,
            transaction_info_to_account_proof: self.transaction_info_to_account_proof@,
        }
    }
}

/// The mirror of an event proof.
#[derive(Debug)]
pub struct EventProofSer {
    pub ledger_info_to_transaction_info_proof: AccumulatorProofSer,
    pub transaction_info: TransactionInfoSer,
    pub transaction_info_to_event_proof: AccumulatorProofSer,
}

impl View for EventProofSer {
    type V = EventProofV;

    open spec fn view(&self) -> EventProofV {
        EventProofV {
            ledger_info_to_transaction_info_proof: self.ledger_info_to_transaction_info_proof@,
            transaction_info: self.transaction_info@,
            transaction_info_to_event_proof: self.transaction_info_to_event_proof@,
        }
    }
}

/// The mirror of an event with its proof.
#[derive(Debug)]
pub struct EventWithProofSer {
    pub transaction_version: u64,
    pub event_index: u64,
    pub event: ContractEventSer,
    pub proof: EventProofSer,
}

impl View for EventWithProofSer {
    type V = EventWithProofV;

    open spec fn view(&self) -> EventWithProofV {
        EventWithProofV {
            transaction_version: self.transaction_version,
            event_index: self.event_index,
            event: self.event@,
            proof: self.proof@,
        }
    }
}

/// The mirror of an account state with its proof.
#[derive(Debug)]
pub struct AccountStateWithProofSer {
    pub version: u64,
    pub blob: Option<Vec<u8>>,
    pub proof: AccountStateProofSer,
}

impl View for AccountStateWithProofSer {
    type V = AccountStateWithProofV;

    open spec fn view(&self) -> AccountStateWithProofV {
        AccountStateWithProofV {
            version: self.version,
            blob: match self.blob {
                Some(b) => Some(b@),
                None => None,
            },
            proof: self.proof@,
        }
    }
}

/// Copies a sibling sequence verbatim, keeping the leaf-to-root order.
fn hashes_to_bytes(src: &Vec<HashValue>) -> (r: Vec<Vec<u8>>)
    ensures
        r@.len() == src@.len(),
        forall|i: int| 0 <= i < src@.len() ==> #[trigger] r@[i]@ == src@[i]@,
{
    let mut r: Vec<Vec<u8>> = Vec::new();
    let n = src.len();
    for i in 0..n
        invariant
            n == src@.len(),
            r@.len() == i,
            forall|j: int| 0 <= j < j + 1 && 0 <= j < i ==> #[trigger] r@[j]@ == src@[j]@,
    {
        r.push(slice_to_vec(src[i].as_bytes().as_slice()));
    }
    r
}

impl SparseMerkleProofSer {
    /// The sibling hashes, copied verbatim in leaf-to-root order.
    pub fn siblings_cloned(value: &SparseMerkleProof) -> (r: Vec<Vec<u8>>)
        ensures
            r@.len() == value@.siblings.len(),
            forall|i: int| 0 <= i < value@.siblings.len() ==> #[trigger] r@[i]@
                == value@.siblings[i],
    {
        hashes_to_bytes(value.siblings())
    }
}

impl AccumulatorProofSer {
    /// The sibling hashes, copied verbatim in leaf-to-root order.
    pub fn siblings_cloned(ev: &AccumulatorProof) -> (r: Vec<Vec<u8>>)
        ensures
            r@.len() == ev@.siblings.len(),
            forall|i: int| 0 <= i < ev@.siblings.len() ==> #[trigger] r@[i]@ == ev@.siblings[i],
    {
        hashes_to_bytes(ev.siblings())
    }
}

/// Mirrors an accumulator proof; the view is unchanged, so the sibling order
/// is exactly the source order.
pub fn encode_accumulator(source: &AccumulatorProof) -> (r: AccumulatorProofSer)
    ensures
        r@ == source@,
{
    let r = AccumulatorProofSer { siblings: AccumulatorProofSer::siblings_cloned(source) };
    proof {
        assert(r@.siblings =~= source@.siblings);
        assert(r@ =~= source@);
    }
    r
}

/// Mirrors a sparse Merkle proof: the leaf pair is copied when the key is
/// present in the tree and stays absent when it is not, and the siblings
/// keep their order.
pub fn encode_sparse_merkle(source: &SparseMerkleProof) -> (r: SparseMerkleProofSer)
    ensures
        r@ == source@,
        r.leaf is Some <==> source.leaf is Some,
{
    let leaf: Option<(Vec<u8>, Vec<u8>)> = match source.leaf() {
        Some(pair) => Some(
            (
                slice_to_vec(pair.0.as_bytes().as_slice()),
                slice_to_vec(pair.1.as_bytes().as_slice()),
            ),
        ),
        None => None,
    };
    let r = SparseMerkleProofSer {
        leaf,
        siblings: SparseMerkleProofSer::siblings_cloned(source),
    };
    proof {
        assert(r@.siblings =~= source@.siblings);
        assert(r@ =~= source@);
    }
    r
}

/// Mirrors a transaction-info record field for field.
pub fn encode_transaction_info(info: &TransactionInfo) -> (r: TransactionInfoSer)
    ensures
        r@ == info@,
{
    let r = TransactionInfoSer {
        signed_transaction_hash: slice_to_vec(info.signed_transaction_hash.as_bytes().as_slice()),
        state_root_hash: slice_to_vec(info.state_root_hash.as_bytes().as_slice()),
        event_root_hash: slice_to_vec(info.event_root_hash.as_bytes().as_slice()),
        gas_used: info.gas_used,
    };
    proof {
        assert(r@ =~= info@);
    }
    r
}

/// Mirrors an account-state proof by composing the two sub-encodings and the
/// carried transaction info.
pub fn encode_account_state_proof(source: &AccountStateProof) -> (r: AccountStateProofSer)
    ensures
        r@ == source@,
{
    let r = AccountStateProofSer {
        ledger_info_to_transaction_info_proof: encode_accumulator(
            source.ledger_info_to_transaction_info_proof(),
        ),
        transaction_info: encode_transaction_info(source.transaction_info()),
        transaction_info_to_account_proof: encode_sparse_merkle(
            source.transaction_info_to_account_proof(),
        ),
    };
    proof {
        assert(r@ =~= source@);
    }
    r
}

/// Mirrors an event proof by composing its two accumulator encodings and the
/// carried transaction info.
pub fn encode_event_proof(source: &EventProof) -> (r: EventProofSer)
    ensures
        r@ == source@,
{
    let r = EventProofSer {
        ledger_info_to_transaction_info_proof: encode_accumulator(
            source.ledger_info_to_transaction_info_proof(),
        ),
        transaction_info: encode_transaction_info(source.transaction_info()),
        transaction_info_to_event_proof: encode_accumulator(
            source.transaction_info_to_event_proof(),
        ),
    };
    proof {
        assert(r@ =~= source@);
    }
    r
}

/// Mirrors one contract event: access path, sequence number and the opaque
/// payload, uninterpreted.
pub fn encode_contract_event(event: &ContractEvent) -> (r: ContractEventSer)
    ensures
        r@ == event@,
{
    let path = event.access_path();
    let r = ContractEventSer {
        access_path: AccessPathSer {
            address: slice_to_vec(path.address.as_bytes().as_slice()),
            path: slice_to_vec(path.path.as_slice()),
        },
        sequence_number: event.sequence_number(),
        event_data: ContractEventSer::event_data_cloned(event),
    };
    proof {
        assert(r@ =~= event@);
    }
    r
}

/// Mirrors one event with its proof.
pub fn encode_event_with_proof(value: &EventWithProof) -> (r: EventWithProofSer)
    ensures
        r@ == value@,
{
    let r = EventWithProofSer {
        transaction_version: value.transaction_version,
        event_index: value.event_index,
        event: encode_contract_event(&value.event),
        proof: encode_event_proof(&value.proof),
    };
    proof {
        assert(r@ =~= value@);
    }
    r
}

/// The blob bytes of an account state, or absence: a missing blob is
/// propagated as absent, never as an empty byte string.
pub fn serialize_blob(value: &Option<AccountStateBlob>) -> (r: Option<Vec<u8>>)
    ensures
        value is Some <==> r is Some,
        (value matches Some(b) ==> (r matches Some(bytes) && bytes@ == b@)),
{
    match value {
        Some(blob) => Some(slice_to_vec(blob.as_bytes().as_slice())),
        None => None,
    }
}

/// Mirrors one account state with its proof.
pub fn encode_account_state_with_proof(value: &AccountStateWithProof) -> (r:
    AccountStateWithProofSer)
    ensures
        r@ == value@,
{
    let r = AccountStateWithProofSer {
        version: value.version,
        blob: serialize_blob(&value.blob),
        proof: encode_account_state_proof(&value.proof),
    };
    proof {
        assert(r@ =~= value@);
    }
    r
}

/// Mirrors an optional account state: a "no such account" lookup stays
/// `None` and is never encoded as an empty proof.
pub fn serialize_account(value: &Option<AccountStateWithProof>) -> (r: Option<
    AccountStateWithProofSer,
>)
    ensures
        value is Some <==> r is Some,
        (value matches Some(v) ==> (r matches Some(s) && s@ == v@)),
{
    match value {
        Some(v) => Some(encode_account_state_with_proof(v)),
        None => None,
    }
}

/// Mirrors every event with its proof, in order.
pub fn serialize_events_with_proof(value: &Vec<EventWithProof>) -> (r: Vec<EventWithProofSer>)
    ensures
        r@.len() == value@.len(),
        forall|i: int| 0 <= i < value@.len() ==> #[trigger] r@[i]@ == value@[i]@,
{
    let mut r: Vec<EventWithProofSer> = Vec::new();
    let n = value.len();
    for i in 0..n
        invariant
            n == value@.len(),
            r@.len() == i,
            forall|j: int| 0 <= j < i ==> #[trigger] r@[j]@ == value@[j]@,
    {
        r.push(encode_event_with_proof(&value[i]));
    }
    r
}

/// Mirrors an optional event list, in order; absence stays absent.
pub fn serialize_contract_events(value: &Option<Vec<ContractEvent>>) -> (r: Option<
    Vec<ContractEventSer>,
>)
    ensures
        value is Some <==> r is Some,
        (value matches Some(v) ==> (r matches Some(rs) && rs@.len() == v@.len() && (forall|i: int|
            0 <= i < v@.len() ==> #[trigger] rs@[i]@ == v@[i]@))),
{
    match value {
        Some(v) => {
            let mut rs: Vec<ContractEventSer> = Vec::new();
            let n = v.len();
            for i in 0..n
                invariant
                    n == v@.len(),
                    rs@.len() == i,
                    forall|j: int| 0 <= j < i ==> #[trigger] rs@[j]@ == v@[j]@,
            {
                rs.push(encode_contract_event(&v[i]));
            }
            Some(rs)
        },
        None => None,
    }
}

/// Proof round-trip fidelity: a mirror with the source's abstract value
/// carries exactly the source's sibling hashes, position by position, in the
/// leaf-to-root order the source gave them.
pub proof fn lemma_sibling_order_preserved(source: AccumulatorProof, ser: AccumulatorProofSer)
    requires
        ser@ == source@,
    ensures
        ser.siblings@.len() == source.siblings@.len(),
        forall|i: int| 0 <= i < source.siblings@.len() ==> #[trigger] ser.siblings@[i]@
            == source.siblings@[i]@,
{
    assert(ser@.siblings.len() == ser.siblings@.len());
    assert(source@.siblings.len() == source.siblings@.len());
    assert forall|i: int| 0 <= i < source.siblings@.len() implies #[trigger] ser.siblings@[i]@
        == source.siblings@[i]@ by {
        assert(ser@.siblings[i] == ser.siblings@[i]@);
        assert(source@.siblings[i] == source.siblings@[i]@);
    }
}

/// Absence against empty distinction: an encoded account lookup is absent
/// exactly when the source lookup found no account; an empty-sibling mirror
/// can only come from a present proof.
pub proof fn lemma_absence_is_never_empty_proof(
    value: Option<AccountStateWithProof>,
    r: Option<AccountStateWithProofSer>,
)
    requires
        value is Some <==> r is Some,
        value matches Some(v) ==> (r matches Some(s) && s@ == v@),
    ensures
        value is None ==> r is None,
        r matches Some(s) ==> (value matches Some(v) && s@.proof == v@.proof),
{
}

} // verus!
