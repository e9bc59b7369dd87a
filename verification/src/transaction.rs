//! Unsigned and signed transactions.
//!
//! A `RawTransaction` is a pure value: sender, sequence number, program, gas
//! parameters and an absolute expiration time. A `SignedTransaction` carries
//! the exact canonical bytes that were hashed and signed, the sender public
//! key and the signature.

use vstd::prelude::*;

use crate::codec;
use crate::ledger::AccountAddress;
use crate::trusted;

verus! {

/// The abstract value of a transaction argument.
#[verifier::ext_equal]
pub enum TransactionArgumentV {
    U64(u64),
    Address(Seq<u8>),
    ByteArray(Seq<u8>),
}

/// One argument of a transaction program.
#[derive(Debug, Clone)]
pub enum TransactionArgument {
    U64(u64),
    Address(AccountAddress),
    ByteArray(Vec<u8>),
}

impl View for TransactionArgument {
    type V = TransactionArgumentV;

    open spec fn view(&self) -> TransactionArgumentV {
        match self {
            TransactionArgument::U64(x) => TransactionArgumentV::U64(*x),
            TransactionArgument::Address(a) => TransactionArgumentV::Address(a@),
            TransactionArgument::ByteArray(b) => TransactionArgumentV::ByteArray(b@),
        }
    }
}

impl TransactionArgument {
    pub open spec fn well_formed(&self) -> bool {
        match self {
            TransactionArgument::Address(a) => a.well_formed(),
            _ => true,
        }
    }
}

/// The abstract value of a program.
#[verifier::ext_equal]
pub struct ProgramV {
    pub code: Seq<u8>,
    pub args: Seq<TransactionArgumentV>,
}

/// An executable payload plus its arguments; opaque to this layer and
/// validated downstream by the ledger.
#[derive(Debug, Clone)]
pub struct Program {
    pub code: Vec<u8>,
    pub args: Vec<TransactionArgument>,
}

impl View for Program {
    type V = ProgramV;

    open spec fn view(&self) -> ProgramV {
        ProgramV { code: self.code@, args: Seq::new(self.args@.len(), |i: int| self.args@[i]@) }
    }
}

impl Program {
    pub open spec fn well_formed(&self) -> bool {
        forall|i: int| 0 <= i < self.args@.len() ==> (#[trigger] self.args@[i]).well_formed()
    }

    pub fn new(code: Vec<u8>, args: Vec<TransactionArgument>) -> (r: Self)
        ensures
            r@.code == code@,
            r@.args.len() == args@.len(),
            forall|i: int| 0 <= i < args@.len() ==> r@.args[i] == args@[i]@,
            r.args@ == args@,
    {
        Program { code, args }
    }
}

/// The code marker of the peer-to-peer transfer program.
pub open spec fn transfer_program_code() -> Seq<u8> {
    seq![116u8, 114u8, 97u8, 110u8, 115u8, 102u8, 101u8, 114u8]
}

/// Builds the transfer program: the transfer code marker applied to the
/// receiver address and the number of coins, in that order.
pub fn encode_transfer_program(receiver: &AccountAddress, num_coins: u64) -> (r: Program)
    ensures
        r@.code == transfer_program_code(),
        r@.args.len() == 2,
        r@.args[0] == TransactionArgumentV::Address(receiver@),
        r@.args[1] == TransactionArgumentV::U64(num_coins),
        receiver.well_formed() ==> r.well_formed(),
{
    let code: Vec<u8> = vec![116u8, 114u8, 97u8, 110u8, 115u8, 102u8, 101u8, 114u8];
    proof {
        assert(code@ =~= transfer_program_code());
    }
    let args: Vec<TransactionArgument> = vec![
        TransactionArgument::Address(receiver.clone()),
        TransactionArgument::U64(num_coins),
    ];
    let r = Program::new(code, args);
    r
}

/// The abstract value of an unsigned transaction.
#[verifier::ext_equal]
pub struct RawTransactionV {
    pub sender: Seq<u8>,
    pub sequence_number: u64,
    pub program: ProgramV,
    pub max_gas_amount: u64,
    pub gas_unit_price: u64,
    pub expiration_time: u64,
}

/// An unsigned transaction. The expiration time is an absolute Unix
/// timestamp fixed at construction; the value has no identity beyond its
/// canonical bytes.
#[derive(Debug, Clone)]
pub struct RawTransaction {
    pub sender: AccountAddress,
    pub sequence_number: u64,
    pub program: Program,
    pub max_gas_amount: u64,
    pub gas_unit_price: u64,
    pub expiration_time: u64,
}

impl View for RawTransaction {
    type V = RawTransactionV;

    open spec fn view(&self) -> RawTransactionV {
        RawTransactionV {
            sender: self.sender@,
            sequence_number: self.sequence_number,
            program: self.program@,
            max_gas_amount: self.max_gas_amount,
            gas_unit_price: self.gas_unit_price,
            expiration_time: self.expiration_time,
        }
    }
}

impl RawTransaction {
    pub open spec fn well_formed(&self) -> bool {
        &&& self.sender.well_formed()
        &&& self.program.well_formed()
    }

    pub fn new(
        sender: AccountAddress,
        sequence_number: u64,
        program: Program,
        max_gas_amount: u64,
        gas_unit_price: u64,
        expiration_time: u64,
    ) -> (r: Self)
        ensures
            r@.sender == sender@,
            r@.sequence_number == sequence_number,
            r@.program == program@,
            r@.max_gas_amount == max_gas_amount,
            r@.gas_unit_price == gas_unit_price,
            r@.expiration_time == expiration_time,
            sender.well_formed() && program.well_formed() ==> r.well_formed(),
    {
        RawTransaction {
            sender,
            sequence_number,
            program,
            max_gas_amount,
            gas_unit_price,
            expiration_time,
        }
    }
}

/// A self-contained signed transaction artifact: the canonical bytes that
/// were hashed, the sender public key and the signature over the hash.
#[derive(Debug, Clone)]
pub struct SignedTransaction {
    pub raw_txn: RawTransaction,
    pub raw_txn_bytes: Vec<u8>,
    pub public_key: Vec<u8>,
    pub signature: Vec<u8>,
}

impl SignedTransaction {
    /// The carried bytes are exactly the canonical serialization of the
    /// carried transaction, and key and signature have their native sizes.
    pub open spec fn well_formed(&self) -> bool {
        &&& self.raw_txn.well_formed()
        &&& self.raw_txn_bytes@ == codec::canonical_raw_transaction_bytes(self.raw_txn@)
        &&& self.public_key@.len() == 32
        &&& self.signature@.len() == 64
    }

    /// The signature checks against the embedded public key and the hash of
    /// the embedded canonical bytes.
    pub open spec fn well_signed(&self) -> bool {
        trusted::ed25519_verifies(
            self.public_key@,
            trusted::sha3_256_of(self.raw_txn_bytes@),
            self.signature@,
        )
    }

    /// Assembles the artifact from parts the signer has already produced.
    pub fn craft_signed_transaction_for_client(
        raw_txn: RawTransaction,
        raw_txn_bytes: Vec<u8>,
        public_key: Vec<u8>,
        signature: Vec<u8>,
    ) -> (r: Self)
        ensures
            r.raw_txn == raw_txn,
            r.raw_txn_bytes == raw_txn_bytes,
            r.public_key == public_key,
            r.signature == signature,
    {
        SignedTransaction { raw_txn, raw_txn_bytes, public_key, signature }
    }

    /// Checks the embedded signature against the embedded public key and the
    /// content hash of the embedded canonical bytes.
    pub fn verify_signature(&self) -> (r: bool)
        ensures
            r == self.well_signed(),
    {
        let digest = trusted::sha3_256(self.raw_txn_bytes.as_slice());
        trusted::ed25519_verify(
            self.public_key.as_slice(),
            digest.as_slice(),
            self.signature.as_slice(),
        )
    }
}

/// The submission request handed to the ledger's admission control: it wraps
/// exactly one signed transaction.
#[derive(Debug, Clone)]
pub struct SubmitTransactionRequest {
    pub signed_txn: SignedTransaction,
}

impl SubmitTransactionRequest {
    pub fn new(signed_txn: SignedTransaction) -> (r: Self)
        ensures
            r.signed_txn == signed_txn,
    {
        SubmitTransactionRequest { signed_txn }
    }
}

} // verus!
