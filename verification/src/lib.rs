//! A gateway core that lets JSON callers originate signed ledger transactions
//! and read back ledger state with cryptographic proofs.
//!
//! The two responsibilities of the core are credential-polymorphic transaction
//! signing (build a canonical unsigned transaction, hash it, sign it) and
//! proof serialization (map each ledger proof structure to a stable,
//! lossless mirror shape fit for a JSON consumer).

pub mod client;
pub mod codec;
pub mod error;
pub mod handlers;
pub mod ledger;
pub mod proofs;
pub mod serializers;
pub mod state;
pub mod transaction;
pub mod trusted;
pub mod utils;
pub mod wallet;
