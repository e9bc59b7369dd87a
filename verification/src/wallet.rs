//! A hierarchical-deterministic wallet.
//!
//! A wallet is reconstructed from a mnemonic: the seed is the content hash of
//! the mnemonic bytes, and the key at a child index is the content hash of
//! the seed followed by the index. Addresses are materialized sequentially:
//! asking again for an index that is already known returns the same address
//! and changes nothing, while an index beyond the next free one is out of
//! policy and fails with a derivation error.

use vstd::prelude::*;
use vstd::slice::slice_to_vec;
use vstd::string::StringSliceAdditionalSpecFns;
use vstd::string::StrSliceExecFns;
use vstd::string::StringExecFns;

use crate::codec;
use crate::error::CoreError;
use crate::ledger::AccountAddress;
use crate::transaction::{RawTransaction, SignedTransaction};
use crate::trusted;

verus! {

/// Whether `b` may appear in a mnemonic: a lowercase ASCII letter, a digit,
/// or a space.
pub open spec fn is_mnemonic_byte(b: u8) -> bool {
    (97 <= b && b <= 122) || (48 <= b && b <= 57) || b == 32
}

/// A well-formed mnemonic: non-empty words of lowercase letters and digits,
/// separated by single spaces.
pub open spec fn valid_mnemonic_bytes(bs: Seq<u8>) -> bool {
    &&& bs.len() > 0
    &&& (forall|i: int| 0 <= i < bs.len() ==> is_mnemonic_byte(#[trigger] bs[i]))
    &&& bs[0] != 32
    &&& bs[bs.len() - 1] != 32
    &&& (forall|i: int| 0 <= i < bs.len() - 1 ==> !(#[trigger] bs[i] == 32 && bs[i + 1] == 32))
}

/// The wallet seed a mnemonic determines.
pub open spec fn seed_of_mnemonic(mnemonic: Seq<u8>) -> Seq<u8> {
    trusted::sha3_256_of(mnemonic)
}

/// The private key a wallet seed determines at a child index.
pub open spec fn child_key_of(seed: Seq<u8>, child: u64) -> Seq<u8> {
    trusted::sha3_256_of(seed + vstd::bytes::spec_u64_to_le_bytes(child))
}

/// The account address derived from a public key.
pub open spec fn address_of_public_key(public_key: Seq<u8>) -> Seq<u8> {
    trusted::sha3_256_of(public_key)
}

/// The account address a wallet seed determines at a child index.
pub open spec fn address_of_child(seed: Seq<u8>, child: u64) -> Seq<u8> {
    address_of_public_key(trusted::ed25519_public_key_of(child_key_of(seed, child)))
}

/// Whether materializing `child` is within the wallet's sequential policy.
pub open spec fn child_in_policy(key_leaf: u64, child: u64) -> bool {
    child < key_leaf || (child == key_leaf && child < u64::MAX)
}

fn all_mnemonic_bytes(bytes: &Vec<u8>) -> (r: bool)
    ensures
        r == (forall|i: int| 0 <= i < bytes@.len() ==> is_mnemonic_byte(#[trigger] bytes@[i])),
{
    let n = bytes.len();
    let mut i: usize = 0;
    while i < n
        invariant
            n == bytes@.len(),
            i <= n,
            forall|j: int| 0 <= j < i ==> is_mnemonic_byte(#[trigger] bytes@[j]),
        decreases n - i,
    {
        let b = bytes[i];
        if !((97 <= b && b <= 122) || (48 <= b && b <= 57) || b == 32) {
            assert(!is_mnemonic_byte(bytes@[i as int]));
            return false;
        }
        i = i + 1;
    }
    true
}

fn no_double_space(bytes: &Vec<u8>) -> (r: bool)
    ensures
        r == (forall|i: int|
            0 <= i < bytes@.len() - 1 ==> !(#[trigger] bytes@[i] == 32 && bytes@[i + 1] == 32)),
{
    let n = bytes.len();
    if n == 0 {
        return true;
    }
    let mut i: usize = 0;
    while i < n - 1
        invariant
            n == bytes@.len(),
            n >= 1,
            i <= n - 1,
            forall|j: int| 0 <= j < i ==> !(#[trigger] bytes@[j] == 32 && bytes@[j + 1] == 32),
        decreases n - 1 - i,
    {
        if bytes[i] == 32 && bytes[i + 1] == 32 {
            return false;
        }
        i = i + 1;
    }
    true
}

/// Whether a mnemonic string is well formed.
pub fn mnemonic_is_valid(mnemonic: &str) -> (r: bool)
    ensures
        r == valid_mnemonic_bytes(mnemonic.spec_bytes()),
{
    let bytes = mnemonic.as_bytes_vec();
    let n = bytes.len();
    if n == 0 {
        return false;
    }
    if bytes[0] == 32 || bytes[n - 1] == 32 {
        return false;
    }
    if !all_mnemonic_bytes(&bytes) {
        return false;
    }
    no_double_space(&bytes)
}

/// A wallet: the seed reconstructed from a mnemonic, and the next child
/// index that has not been materialized yet. Children below `key_leaf` are
/// the materialized ones.
#[derive(Debug)]
pub struct WalletLibrary {
    pub seed: Vec<u8>,
    pub key_leaf: u64,
}

impl WalletLibrary {
    pub open spec fn well_formed(&self) -> bool {
        self.seed@.len() == 32
    }

    /// Reconstructs the wallet a mnemonic determines; no address is
    /// materialized yet. Fails with a credential error exactly on a
    /// malformed mnemonic.
    pub fn new_from_mnemonic(mnemonic: &str) -> (r: Result<Self, CoreError>)
        ensures
            match r {
                Ok(w) => {
                    &&& valid_mnemonic_bytes(mnemonic.spec_bytes())
                    &&& w.seed@ == seed_of_mnemonic(mnemonic.spec_bytes())
                    &&& w.key_leaf == 0
                    &&& w.well_formed()
                },
                Err(e) => !valid_mnemonic_bytes(mnemonic.spec_bytes()) && e is Credential,
            },
    {
        if !mnemonic_is_valid(mnemonic) {
            return Err(
                CoreError::Credential { message: String::from_str("malformed mnemonic") },
            );
        }
        let bytes = mnemonic.as_bytes_vec();
        let seed = trusted::sha3_256(bytes.as_slice());
        Ok(WalletLibrary { seed, key_leaf: 0 })
    }

    /// The private key at a child index: derivation is deterministic, so
    /// asking twice gives the same key.
    pub fn get_child_private_key(&self, child: u64) -> (r: Vec<u8>)
        requires
            self.well_formed(),
        ensures
            r@ == child_key_of(self.seed@, child),
            r@.len() == 32,
    {
        let mut buf = slice_to_vec(self.seed.as_slice());
        codec::append_u64_le(&mut buf, child);
        proof {
            assert(buf@ =~= self.seed@ + vstd::bytes::spec_u64_to_le_bytes(child));
        }
        trusted::sha3_256(buf.as_slice())
    }

    /// The address at a child index, independent of materialization state.
    pub fn child_address(&self, child: u64) -> (r: AccountAddress)
        requires
            self.well_formed(),
        ensures
            r@ == address_of_child(self.seed@, child),
            r.well_formed(),
    {
        let key = self.get_child_private_key(child);
        let public_key = trusted::ed25519_public_key(key.as_slice());
        let address_bytes = trusted::sha3_256(public_key.as_slice());
        AccountAddress::new(address_bytes)
    }

    /// Materializes the address at `child`. Materializing an index that is
    /// already known returns its address and changes nothing; the next free
    /// index extends the wallet by one; anything beyond is out of policy and
    /// fails with a derivation error, leaving the wallet unchanged.
    pub fn new_address_at_child_number(&mut self, child: u64) -> (r: Result<
        AccountAddress,
        CoreError,
    >)
        requires
            old(self).well_formed(),
        ensures
            final(self).seed@ == old(self).seed@,
            final(self).well_formed(),
            match r {
                Ok(addr) => {
                    &&& child_in_policy(old(self).key_leaf, child)
                    &&& addr@ == address_of_child(old(self).seed@, child)
                    &&& addr.well_formed()
                    &&& final(self).key_leaf == if child == old(self).key_leaf {
                        child + 1
                    } else {
                        old(self).key_leaf as int
                    }
                },
                Err(e) => {
                    &&& !child_in_policy(old(self).key_leaf, child)
                    &&& *final(self) == *old(self)
                    &&& e is Derivation
                },
            },
    {
        if child > self.key_leaf || child == u64::MAX {
            return Err(
                CoreError::Derivation {
                    message: String::from_str("child index out of policy range"),
                },
            );
        }
        if child == self.key_leaf {
            self.key_leaf = self.key_leaf + 1;
        }
        Ok(self.child_address(child))
    }

    /// Materializes the address at `child`, then serializes, hashes and
    /// signs the transaction with the key at that child.
    pub fn sign_txn_with_child_num(&mut self, tx: RawTransaction, child: u64) -> (r: Result<
        SignedTransaction,
        CoreError,
    >)
        requires
            old(self).well_formed(),
        ensures
            final(self).seed@ == old(self).seed@,
            final(self).well_formed(),
            match r {
                Ok(st) => {
                    &&& child_in_policy(old(self).key_leaf, child)
                    &&& st.raw_txn@ == tx@
                    &&& st.raw_txn_bytes@ == codec::canonical_raw_transaction_bytes(tx@)
                    &&& st.public_key@ == trusted::ed25519_public_key_of(
                        child_key_of(old(self).seed@, child),
                    )
                    &&& st.signature@ == trusted::ed25519_signature_of(
                        child_key_of(old(self).seed@, child),
                        trusted::sha3_256_of(st.raw_txn_bytes@),
                    )
                    &&& st.well_signed()
                    &&& (tx.well_formed() ==> st.well_formed())
                },
                Err(e) => {
                    &&& !child_in_policy(old(self).key_leaf, child)
                    &&& *final(self) == *old(self)
                    &&& e is Derivation
                },
            },
    {
        match self.new_address_at_child_number(child) {
            Ok(_) => {},
            Err(e) => {
                return Err(e);
            },
        }
        let key = self.get_child_private_key(child);
        let raw_txn_bytes = codec::encode_raw_transaction(&tx);
        let digest = trusted::sha3_256(raw_txn_bytes.as_slice());
        let signature = trusted::ed25519_sign(key.as_slice(), digest.as_slice());
        let public_key = trusted::ed25519_public_key(key.as_slice());
        Ok(
            SignedTransaction::craft_signed_transaction_for_client(
                tx,
                raw_txn_bytes,
                public_key,
                signature,
            ),
        )
    }
}

} // verus!
