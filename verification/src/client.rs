//! Credentials and the signing client.
//!
//! A `Client` is either a wallet with a child index or a standalone key
//! pair. Both sign the same way: serialize the transaction to its canonical
//! bytes, hash them, sign the hash. The credential only decides which key
//! signs, never the bytes — see `lemma_canonical_bytes_equivalence`.

use vstd::prelude::*;
use vstd::slice::slice_to_vec;
use vstd::string::StringSliceAdditionalSpecFns;
use vstd::string::StringExecFns;
use vstd::utf8::encode_utf8;

use crate::codec;
use crate::error::CoreError;
use crate::ledger::AccountAddress;
use crate::transaction::{
    encode_transfer_program, transfer_program_code, Program, ProgramV, RawTransaction,
    RawTransactionV, SignedTransaction, SubmitTransactionRequest, TransactionArgumentV,
};
use crate::trusted;
use crate::wallet::{child_in_policy, child_key_of, seed_of_mnemonic, valid_mnemonic_bytes, WalletLibrary};

verus! {

/// Default gas unit price when the caller gives none.
pub const GAS_UNIT_PRICE: u64 = 0;

/// Default gas maximum when the caller gives none.
pub const MAX_GAS_AMOUNT: u64 = 10_000;

/// Fixed window, in seconds, between the build instant and expiration.
pub const TX_EXPIRATION: u64 = 100;

/// The transaction the builder produces for the given inputs and expiration:
/// missing gas parameters are replaced by the policy defaults.
pub open spec fn built_raw_transaction(
    sender: Seq<u8>,
    sequence_number: u64,
    program: ProgramV,
    gas_unit_price: Option<u64>,
    max_gas_amount: Option<u64>,
    expiration_time: u64,
) -> RawTransactionV {
    RawTransactionV {
        sender,
        sequence_number,
        program,
        max_gas_amount: match max_gas_amount {
            Some(x) => x,
            None => MAX_GAS_AMOUNT,
        },
        gas_unit_price: match gas_unit_price {
            Some(x) => x,
            None => GAS_UNIT_PRICE,
        },
        expiration_time,
    }
}

/// The expiration a build at `now_seconds` gets: the fixed window past the
/// build instant, saturating at the largest representable time.
pub open spec fn expiration_time_for(now_seconds: u64) -> u64 {
    if now_seconds <= u64::MAX - TX_EXPIRATION {
        (now_seconds + TX_EXPIRATION) as u64
    } else {
        u64::MAX
    }
}

/// Assembles the canonical unsigned transaction. Defaults are substituted
/// exactly where the caller passes none, and the expiration is the fixed
/// window past `now_seconds`.
pub fn build_raw_transaction(
    sender: AccountAddress,
    sequence_number: u64,
    program: Program,
    gas_unit_price: Option<u64>,
    max_gas_amount: Option<u64>,
    now_seconds: u64,
) -> (r: RawTransaction)
    ensures
        r@ == built_raw_transaction(
            sender@,
            sequence_number,
            program@,
            gas_unit_price,
            max_gas_amount,
            expiration_time_for(now_seconds),
        ),
        gas_unit_price is None ==> r@.gas_unit_price == GAS_UNIT_PRICE,
        max_gas_amount is None ==> r@.max_gas_amount == MAX_GAS_AMOUNT,
        now_seconds <= u64::MAX - TX_EXPIRATION ==> r@.expiration_time == now_seconds
            + TX_EXPIRATION,
        sender.well_formed() && program.well_formed() ==> r.well_formed(),
{
    let expiration_time: u64 = if now_seconds <= u64::MAX - TX_EXPIRATION {
        now_seconds + TX_EXPIRATION
    } else {
        u64::MAX
    };
    let max_gas: u64 = match max_gas_amount {
        Some(x) => x,
        None => MAX_GAS_AMOUNT,
    };
    let gas_price: u64 = match gas_unit_price {
        Some(x) => x,
        None => GAS_UNIT_PRICE,
    };
    let r = RawTransaction::new(
        sender,
        sequence_number,
        program,
        max_gas,
        gas_price,
        expiration_time,
    );
    proof {
        assert(r@ =~= built_raw_transaction(
            r@.sender,
            sequence_number,
            r@.program,
            gas_unit_price,
            max_gas_amount,
            expiration_time_for(now_seconds),
        ));
    }
    r
}

/// A standalone asymmetric key pair: the stored public key is always the one
/// derived from the private key.
#[derive(Debug)]
pub struct KeyPair {
    pub private_key: Vec<u8>,
    pub public_key: Vec<u8>,
}

impl KeyPair {
    pub open spec fn well_formed(&self) -> bool {
        &&& self.private_key@.len() == 32
        &&& self.public_key@.len() == 32
        &&& self.public_key@ == trusted::ed25519_public_key_of(self.private_key@)
    }

    /// Derives and stores the public key for the given private key.
    pub fn new(private_key: Vec<u8>) -> (r: Self)
        requires
            private_key@.len() == 32,
        ensures
            r.private_key@ == private_key@,
            r.well_formed(),
    {
        let public_key = trusted::ed25519_public_key(private_key.as_slice());
        KeyPair { private_key, public_key }
    }

    pub fn private_key(&self) -> (r: &Vec<u8>)
        ensures
            r@ == self.private_key@,
    {
        &self.private_key
    }

    pub fn public_key(&self) -> (r: &Vec<u8>)
        ensures
            r@ == self.public_key@,
    {
        &self.public_key
    }
}

/// A credential as it arrives from the request form, before any decoding.
#[derive(Debug)]
pub enum RawClient {
    Wallet { mnemonic: String, child_number: u64 },
    KeyPair { private_key: String },
}

/// A resolved credential: a wallet with the child index to sign with, or a
/// standalone key pair.
#[derive(Debug)]
pub enum Client {
    Wallet(WalletLibrary, u64),
    KeyPair(KeyPair),
}

impl Client {
    pub open spec fn well_formed(&self) -> bool {
        match self {
            Client::Wallet(w, _) => w.well_formed(),
            Client::KeyPair(kp) => kp.well_formed(),
        }
    }

    /// The secret key this credential signs with.
    pub open spec fn signing_key(&self) -> Seq<u8> {
        match self {
            Client::Wallet(w, c) => child_key_of(w.seed@, *c),
            Client::KeyPair(kp) => kp.private_key@,
        }
    }

    /// Whether a signing attempt succeeds: a key pair always signs, a wallet
    /// only within its materialization policy.
    pub open spec fn sign_allowed(&self) -> bool {
        match self {
            Client::Wallet(w, c) => child_in_policy(w.key_leaf, *c),
            Client::KeyPair(_) => true,
        }
    }

    /// Signing never rotates a credential: the key pair stays as it is, a
    /// wallet keeps its seed and child index.
    pub open spec fn credential_preserved(pre: Self, post: Self) -> bool {
        match pre {
            Client::KeyPair(_) => post == pre,
            Client::Wallet(w, c) => match post {
                Client::Wallet(w2, c2) => c2 == c && w2.seed@ == w.seed@ && w2.well_formed(),
                _ => false,
            },
        }
    }

    /// Wraps an already-decoded private key.
    pub fn from_private_key(private_key: Vec<u8>) -> (r: Self)
        requires
            private_key@.len() == 32,
        ensures
            (r matches Client::KeyPair(kp) && kp.private_key@ == private_key@),
            r.well_formed(),
    {
        Client::KeyPair(KeyPair::new(private_key))
    }

    /// Reconstructs a wallet credential from a mnemonic, failing with a
    /// credential error exactly on a malformed mnemonic.
    pub fn from_mnemonic(mnemonic: &str, child: u64) -> (r: Result<Self, CoreError>)
        ensures
            match r {
                Ok(c) => {
                    &&& valid_mnemonic_bytes(mnemonic.spec_bytes())
                    &&& (c matches Client::Wallet(w, ch) && ch == child && w.key_leaf == 0
                        && w.seed@ == seed_of_mnemonic(mnemonic.spec_bytes()))
                    &&& c.well_formed()
                },
                Err(e) => !valid_mnemonic_bytes(mnemonic.spec_bytes()) && e is Credential,
            },
    {
        let wallet = WalletLibrary::new_from_mnemonic(mnemonic)?;
        Ok(Client::Wallet(wallet, child))
    }

    /// Resolves a raw form credential: a wallet from its mnemonic, or a key
    /// pair from a hex private key that is decoded byte-wise and must hold at
    /// least a full key. Every decode failure is a credential error.
    pub fn from_raw(raw: &RawClient) -> (r: Result<Self, CoreError>)
        ensures
            match raw {
                RawClient::Wallet { mnemonic, child_number } => match r {
                    Ok(c) => {
                        &&& valid_mnemonic_bytes(encode_utf8(mnemonic@))
                        &&& (c matches Client::Wallet(w, ch) && ch == child_number
                            && w.key_leaf == 0 && w.seed@ == seed_of_mnemonic(
                            encode_utf8(mnemonic@),
                        ))
                        &&& c.well_formed()
                    },
                    Err(e) => !valid_mnemonic_bytes(encode_utf8(mnemonic@)) && e is Credential,
                },
                RawClient::KeyPair { private_key } => match r {
                    Ok(c) => {
                        &&& trusted::valid_hex_bytes(encode_utf8(private_key@))
                        &&& trusted::hex_decoded(encode_utf8(private_key@)).len() >= 32
                        &&& (c matches Client::KeyPair(kp) && kp.private_key@ == trusted::hex_decoded(
                            encode_utf8(private_key@),
                        ).subrange(0, 32))
                        &&& c.well_formed()
                    },
                    Err(e) => {
                        &&& (!trusted::valid_hex_bytes(encode_utf8(private_key@))
                            || trusted::hex_decoded(encode_utf8(private_key@)).len() < 32)
                        &&& e is Credential
                    },
                },
            },
    {
        match raw {
            RawClient::Wallet { mnemonic, child_number } => {
                Client::from_mnemonic(mnemonic.as_str(), *child_number)
            },
            RawClient::KeyPair { private_key } => {
                let decoded = match trusted::hex_decode(private_key.as_str()) {
                    Some(bytes) => bytes,
                    None => {
                        return Err(
                            CoreError::Credential {
                                message: String::from_str("failed to decode private key"),
                            },
                        );
                    },
                };
                let key = match trusted::bincode_key_bytes(decoded.as_slice()) {
                    Some(key) => key,
                    None => {
                        return Err(
                            CoreError::Credential {
                                message: String::from_str("failed to deserialize private key"),
                            },
                        );
                    },
                };
                Ok(Client::from_private_key(key))
            },
        }
    }

    /// Resolves the optional form fields: an explicit private key wins, then
    /// a mnemonic with a child number; anything else is a credential error.
    pub fn from_form_fields(
        private_key: &Option<String>,
        mnemonic: &Option<String>,
        child_number: Option<u64>,
    ) -> (r: Result<Self, CoreError>)
        ensures
            (private_key matches Some(pk) ==> match r {
                Ok(c) => {
                    &&& trusted::valid_hex_bytes(encode_utf8(pk@))
                    &&& trusted::hex_decoded(encode_utf8(pk@)).len() >= 32
                    &&& (c matches Client::KeyPair(kp) && kp.private_key@ == trusted::hex_decoded(
                        encode_utf8(pk@),
                    ).subrange(0, 32))
                    &&& c.well_formed()
                },
                Err(e) => {
                    &&& (!trusted::valid_hex_bytes(encode_utf8(pk@)) || trusted::hex_decoded(
                        encode_utf8(pk@),
                    ).len() < 32)
                    &&& e is Credential
                },
            }),
            (private_key is None ==> (mnemonic matches Some(m) ==> (child_number matches Some(ch)
                ==> match r {
                Ok(c) => {
                    &&& valid_mnemonic_bytes(encode_utf8(m@))
                    &&& (c matches Client::Wallet(w, c2) && c2 == ch && w.key_leaf == 0
                        && w.seed@ == seed_of_mnemonic(encode_utf8(m@)))
                    &&& c.well_formed()
                },
                Err(e) => !valid_mnemonic_bytes(encode_utf8(m@)) && e is Credential,
            }))),
            (private_key is None && (mnemonic is None || child_number is None)) ==> (
            r matches Err(e) && e is Credential),
    {
        match private_key {
            Some(pk) => {
                let raw = RawClient::KeyPair { private_key: pk.clone() };
                Client::from_raw(&raw)
            },
            None => {
                match (mnemonic, child_number) {
                    (Some(m), Some(ch)) => Client::from_mnemonic(m.as_str(), ch),
                    _ => Err(
                        CoreError::Credential {
                            message: String::from_str("no credential was supplied"),
                        },
                    ),
                }
            },
        }
    }

    /// Signs a transaction: canonical bytes, then the content hash, then the
    /// signature with this credential's key. Both credential kinds produce
    /// bit-identical canonical bytes; only key material differs. A key pair
    /// always succeeds; a wallet fails with a derivation error exactly when
    /// the child index is out of policy.
    pub fn sign_txn(&mut self, tx: RawTransaction) -> (r: Result<SignedTransaction, CoreError>)
        requires
            old(self).well_formed(),
        ensures
            final(self).well_formed(),
            Client::credential_preserved(*old(self), *final(self)),
            r is Ok <==> old(self).sign_allowed(),
            match r {
                Ok(st) => {
                    &&& st.raw_txn@ == tx@
                    &&& st.raw_txn_bytes@ == codec::canonical_raw_transaction_bytes(tx@)
                    &&& st.public_key@ == trusted::ed25519_public_key_of(old(self).signing_key())
                    &&& st.signature@ == trusted::ed25519_signature_of(
                        old(self).signing_key(),
                        trusted::sha3_256_of(st.raw_txn_bytes@),
                    )
                    &&& st.well_signed()
                    &&& (tx.well_formed() ==> st.well_formed())
                },
                Err(e) => *final(self) == *old(self) && e is Derivation,
            },
    {
        match self {
            Client::KeyPair(pair) => {
                let raw_txn_bytes = codec::encode_raw_transaction(&tx);
                let digest = trusted::sha3_256(raw_txn_bytes.as_slice());
                let signature = trusted::ed25519_sign(
                    pair.private_key.as_slice(),
                    digest.as_slice(),
                );
                let public_key = slice_to_vec(pair.public_key.as_slice());
                Ok(
                    SignedTransaction::craft_signed_transaction_for_client(
                        tx,
                        raw_txn_bytes,
                        public_key,
                        signature,
                    ),
                )
            },
            Client::Wallet(wallet, child) => wallet.sign_txn_with_child_num(tx, *child),
        }
    }

    /// Builds the unsigned transaction for the given instant, signs it, and
    /// wraps it for submission.
    pub fn create_submit_transaction_req_at(
        &mut self,
        sender_address: AccountAddress,
        sender_sequence_number: u64,
        program: Program,
        gas_unit_price: Option<u64>,
        max_gas_amount: Option<u64>,
        now_seconds: u64,
    ) -> (r: Result<SubmitTransactionRequest, CoreError>)
        requires
            old(self).well_formed(),
            sender_address.well_formed(),
            program.well_formed(),
        ensures
            final(self).well_formed(),
            Client::credential_preserved(*old(self), *final(self)),
            r is Ok <==> old(self).sign_allowed(),
            match r {
                Ok(req) => {
                    &&& req.signed_txn.raw_txn@ == built_raw_transaction(
                        sender_address@,
                        sender_sequence_number,
                        program@,
                        gas_unit_price,
                        max_gas_amount,
                        expiration_time_for(now_seconds),
                    )
                    &&& req.signed_txn.raw_txn_bytes@ == codec::canonical_raw_transaction_bytes(
                        req.signed_txn.raw_txn@,
                    )
                    &&& req.signed_txn.public_key@ == trusted::ed25519_public_key_of(
                        old(self).signing_key(),
                    )
                    &&& req.signed_txn.well_formed()
                    &&& req.signed_txn.well_signed()
                },
                Err(e) => e is Derivation,
            },
    {
        let raw_txn = build_raw_transaction(
            sender_address,
            sender_sequence_number,
            program,
            gas_unit_price,
            max_gas_amount,
            now_seconds,
        );
        let signed_txn = self.sign_txn(raw_txn)?;
        Ok(SubmitTransactionRequest::new(signed_txn))
    }

    /// Crafts a submission request at the current wall-clock instant: as
    /// `create_submit_transaction_req_at`, except that no caller can pin the
    /// expiration down.
    pub fn create_submit_transaction_req(
        &mut self,
        sender_address: AccountAddress,
        sender_sequence_number: u64,
        program: Program,
        gas_unit_price: Option<u64>,
        max_gas_amount: Option<u64>,
    ) -> (r: Result<SubmitTransactionRequest, CoreError>)
        requires
            old(self).well_formed(),
            sender_address.well_formed(),
            program.well_formed(),
        ensures
            final(self).well_formed(),
            Client::credential_preserved(*old(self), *final(self)),
            r is Ok <==> old(self).sign_allowed(),
            match r {
                Ok(req) => {
                    &&& req.signed_txn.raw_txn@.sender == sender_address@
                    &&& req.signed_txn.raw_txn@.sequence_number == sender_sequence_number
                    &&& req.signed_txn.raw_txn@.program == program@
                    &&& req.signed_txn.raw_txn@.max_gas_amount == (match max_gas_amount {
                        Some(x) => x,
                        None => MAX_GAS_AMOUNT,
                    })
                    &&& req.signed_txn.raw_txn@.gas_unit_price == (match gas_unit_price {
                        Some(x) => x,
                        None => GAS_UNIT_PRICE,
                    })
                    &&& req.signed_txn.raw_txn_bytes@ == codec::canonical_raw_transaction_bytes(
                        req.signed_txn.raw_txn@,
                    )
                    &&& req.signed_txn.public_key@ == trusted::ed25519_public_key_of(
                        old(self).signing_key(),
                    )
                    &&& req.signed_txn.well_formed()
                    &&& req.signed_txn.well_signed()
                },
                Err(e) => e is Derivation,
            },
    {
        let now = trusted::current_unix_seconds();
        let now_seconds: u64 = if now < 0 {
            0
        } else {
            now as u64
        };
        self.create_submit_transaction_req_at(
            sender_address,
            sender_sequence_number,
            program,
            gas_unit_price,
            max_gas_amount,
            now_seconds,
        )
    }

    /// Prepares a coin transfer: the transfer program for the receiver and
    /// amount, built and signed at the current instant against the given
    /// sender sequence number. Returns the request to submit together with
    /// that sequence number.
    pub fn transfer_coins(
        &mut self,
        sender: AccountAddress,
        receiver: &AccountAddress,
        num_coins: u64,
        gas_unit_price: Option<u64>,
        max_gas_amount: Option<u64>,
        sequence_number: u64,
    ) -> (r: Result<(SubmitTransactionRequest, u64), CoreError>)
        requires
            old(self).well_formed(),
            sender.well_formed(),
            receiver.well_formed(),
        ensures
            final(self).well_formed(),
            Client::credential_preserved(*old(self), *final(self)),
            r is Ok <==> old(self).sign_allowed(),
            match r {
                Ok((req, seq)) => {
                    &&& seq == sequence_number
                    &&& req.signed_txn.raw_txn@.sender == sender@
                    &&& req.signed_txn.raw_txn@.sequence_number == sequence_number
                    &&& req.signed_txn.raw_txn@.program.code == transfer_program_code()
                    &&& req.signed_txn.raw_txn@.program.args.len() == 2
                    &&& req.signed_txn.raw_txn@.program.args[0] == TransactionArgumentV::Address(
                        receiver@,
                    )
                    &&& req.signed_txn.raw_txn@.program.args[1] == TransactionArgumentV::U64(
                        num_coins,
                    )
                    &&& req.signed_txn.raw_txn@.max_gas_amount == (match max_gas_amount {
                        Some(x) => x,
                        None => MAX_GAS_AMOUNT,
                    })
                    &&& req.signed_txn.raw_txn@.gas_unit_price == (match gas_unit_price {
                        Some(x) => x,
                        None => GAS_UNIT_PRICE,
                    })
                    &&& req.signed_txn.well_formed()
                    &&& req.signed_txn.well_signed()
                },
                Err(e) => e is Derivation,
            },
    {
        let program = encode_transfer_program(receiver, num_coins);
        let req = self.create_submit_transaction_req(
            sender,
            sequence_number,
            program,
            gas_unit_price,
            max_gas_amount,
        )?;
        Ok((req, sequence_number))
    }
}

/// Canonical-bytes equivalence: two well-formed signed artifacts over the
/// same raw transaction carry bit-identical raw bytes, whichever credential
/// produced each; only key and signature material may differ.
pub proof fn lemma_canonical_bytes_equivalence(st1: SignedTransaction, st2: SignedTransaction)
    requires
        st1.well_formed(),
        st2.well_formed(),
        st1.raw_txn@ == st2.raw_txn@,
    ensures
        st1.raw_txn_bytes@ == st2.raw_txn_bytes@,
{
}

/// Determinism modulo time: builds with identical inputs agree on every
/// field except the expiration, and at an instant inside the representable
/// range the expiration is exactly the fixed window past that instant.
pub proof fn lemma_build_deterministic(
    sender: Seq<u8>,
    sequence_number: u64,
    program: ProgramV,
    gas_unit_price: Option<u64>,
    max_gas_amount: Option<u64>,
    t1: u64,
    t2: u64,
)
    ensures
        ({
            let a = built_raw_transaction(
                sender,
                sequence_number,
                program,
                gas_unit_price,
                max_gas_amount,
                expiration_time_for(t1),
            );
            let b = built_raw_transaction(
                sender,
                sequence_number,
                program,
                gas_unit_price,
                max_gas_amount,
                expiration_time_for(t2),
            );
            &&& a.sender == b.sender
            &&& a.sequence_number == b.sequence_number
            &&& a.program == b.program
            &&& a.max_gas_amount == b.max_gas_amount
            &&& a.gas_unit_price == b.gas_unit_price
            &&& (t1 == t2 ==> a == b)
        }),
        t1 <= u64::MAX - TX_EXPIRATION ==> built_raw_transaction(
            sender,
            sequence_number,
            program,
            gas_unit_price,
            max_gas_amount,
            expiration_time_for(t1),
        ).expiration_time == t1 + TX_EXPIRATION,
{
}

} // verus!
