//! Error taxonomy of the gateway core.
//!
//! Every failure is scoped to a single request and is surfaced to the caller
//! as a structured message, never substituted with a default value.

use vstd::prelude::*;

verus! {

/// A failure of the signing core.
///
/// `Credential` covers a malformed private key, a bad mnemonic or a decode
/// failure; `Derivation` a wallet address/key derivation failure;
/// `Serialization` a failure to produce canonical transaction bytes; and
/// `Signature` an unexpected failure of the signing primitive.
#[derive(Debug, Clone)]
pub enum CoreError {
    Credential { message: String },
    Derivation { message: String },
    Serialization { message: String },
    Signature { message: String },
}

impl CoreError {
    /// The human-readable message carried by this error.
    pub fn message(&self) -> (r: String)
        ensures
            r@ == self.spec_message(),
    {
        match self {
            CoreError::Credential { message } => message.clone(),
            CoreError::Derivation { message } => message.clone(),
            CoreError::Serialization { message } => message.clone(),
            CoreError::Signature { message } => message.clone(),
        }
    }

    /// The message of this error, whichever class it belongs to.
    pub open spec fn spec_message(&self) -> Seq<char> {
        match self {
            CoreError::Credential { message } => message@,
            CoreError::Derivation { message } => message@,
            CoreError::Serialization { message } => message@,
            CoreError::Signature { message } => message@,
        }
    }
}

/// The JSON body handed back to the caller when a request fails.
#[derive(Debug, Clone)]
pub struct ErrResponse {
    pub error: String,
}

/// A request-scoped failure as emitted at the gateway boundary.
#[derive(Debug, Clone)]
pub struct ApiError {
    pub response: ErrResponse,
}

impl ApiError {
    pub fn new(error: String) -> (r: Self)
        ensures
            r.response.error@ == error@,
    {
        ApiError { response: ErrResponse { error } }
    }

    /// Wraps a failure of the core, keeping its message.
    pub fn from_core(err: &CoreError) -> (r: Self)
        ensures
            r.response.error@ == err.spec_message(),
    {
        ApiError::new(err.message())
    }
}

} // verus!
