//! Conversions between wire text and ledger values.

use vstd::prelude::*;
use vstd::string::StringSliceAdditionalSpecFns;
use vstd::string::StringExecFns;

use crate::codec;
use crate::error::ApiError;
use crate::ledger::{AccountAddress, AccountResource, AccountStateBlob, ADDRESS_LENGTH};
use crate::trusted;

verus! {

/// Converts the hex representation of an address into binary. Accepts
/// exactly the even-length hex strings that spell an address-length byte
/// string.
pub fn address_from_strings(data: &str) -> (r: Result<AccountAddress, ApiError>)
    ensures
        match r {
            Ok(a) => {
                &&& trusted::valid_hex_bytes(data.spec_bytes())
                &&& trusted::hex_decoded(data.spec_bytes()).len() == ADDRESS_LENGTH
                &&& a@ == trusted::hex_decoded(data.spec_bytes())
                &&& a.well_formed()
            },
            Err(_) => {
                ||| !trusted::valid_hex_bytes(data.spec_bytes())
                ||| trusted::hex_decoded(data.spec_bytes()).len() != ADDRESS_LENGTH
            },
        },
{
    let bytes = match trusted::hex_decode(data) {
        Some(b) => b,
        None => {
            return Err(ApiError::new(String::from_str("the address is not valid hex")));
        },
    };
    match AccountAddress::from_bytes(bytes) {
        Some(a) => Ok(a),
        None => Err(ApiError::new(String::from_str("the address has the wrong length"))),
    }
}

/// The account resource stored in a blob, or the default resource when the
/// ledger has no state for the account. A present blob that does not parse
/// is an error, never silently replaced by the default.
pub fn get_account_resource_or_default(account_state: &Option<AccountStateBlob>) -> (r: Result<
    AccountResource,
    ApiError,
>)
    ensures
        match r {
            Ok(res) => match account_state {
                Some(blob) => codec::decoded_account_resource(blob@) == Some(res@),
                None => res@ == crate::ledger::default_account_resource(),
            },
            Err(_) => account_state matches Some(blob) && codec::decoded_account_resource(blob@)
                is None,
        },
{
    match account_state {
        Some(blob) => {
            match codec::decode_account_resource(blob.as_bytes().as_slice()) {
                Some(res) => Ok(res),
                None => Err(
                    ApiError::new(String::from_str("the account state blob does not parse")),
                ),
            }
        },
        None => Ok(AccountResource::default()),
    }
}

} // verus!
