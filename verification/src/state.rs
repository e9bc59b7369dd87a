//! Gateway configuration and the faucet client's decisions.
//!
//! The network calls themselves live outside the core; what is verified here
//! is everything the gateway decides around them: the validator quorum rule,
//! the faucet address fallback, the exact request URL, and how a faucet
//! response is judged.

use vstd::prelude::*;
use vstd::string::StringExecFns;

use crate::error::ApiError;
use crate::ledger::AccountAddress;
use crate::trusted;

verus! {

/// The client of the faucet service that mints coins on the test network.
#[derive(Debug)]
pub struct FaucetClient {
    pub faucet_url: String,
}

/// The decimal digit character for a value below ten.
pub open spec fn dec_digit_char(d: u64) -> char
    recommends
        d < 10,
{
    if d == 0 { '0' } else if d == 1 { '1' } else if d == 2 { '2' } else if d == 3 { '3' }
    else if d == 4 { '4' } else if d == 5 { '5' } else if d == 6 { '6' } else if d == 7 { '7' }
    else if d == 8 { '8' } else { '9' }
}

/// The decimal spelling of `x`, most significant digit first, no leading
/// zeros except for zero itself.
pub open spec fn decimal_digits(x: u64) -> Seq<char>
    decreases x,
{
    if x < 10 {
        seq![dec_digit_char(x)]
    } else {
        decimal_digits(x / 10) + seq![dec_digit_char(x % 10)]
    }
}

fn digit_str(d: u64) -> (r: &'static str)
    requires
        d < 10,
    ensures
        r@ == seq![dec_digit_char(d)],
{
    if d == 0 {
        proof { reveal_strlit("0"); }
        assert("0"@ =~= seq![dec_digit_char(d)]);
        "0"
    } else if d == 1 {
        proof { reveal_strlit("1"); }
        assert("1"@ =~= seq![dec_digit_char(d)]);
        "1"
    } else if d == 2 {
        proof { reveal_strlit("2"); }
        assert("2"@ =~= seq![dec_digit_char(d)]);
        "2"
    } else if d == 3 {
        proof { reveal_strlit("3"); }
        assert("3"@ =~= seq![dec_digit_char(d)]);
        "3"
    } else if d == 4 {
        proof { reveal_strlit("4"); }
        assert("4"@ =~= seq![dec_digit_char(d)]);
        "4"
    } else if d == 5 {
        proof { reveal_strlit("5"); }
        assert("5"@ =~= seq![dec_digit_char(d)]);
        "5"
    } else if d == 6 {
        proof { reveal_strlit("6"); }
        assert("6"@ =~= seq![dec_digit_char(d)]);
        "6"
    } else if d == 7 {
        proof { reveal_strlit("7"); }
        assert("7"@ =~= seq![dec_digit_char(d)]);
        "7"
    } else if d == 8 {
        proof { reveal_strlit("8"); }
        assert("8"@ =~= seq![dec_digit_char(d)]);
        "8"
    } else {
        proof { reveal_strlit("9"); }
        assert("9"@ =~= seq![dec_digit_char(d)]);
        "9"
    }
}

/// Appends the decimal spelling of `x` to `out`.
pub fn append_decimal(out: &mut String, x: u64)
    ensures
        final(out)@ == old(out)@ + decimal_digits(x),
    decreases x,
{
    if x < 10 {
        out.append(digit_str(x));
        proof {
            assert(out@ =~= old(out)@ + decimal_digits(x));
        }
    } else {
        append_decimal(out, x / 10);
        out.append(digit_str(x % 10));
        proof {
            assert(out@ =~= old(out)@ + decimal_digits(x));
        }
    }
}

/// The decimal spelling of `x` as a string.
pub fn u64_to_decimal(x: u64) -> (r: String)
    ensures
        r@ == decimal_digits(x),
{
    let mut s = String::new();
    append_decimal(&mut s, x);
    proof {
        assert(s@ =~= decimal_digits(x));
    }
    s
}

/// The faucet request URL for minting `num_coins` to `receiver`: the faucet
/// host with the amount in decimal and the address in hex.
pub fn mint_coins_url(faucet_url: &str, num_coins: u64, receiver: &AccountAddress) -> (r: String)
    ensures
        r@ == "http://"@ + faucet_url@ + "?amount="@ + decimal_digits(num_coins) + "&address="@
            + trusted::hex_encoded(receiver@),
{
    let mut url = String::from_str("http://");
    url.append(faucet_url);
    url.append("?amount=");
    append_decimal(&mut url, num_coins);
    url.append("&address=");
    let address_hex = trusted::hex_encode(receiver.as_bytes().as_slice());
    url.append(address_hex.as_str());
    proof {
        assert(url@ =~= "http://"@ + faucet_url@ + "?amount="@ + decimal_digits(num_coins)
            + "&address="@ + trusted::hex_encoded(receiver@));
    }
    url
}

/// Judges a faucet response: anything but plain success is surfaced to the
/// caller with the body the faucet sent.
pub fn faucet_response_to_result(status: u16, body: &str) -> (r: Result<(), ApiError>)
    ensures
        r is Ok <==> status == 200,
{
    if status == 200 {
        Ok(())
    } else {
        let mut message = String::from_str("failed to query remote faucet server: ");
        message.append(body);
        Err(ApiError::new(message))
    }
}

/// The quorum for `num_validators` voters: of 3f + 1 validators, 2f + 1
/// matching signatures are required; with fewer than four validators all of
/// them have to agree.
pub fn quorum_size(num_validators: usize) -> (r: usize)
    requires
        num_validators <= usize::MAX / 2,
    ensures
        r == num_validators * 2 / 3 + 1,
        3 * r > 2 * num_validators,
{
    let r = num_validators * 2 / 3 + 1;
    proof {
        assert(3 * ((num_validators * 2 / 3) + 1) > 2 * num_validators) by (nonlinear_arith)
            requires num_validators >= 0;
    }
    r
}

/// The settings the gateway starts with: the validator quorum and the faucet
/// client. An empty validator set is refused; without an explicit faucet
/// server the faucet host is derived from the ledger host by name.
pub fn app_state_settings(num_validators: usize, host: &str, faucet_server: Option<String>) -> (r:
    Result<(usize, FaucetClient), ApiError>)
    requires
        num_validators <= usize::MAX / 2,
    ensures
        match r {
            Ok((quorum, faucet)) => {
                &&& num_validators > 0
                &&& quorum == num_validators * 2 / 3 + 1
                &&& 3 * quorum > 2 * num_validators
                &&& faucet.faucet_url@ == (match faucet_server {
                    Some(server) => server@,
                    None => trusted::str_replace_of(host@, "ac"@, "faucet"@),
                })
            },
            Err(_) => num_validators == 0,
        },
{
    if num_validators == 0 {
        return Err(
            ApiError::new(
                String::from_str("not able to load validators from trusted peers config"),
            ),
        );
    }
    let quorum = quorum_size(num_validators);
    let faucet_url = match faucet_server {
        Some(server) => server,
        None => trusted::str_replace(host, "ac", "faucet"),
    };
    Ok((quorum, FaucetClient { faucet_url }))
}

} // verus!
