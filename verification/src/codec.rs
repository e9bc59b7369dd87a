//! Canonical byte serialization.
//!
//! Transactions are signed over the exact bytes this module produces, so the
//! encoding is fixed once and stated as a spec-level function: every field
//! has exactly one place in the output, integers are little-endian, and
//! variable-length byte strings carry a length prefix. Account resources use
//! the same building blocks and can be decoded back losslessly.

use vstd::prelude::*;
use vstd::bytes::{
    lemma_auto_spec_u64_to_from_le_bytes, spec_u64_from_le_bytes, spec_u64_to_le_bytes,
    u64_from_le_bytes, u64_to_le_bytes,
};
use vstd::slice::{slice_subrange, slice_to_vec};

use crate::ledger::{AccountResource, AccountResourceV};
use crate::transaction::{Program, RawTransaction, TransactionArgument, TransactionArgumentV};

verus! {

/// Tag byte of a 64-bit integer argument.
pub const ARG_TAG_U64: u8 = 0;

/// Tag byte of an address argument.
pub const ARG_TAG_ADDRESS: u8 = 1;

/// Tag byte of a byte-array argument.
pub const ARG_TAG_BYTE_ARRAY: u8 = 2;

/// A byte string prefixed with its length as a little-endian 64-bit integer.
pub open spec fn length_prefixed(b: Seq<u8>) -> Seq<u8> {
    spec_u64_to_le_bytes(b.len() as u64) + b
}

/// The canonical bytes of one transaction argument: a tag byte, then the
/// payload.
pub open spec fn arg_bytes(a: TransactionArgumentV) -> Seq<u8> {
    match a {
        TransactionArgumentV::U64(x) => seq![ARG_TAG_U64] + spec_u64_to_le_bytes(x),
        TransactionArgumentV::Address(bs) => seq![ARG_TAG_ADDRESS] + length_prefixed(bs),
        TransactionArgumentV::ByteArray(bs) => seq![ARG_TAG_BYTE_ARRAY] + length_prefixed(bs),
    }
}

/// The canonical bytes of an argument sequence, in order.
pub open spec fn args_bytes(args: Seq<TransactionArgumentV>) -> Seq<u8>
    decreases args.len(),
{
    if args.len() == 0 {
        Seq::empty()
    } else {
        args_bytes(args.drop_last()) + arg_bytes(args.last())
    }
}

/// The canonical bytes of a program: length-prefixed code, the argument
/// count, then every argument in order.
pub open spec fn program_bytes(p: crate::transaction::ProgramV) -> Seq<u8> {
    length_prefixed(p.code) + spec_u64_to_le_bytes(p.args.len() as u64) + args_bytes(p.args)
}

/// The canonical bytes of an unsigned transaction: sender address, sequence
/// number, program, gas maximum, gas price and expiration time, in that
/// order.
pub open spec fn canonical_raw_transaction_bytes(t: crate::transaction::RawTransactionV) -> Seq<u8> {
    t.sender + spec_u64_to_le_bytes(t.sequence_number) + program_bytes(t.program)
        + spec_u64_to_le_bytes(t.max_gas_amount) + spec_u64_to_le_bytes(t.gas_unit_price)
        + spec_u64_to_le_bytes(t.expiration_time)
}

/// Appending one more argument appends its bytes.
pub proof fn lemma_args_bytes_take_step(args: Seq<TransactionArgumentV>, i: int)
    requires
        0 <= i < args.len(),
    ensures
        args_bytes(args.take(i + 1)) == args_bytes(args.take(i)) + arg_bytes(args[i]),
{
    assert(args.take(i + 1).drop_last() =~= args.take(i));
    assert(args.take(i + 1).last() == args[i]);
}

/// One argument parsed off the front of `bs`: the argument and the bytes
/// that follow it, or nothing if `bs` does not start with an argument.
pub open spec fn parsed_arg(bs: Seq<u8>) -> Option<(TransactionArgumentV, Seq<u8>)> {
    if bs.len() < 9 {
        None
    } else if bs[0] == ARG_TAG_U64 {
        Some(
            (
                TransactionArgumentV::U64(spec_u64_from_le_bytes(bs.subrange(1, 9))),
                bs.skip(9),
            ),
        )
    } else if bs[0] == ARG_TAG_ADDRESS {
        let l = spec_u64_from_le_bytes(bs.subrange(1, 9)) as int;
        if bs.len() >= 9 + l {
            Some((TransactionArgumentV::Address(bs.subrange(9, 9 + l)), bs.skip(9 + l)))
        } else {
            None
        }
    } else if bs[0] == ARG_TAG_BYTE_ARRAY {
        let l = spec_u64_from_le_bytes(bs.subrange(1, 9)) as int;
        if bs.len() >= 9 + l {
            Some((TransactionArgumentV::ByteArray(bs.subrange(9, 9 + l)), bs.skip(9 + l)))
        } else {
            None
        }
    } else {
        None
    }
}

/// Whether an argument's payload fits behind a length prefix.
pub open spec fn arg_encodable(a: TransactionArgumentV) -> bool {
    match a {
        TransactionArgumentV::U64(_) => true,
        TransactionArgumentV::Address(bs) => bs.len() <= u64::MAX,
        TransactionArgumentV::ByteArray(bs) => bs.len() <= u64::MAX,
    }
}

/// Parsing undoes encoding for one argument, whatever follows it.
pub proof fn lemma_parsed_arg(a: TransactionArgumentV, rest: Seq<u8>)
    requires
        arg_encodable(a),
    ensures
        parsed_arg(arg_bytes(a) + rest) == Some((a, rest)),
{
    lemma_auto_spec_u64_to_from_le_bytes();
    let bs = arg_bytes(a) + rest;
    match a {
        TransactionArgumentV::U64(x) => {
            assert(bs[0] == ARG_TAG_U64);
            assert(bs.subrange(1, 9) =~= spec_u64_to_le_bytes(x));
            assert(bs.skip(9) =~= rest);
        },
        TransactionArgumentV::Address(ab) => {
            assert(bs[0] == ARG_TAG_ADDRESS);
            assert(bs.subrange(1, 9) =~= spec_u64_to_le_bytes(ab.len() as u64));
            assert(bs.subrange(9, 9 + ab.len() as int) =~= ab);
            assert(bs.skip(9 + ab.len() as int) =~= rest);
        },
        TransactionArgumentV::ByteArray(ab) => {
            assert(bs[0] == ARG_TAG_BYTE_ARRAY);
            assert(bs.subrange(1, 9) =~= spec_u64_to_le_bytes(ab.len() as u64));
            assert(bs.subrange(9, 9 + ab.len() as int) =~= ab);
            assert(bs.skip(9 + ab.len() as int) =~= rest);
        },
    }
}

/// `n` arguments parsed off the front of `bs`, with the bytes that follow
/// them.
pub open spec fn parsed_args(bs: Seq<u8>, n: nat) -> Option<(Seq<TransactionArgumentV>, Seq<u8>)>
    decreases n,
{
    if n == 0 {
        Some((Seq::empty(), bs))
    } else {
        match parsed_arg(bs) {
            Some(first) => match parsed_args(first.1, (n - 1) as nat) {
                Some(parsed_rest) => Some((seq![first.0] + parsed_rest.0, parsed_rest.1)),
                None => None,
            },
            None => None,
        }
    }
}

/// Whether every argument of a sequence is encodable.
pub open spec fn args_encodable(args: Seq<TransactionArgumentV>) -> bool {
    forall|i: int| 0 <= i < args.len() ==> arg_encodable(#[trigger] args[i])
}

/// An argument sequence's bytes start with its first argument's bytes.
pub proof fn lemma_args_bytes_first(args: Seq<TransactionArgumentV>)
    requires
        args.len() > 0,
    ensures
        args_bytes(args) == arg_bytes(args[0]) + args_bytes(args.drop_first()),
    decreases args.len(),
{
    if args.len() == 1 {
        assert(args.drop_last() =~= Seq::<TransactionArgumentV>::empty());
        assert(args.drop_first() =~= Seq::<TransactionArgumentV>::empty());
        assert(args.last() == args[0]);
        assert(args_bytes(args) =~= arg_bytes(args[0]) + args_bytes(args.drop_first()));
    } else {
        lemma_args_bytes_first(args.drop_last());
        assert(args.drop_last()[0] == args[0]);
        assert(args.drop_first().drop_last() =~= args.drop_last().drop_first());
        assert(args.drop_first().last() == args.last());
        assert(args_bytes(args.drop_first()) == args_bytes(args.drop_first().drop_last())
            + arg_bytes(args.drop_first().last()));
        assert(args_bytes(args) =~= arg_bytes(args[0]) + args_bytes(args.drop_first()));
    }
}

/// Parsing undoes encoding for a whole argument sequence, whatever follows.
pub proof fn lemma_parsed_args(args: Seq<TransactionArgumentV>, rest: Seq<u8>)
    requires
        args_encodable(args),
    ensures
        parsed_args(args_bytes(args) + rest, args.len()) == Some((args, rest)),
    decreases args.len(),
{
    if args.len() == 0 {
        assert(args_bytes(args) + rest =~= rest);
        assert(args =~= Seq::<TransactionArgumentV>::empty());
    } else {
        lemma_args_bytes_first(args);
        assert(args_bytes(args) + rest =~= arg_bytes(args[0]) + (args_bytes(args.drop_first())
            + rest));
        lemma_parsed_arg(args[0], args_bytes(args.drop_first()) + rest);
        assert(args_encodable(args.drop_first())) by {
            assert(forall|i: int| 0 <= i < args.drop_first().len() ==> #[trigger] args.drop_first()[i]
                == args[i + 1]);
        }
        lemma_parsed_args(args.drop_first(), rest);
        assert(seq![args[0]] + args.drop_first() =~= args);
    }
}

/// Whether a transaction can be encoded at all: the sender has address
/// length and every variable-length part fits behind its length prefix.
pub open spec fn raw_transaction_encodable(t: crate::transaction::RawTransactionV) -> bool {
    &&& t.sender.len() == 32
    &&& t.program.code.len() <= u64::MAX
    &&& t.program.args.len() <= u64::MAX
    &&& args_encodable(t.program.args)
}

/// The transaction spelled by `bs`, if `bs` is exactly one canonical
/// transaction encoding.
pub open spec fn decoded_raw_transaction(bs: Seq<u8>) -> Option<
    crate::transaction::RawTransactionV,
> {
    if bs.len() < 56 {
        None
    } else {
        let code_len = spec_u64_from_le_bytes(bs.subrange(40, 48)) as int;
        if bs.len() < 56 + code_len {
            None
        } else {
            let argcount = spec_u64_from_le_bytes(bs.subrange(48 + code_len, 56 + code_len));
            match parsed_args(bs.skip(56 + code_len), argcount as nat) {
                Some(parsed) => if parsed.1.len() == 24 {
                    Some(
                        crate::transaction::RawTransactionV {
                            sender: bs.subrange(0, 32),
                            sequence_number: spec_u64_from_le_bytes(bs.subrange(32, 40)),
                            program: crate::transaction::ProgramV {
                                code: bs.subrange(48, 48 + code_len),
                                args: parsed.0,
                            },
                            max_gas_amount: spec_u64_from_le_bytes(parsed.1.subrange(0, 8)),
                            gas_unit_price: spec_u64_from_le_bytes(parsed.1.subrange(8, 16)),
                            expiration_time: spec_u64_from_le_bytes(parsed.1.subrange(16, 24)),
                        },
                    )
                } else {
                    None
                },
                None => None,
            }
        }
    }
}

/// Round trip: decoding a canonical transaction encoding gives back exactly
/// the encoded transaction — the encoding is lossless.
pub proof fn lemma_raw_transaction_round_trip(t: crate::transaction::RawTransactionV)
    requires
        raw_transaction_encodable(t),
    ensures
        decoded_raw_transaction(canonical_raw_transaction_bytes(t)) == Some(t),
{
    lemma_auto_spec_u64_to_from_le_bytes();
    let bs = canonical_raw_transaction_bytes(t);
    let cl = t.program.code.len() as int;
    let tail = spec_u64_to_le_bytes(t.max_gas_amount) + spec_u64_to_le_bytes(t.gas_unit_price)
        + spec_u64_to_le_bytes(t.expiration_time);
    assert(bs.subrange(0, 32) =~= t.sender);
    assert(bs.subrange(32, 40) =~= spec_u64_to_le_bytes(t.sequence_number));
    assert(bs.subrange(40, 48) =~= spec_u64_to_le_bytes(t.program.code.len() as u64));
    assert(bs.subrange(48, 48 + cl) =~= t.program.code);
    assert(bs.subrange(48 + cl, 56 + cl) =~= spec_u64_to_le_bytes(t.program.args.len() as u64));
    assert(bs.skip(56 + cl) =~= args_bytes(t.program.args) + tail);
    lemma_parsed_args(t.program.args, tail);
    assert(tail.subrange(0, 8) =~= spec_u64_to_le_bytes(t.max_gas_amount));
    assert(tail.subrange(8, 16) =~= spec_u64_to_le_bytes(t.gas_unit_price));
    assert(tail.subrange(16, 24) =~= spec_u64_to_le_bytes(t.expiration_time));
    assert(decoded_raw_transaction(bs) == Some(t));
}

/// A transaction is a pure value with no identity beyond its canonical
/// bytes: two encodable transactions with the same canonical bytes are the
/// same transaction.
pub proof fn lemma_canonical_bytes_injective(
    t1: crate::transaction::RawTransactionV,
    t2: crate::transaction::RawTransactionV,
)
    requires
        raw_transaction_encodable(t1),
        raw_transaction_encodable(t2),
        canonical_raw_transaction_bytes(t1) == canonical_raw_transaction_bytes(t2),
    ensures
        t1 == t2,
{
    lemma_raw_transaction_round_trip(t1);
    lemma_raw_transaction_round_trip(t2);
}

/// Writes `x` to `out` as eight little-endian bytes.
pub fn append_u64_le(out: &mut Vec<u8>, x: u64)
    ensures
        final(out)@ == old(out)@ + spec_u64_to_le_bytes(x),
{
    let mut b = u64_to_le_bytes(x);
    out.append(&mut b);
}

/// Writes `data` to `out` with its length prefix.
pub fn append_length_prefixed(out: &mut Vec<u8>, data: &[u8])
    ensures
        final(out)@ == old(out)@ + length_prefixed(data@),
{
    append_u64_le(out, data.len() as u64);
    out.extend_from_slice(data);
    proof {
        assert(out@ =~= old(out)@ + length_prefixed(data@));
    }
}

/// Writes one argument to `out` in its canonical form.
fn append_arg(out: &mut Vec<u8>, a: &TransactionArgument)
    ensures
        final(out)@ == old(out)@ + arg_bytes(a@),
{
    match a {
        TransactionArgument::U64(x) => {
            out.push(ARG_TAG_U64);
            append_u64_le(out, *x);
            proof {
                assert(out@ =~= old(out)@ + arg_bytes(a@));
            }
        },
        TransactionArgument::Address(addr) => {
            out.push(ARG_TAG_ADDRESS);
            append_length_prefixed(out, addr.as_bytes().as_slice());
            proof {
                assert(out@ =~= old(out)@ + arg_bytes(a@));
            }
        },
        TransactionArgument::ByteArray(b) => {
            out.push(ARG_TAG_BYTE_ARRAY);
            append_length_prefixed(out, b.as_slice());
            proof {
                assert(out@ =~= old(out)@ + arg_bytes(a@));
            }
        },
    }
}

/// Writes a program to `out` in its canonical form.
fn append_program(out: &mut Vec<u8>, p: &Program)
    ensures
        final(out)@ == old(out)@ + program_bytes(p@),
{
    append_length_prefixed(out, p.code.as_slice());
    append_u64_le(out, p.args.len() as u64);
    let ghost base = out@;
    let n = p.args.len();
    for i in 0..n
        invariant
            n == p.args@.len(),
            out@ == base + args_bytes(p@.args.take(i as int)),
    {
        append_arg(out, &p.args[i]);
        proof {
            assert(p@.args[i as int] == p.args@[i as int]@);
            lemma_args_bytes_take_step(p@.args, i as int);
            assert(out@ =~= base + args_bytes(p@.args.take(i + 1 as int)));
        }
    }
    proof {
        assert(p@.args.take(n as int) =~= p@.args);
        assert(out@ =~= old(out)@ + program_bytes(p@));
    }
}

/// The canonical serialization of an unsigned transaction. Signing always
/// hashes exactly these bytes.
pub fn encode_raw_transaction(t: &RawTransaction) -> (r: Vec<u8>)
    ensures
        r@ == canonical_raw_transaction_bytes(t@),
{
    let mut out: Vec<u8> = Vec::new();
    out.extend_from_slice(t.sender.as_bytes().as_slice());
    proof {
        assert(out@ =~= t@.sender);
    }
    append_u64_le(&mut out, t.sequence_number);
    append_program(&mut out, &t.program);
    append_u64_le(&mut out, t.max_gas_amount);
    append_u64_le(&mut out, t.gas_unit_price);
    append_u64_le(&mut out, t.expiration_time);
    proof {
        assert(out@ =~= canonical_raw_transaction_bytes(t@));
    }
    out
}

/// The canonical bytes of an account resource: balance, sequence number,
/// length-prefixed authentication key, then the two event counters.
pub open spec fn account_resource_bytes(r: AccountResourceV) -> Seq<u8> {
    spec_u64_to_le_bytes(r.balance) + spec_u64_to_le_bytes(r.sequence_number)
        + length_prefixed(r.authentication_key) + spec_u64_to_le_bytes(r.sent_events_count)
        + spec_u64_to_le_bytes(r.received_events_count)
}

/// Serializes an account resource into its canonical bytes.
pub fn encode_account_resource(r: &AccountResource) -> (out: Vec<u8>)
    ensures
        out@ == account_resource_bytes(r@),
{
    let mut out: Vec<u8> = Vec::new();
    append_u64_le(&mut out, r.balance);
    append_u64_le(&mut out, r.sequence_number);
    append_length_prefixed(&mut out, r.authentication_key.as_slice());
    append_u64_le(&mut out, r.sent_events_count);
    append_u64_le(&mut out, r.received_events_count);
    proof {
        assert(out@ =~= account_resource_bytes(r@));
    }
    out
}

/// The account resource spelled by `bs`, if `bs` is exactly one canonical
/// account-resource encoding.
pub open spec fn decoded_account_resource(bs: Seq<u8>) -> Option<AccountResourceV> {
    if bs.len() < 40 {
        None
    } else {
        let klen = spec_u64_from_le_bytes(bs.subrange(16, 24)) as int;
        if bs.len() != 40 + klen {
            None
        } else {
            Some(AccountResourceV {
                balance: spec_u64_from_le_bytes(bs.subrange(0, 8)),
                sequence_number: spec_u64_from_le_bytes(bs.subrange(8, 16)),
                authentication_key: bs.subrange(24, 24 + klen),
                sent_events_count: spec_u64_from_le_bytes(bs.subrange(24 + klen, 32 + klen)),
                received_events_count: spec_u64_from_le_bytes(bs.subrange(32 + klen, 40 + klen)),
            })
        }
    }
}

/// Parses canonical account-resource bytes, accepting exactly the byte
/// strings `decoded_account_resource` accepts.
pub fn decode_account_resource(bytes: &[u8]) -> (r: Option<AccountResource>)
    ensures
        match r {
            Some(res) => decoded_account_resource(bytes@) == Some(res@),
            None => decoded_account_resource(bytes@) is None,
        },
{
    let n = bytes.len();
    if n < 40 {
        return None;
    }
    let klen = u64_from_le_bytes(slice_subrange(bytes, 16, 24));
    if klen != (n - 40) as u64 {
        return None;
    }
    let balance = u64_from_le_bytes(slice_subrange(bytes, 0, 8));
    let sequence_number = u64_from_le_bytes(slice_subrange(bytes, 8, 16));
    let authentication_key = slice_to_vec(slice_subrange(bytes, 24, n - 16));
    let sent = u64_from_le_bytes(slice_subrange(bytes, n - 16, n - 8));
    let received = u64_from_le_bytes(slice_subrange(bytes, n - 8, n));
    let res = AccountResource::new(balance, sequence_number, authentication_key, sent, received);
    proof {
        assert(decoded_account_resource(bytes@) == Some(res@));
    }
    Some(res)
}

/// Round trip: decoding a canonical account-resource encoding gives back
/// exactly the encoded resource.
pub proof fn lemma_account_resource_round_trip(r: AccountResourceV)
    requires
        r.authentication_key.len() <= u64::MAX,
    ensures
        decoded_account_resource(account_resource_bytes(r)) == Some(r),
{
    lemma_auto_spec_u64_to_from_le_bytes();
    let bs = account_resource_bytes(r);
    let klen = r.authentication_key.len() as int;
    assert(bs.subrange(16, 24) =~= spec_u64_to_le_bytes(r.authentication_key.len() as u64));
    assert(bs.len() == 40 + klen);
    assert(bs.subrange(0, 8) =~= spec_u64_to_le_bytes(r.balance));
    assert(bs.subrange(8, 16) =~= spec_u64_to_le_bytes(r.sequence_number));
    assert(bs.subrange(24, 24 + klen) =~= r.authentication_key);
    assert(bs.subrange(24 + klen, 32 + klen) =~= spec_u64_to_le_bytes(r.sent_events_count));
    assert(bs.subrange(32 + klen, 40 + klen) =~= spec_u64_to_le_bytes(r.received_events_count));
    assert(decoded_account_resource(bs) == Some(r));
}

} // verus!
