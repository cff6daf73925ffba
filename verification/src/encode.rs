//! Encoding of local values into the transport's generic JSON values.
//!
//! The encoder itself belongs to the JSON crate; here each encoding gets a
//! name, so that parameter lists can be stated exactly.

use vstd::prelude::*;
use strason::Json;
use bitcoin_rpc_json::mining::EstimateMode;
use bitcoin::blockdata::transaction::Transaction;

verus! {

/// The JSON value that stands for an unsigned 16-bit number.
pub uninterp spec fn number_json(v: u16) -> Json;

/// The JSON value that stands for a boolean.
pub uninterp spec fn flag_json(b: bool) -> Json;

/// The JSON value that stands for a string.
pub uninterp spec fn text_json(s: Seq<char>) -> Json;

/// The JSON value that stands for a fee estimation mode.
pub uninterp spec fn mode_json(m: EstimateMode) -> Json;

/// The hexadecimal consensus encoding of a transaction.
pub uninterp spec fn transaction_hex(tx: Transaction) -> Seq<char>;

/// `Json::from_serialize` on a `u16`. The serializer wraps the number's
/// decimal digits and cannot fail; the value depends on `v` alone.
#[verifier::external_body]
pub(crate) fn encode_number(v: u16) -> (j: Json)
    ensures
        j == number_json(v),
{
    Json::from_serialize(v).expect("a number always encodes")
}

/// `Json::from_serialize` on a `bool`. The serializer wraps the boolean and
/// cannot fail; the value depends on `b` alone.
#[verifier::external_body]
pub(crate) fn encode_flag(b: bool) -> (j: Json)
    ensures
        j == flag_json(b),
{
    Json::from_serialize(b).expect("a boolean always encodes")
}

/// `Json::from_serialize` on a `String`. The serializer wraps a copy of the
/// string and cannot fail; the value depends on the characters alone.
#[verifier::external_body]
pub(crate) fn encode_text(s: String) -> (j: Json)
    ensures
        j == text_json(s@),
{
    Json::from_serialize(s).expect("a string always encodes")
}

/// `Json::from_serialize` on an `EstimateMode`, which serializes as the
/// mode's upper-case name; it cannot fail and depends on `m` alone.
#[verifier::external_body]
pub(crate) fn encode_mode(m: EstimateMode) -> (j: Json)
    ensures
        j == mode_json(m),
{
    Json::from_serialize(m).expect("a mode always encodes")
}

/// `bitcoin::network::serialize::serialize_hex` on a transaction. It writes
/// the consensus encoding into memory, which cannot fail, and prints it in
/// hexadecimal; the text depends on the transaction alone.
#[verifier::external_body]
pub(crate) fn encode_transaction(tx: &Transaction) -> (hex: String)
    ensures
        hex@ == transaction_hex(*tx),
{
    bitcoin::network::serialize::serialize_hex(tx).expect("a transaction always encodes")
}

} // verus!
