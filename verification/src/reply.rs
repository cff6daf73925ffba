//! From the transport's outcome to a typed result or a classified error.

use vstd::prelude::*;
use jsonrpc::Response;
use bitcoin_rpc_json::mining::EstimateSmartFee;
use bitcoin_rpc_json::net::NetworkInfo;
use bitcoin::util::hash::Sha256dHash;
use crate::error::{malformed_text, rpc_error_text, ClientError, ErrorKind};

verus! {

/// What a reply decodes to when nothing is expected of it.
pub uninterp spec fn decoded_unit(response: Response) -> Result<(), jsonrpc::Error>;

/// What a reply decodes to when a count is expected.
pub uninterp spec fn decoded_count(response: Response) -> Result<u64, jsonrpc::Error>;

/// What a reply decodes to when a string is expected.
pub uninterp spec fn decoded_text(response: Response) -> Result<String, jsonrpc::Error>;

/// What a reply decodes to when a fee estimate is expected.
pub uninterp spec fn decoded_fee(response: Response) -> Result<EstimateSmartFee, jsonrpc::Error>;

/// What a reply decodes to when network information is expected.
pub uninterp spec fn decoded_network(response: Response) -> Result<NetworkInfo, jsonrpc::Error>;

/// The hash that a hexadecimal content identifier denotes, if it is one.
pub uninterp spec fn hash_of_hex(s: Seq<char>) -> Option<Sha256dHash>;

/// A hexadecimal digit of either case.
pub open spec fn is_hex_digit(c: char) -> bool {
    ('0' <= c <= '9') || ('a' <= c <= 'f') || ('A' <= c <= 'F')
}

/// Exactly 64 hexadecimal digits.
pub open spec fn is_hash_hex(s: Seq<char>) -> bool {
    s.len() == 64 && forall|i: int| 0 <= i < s.len() ==> is_hex_digit(#[trigger] s[i])
}

/// `Response::into_result` for the unit type: the reply's error if it has
/// one, else its result run through the JSON crate's decoder. The outcome
/// depends on the reply alone.
#[verifier::external_body]
pub(crate) fn decode_unit(response: Response) -> (decoded: Result<(), jsonrpc::Error>)
    ensures
        decoded == decoded_unit(response),
{
    response.into_result()
}

/// `Response::into_result` for `u64`; as for the unit type.
#[verifier::external_body]
pub(crate) fn decode_count(response: Response) -> (decoded: Result<u64, jsonrpc::Error>)
    ensures
        decoded == decoded_count(response),
{
    response.into_result()
}

/// `Response::into_result` for `String`; as for the unit type.
#[verifier::external_body]
pub(crate) fn decode_text(response: Response) -> (decoded: Result<String, jsonrpc::Error>)
    ensures
        decoded == decoded_text(response),
{
    response.into_result()
}

/// `Response::into_result` for `EstimateSmartFee`; as for the unit type.
#[verifier::external_body]
pub(crate) fn decode_fee(response: Response) -> (decoded: Result<
    EstimateSmartFee,
    jsonrpc::Error,
>)
    ensures
        decoded == decoded_fee(response),
{
    response.into_result()
}

/// `Response::into_result` for `NetworkInfo`; as for the unit type.
#[verifier::external_body]
pub(crate) fn decode_network(response: Response) -> (decoded: Result<NetworkInfo, jsonrpc::Error>)
    ensures
        decoded == decoded_network(response),
{
    response.into_result()
}

/// `Sha256dHash::from_hex`: it accepts a string of exactly 64 hexadecimal
/// digits of either case and nothing else; the hash depends on the digits
/// alone.
#[verifier::external_body]
pub(crate) fn parse_hash(s: &str) -> (hash: Option<Sha256dHash>)
    ensures
        hash == hash_of_hex(s@),
        hash is Some <==> is_hash_hex(s@),
{
    Sha256dHash::from_hex(s).ok()
}

/// `result` is a failure of the given kind and description.
pub open spec fn failed<T>(result: Result<T, ClientError>, kind: ErrorKind, desc: Seq<char>) -> bool {
    result is Err && result->Err_0.kind == kind && result->Err_0.desc@ == desc
}

/// `result` is what a command owes its caller for the decoded reply
/// `decoded`: the value itself, or a malformed-response error around the
/// decoder's complaint.
pub open spec fn decode_classified<T>(
    decoded: Result<T, jsonrpc::Error>,
    result: Result<T, ClientError>,
) -> bool {
    match decoded {
        Ok(v) => result == Ok::<T, ClientError>(v),
        Err(e) => failed(result, ErrorKind::JsonRpc(e), malformed_text()),
    }
}

/// `result` is what a command owes its caller for the transport's
/// `outcome`, where `decode` says what a reply decodes to: a transport
/// failure is passed on as an RPC error, a reply goes through the decoder.
pub open spec fn classified<T>(
    outcome: Result<Response, jsonrpc::Error>,
    decode: spec_fn(Response) -> Result<T, jsonrpc::Error>,
    result: Result<T, ClientError>,
) -> bool {
    match outcome {
        Ok(response) => decode_classified(decode(response), result),
        Err(e) => failed(result, ErrorKind::JsonRpc(e), rpc_error_text()),
    }
}

/// `result` is what `sendrawtransaction` owes its caller for the decoded
/// identifier: the hash it denotes, or a malformed-response error.
pub open spec fn hash_classified(
    decoded: Result<String, jsonrpc::Error>,
    result: Result<Sha256dHash, ClientError>,
) -> bool {
    match decoded {
        Ok(txid) => if is_hash_hex(txid@) {
            result is Ok && Some(result->Ok_0) == hash_of_hex(txid@)
        } else {
            failed(result, ErrorKind::Other, malformed_text())
        },
        Err(e) => failed(result, ErrorKind::JsonRpc(e), malformed_text()),
    }
}

/// A command ends in exactly one of two ways. It succeeds only where the
/// transport delivered a reply and the reply decoded, and then with the
/// decoded value itself; otherwise it fails with a JSON-RPC error that
/// carries the cause and says which step failed.
pub proof fn lemma_value_or_classified_error<T>(
    outcome: Result<Response, jsonrpc::Error>,
    decode: spec_fn(Response) -> Result<T, jsonrpc::Error>,
    result: Result<T, ClientError>,
)
    requires
        classified(outcome, decode, result),
    ensures
        result is Ok <==> outcome is Ok && decode(outcome->Ok_0) is Ok,
        result is Ok ==> result->Ok_0 == decode(outcome->Ok_0)->Ok_0,
        result is Err ==> result->Err_0.kind is JsonRpc && (result->Err_0.desc@ == rpc_error_text()
            || result->Err_0.desc@ == malformed_text()),
{
}

/// Two runs of a command that meet the same outcome agree: on success in
/// the value, on failure in kind and description.
pub proof fn lemma_outcome_decides<T>(
    outcome: Result<Response, jsonrpc::Error>,
    decode: spec_fn(Response) -> Result<T, jsonrpc::Error>,
    first: Result<T, ClientError>,
    second: Result<T, ClientError>,
)
    requires
        classified(outcome, decode, first),
        classified(outcome, decode, second),
    ensures
        first is Ok <==> second is Ok,
        first is Ok ==> first->Ok_0 == second->Ok_0,
        first is Err ==> first->Err_0.kind == second->Err_0.kind && first->Err_0.desc@
            == second->Err_0.desc@,
{
}

/// A transport failure surfaces from every command as a JSON-RPC error that
/// carries that very failure under the description "RPC error".
pub proof fn lemma_transport_failure_surfaces<T>(
    cause: jsonrpc::Error,
    decode: spec_fn(Response) -> Result<T, jsonrpc::Error>,
    result: Result<T, ClientError>,
    submitted: Result<Sha256dHash, ClientError>,
)
    requires
        classified(Err(cause), decode, result),
        submission_classified(Err(cause), submitted),
    ensures
        failed(result, ErrorKind::JsonRpc(cause), "RPC error"@),
        failed(submitted, ErrorKind::JsonRpc(cause), "RPC error"@),
{
}

/// A reply that does not decode surfaces from every command as a JSON-RPC
/// error that carries the decoder's complaint under the description
/// "Malformed response".
pub proof fn lemma_decode_failure_surfaces<T>(
    response: Response,
    decode: spec_fn(Response) -> Result<T, jsonrpc::Error>,
    result: Result<T, ClientError>,
    submitted: Result<Sha256dHash, ClientError>,
)
    requires
        classified(Ok(response), decode, result),
        submission_classified(Ok(response), submitted),
    ensures
        decode(response) is Err ==> failed(
            result,
            ErrorKind::JsonRpc(decode(response)->Err_0),
            "Malformed response"@,
        ),
        decoded_text(response) is Err ==> failed(
            submitted,
            ErrorKind::JsonRpc(decoded_text(response)->Err_0),
            "Malformed response"@,
        ),
        decoded_text(response) is Ok && !is_hash_hex(decoded_text(response)->Ok_0@) ==> failed(
            submitted,
            ErrorKind::Other,
            "Malformed response"@,
        ),
{
}

/// Classifies the transport's outcome: a reply is passed on, a failure
/// becomes an RPC error that carries it.
pub fn transport_checked(outcome: Result<Response, jsonrpc::Error>) -> (result: Result<
    Response,
    ClientError,
>)
    ensures
        match outcome {
            Ok(response) => result == Ok::<Response, ClientError>(response),
            Err(e) => failed(result, ErrorKind::JsonRpc(e), rpc_error_text()),
        },
{
    match outcome {
        Ok(response) => Ok(response),
        Err(e) => Err(ClientError::new(ErrorKind::from(e), "RPC error")),
    }
}

/// Classifies a decoded reply: a value is passed on, a decoding failure
/// becomes a malformed-response error that carries it.
pub fn decode_checked<T>(decoded: Result<T, jsonrpc::Error>) -> (result: Result<T, ClientError>)
    ensures
        decode_classified(decoded, result),
{
    match decoded {
        Ok(v) => Ok(v),
        Err(e) => Err(ClientError::new(ErrorKind::from(e), "Malformed response")),
    }
}

/// Turns a decoded content identifier into a hash. An identifier that is
/// not 64 hexadecimal digits is a malformed response of kind `Other`.
pub fn hash_checked(decoded: Result<String, jsonrpc::Error>) -> (result: Result<
    Sha256dHash,
    ClientError,
>)
    ensures
        hash_classified(decoded, result),
{
    match decoded {
        Ok(txid) => match parse_hash(txid.as_str()) {
            Some(hash) => Ok(hash),
            None => Err(ClientError::new(ErrorKind::Other, "Malformed response")),
        },
        Err(e) => Err(ClientError::new(ErrorKind::from(e), "Malformed response")),
    }
}

/// Completes `ping` from the transport's outcome.
pub fn ping_reply(outcome: Result<Response, jsonrpc::Error>) -> (result: Result<(), ClientError>)
    ensures
        classified(outcome, |r: Response| decoded_unit(r), result),
{
    match transport_checked(outcome) {
        Ok(response) => decode_checked(decode_unit(response)),
        Err(e) => Err(e),
    }
}

/// Completes `getconnectioncount` from the transport's outcome.
pub fn getconnectioncount_reply(outcome: Result<Response, jsonrpc::Error>) -> (result: Result<
    u64,
    ClientError,
>)
    ensures
        classified(outcome, |r: Response| decoded_count(r), result),
{
    match transport_checked(outcome) {
        Ok(response) => decode_checked(decode_count(response)),
        Err(e) => Err(e),
    }
}

/// Completes `getnetworkinfo` from the transport's outcome.
pub fn getnetworkinfo_reply(outcome: Result<Response, jsonrpc::Error>) -> (result: Result<
    NetworkInfo,
    ClientError,
>)
    ensures
        classified(outcome, |r: Response| decoded_network(r), result),
{
    match transport_checked(outcome) {
        Ok(response) => decode_checked(decode_network(response)),
        Err(e) => Err(e),
    }
}

/// Completes `estimatesmartfee` from the transport's outcome.
pub fn estimatesmartfee_reply(outcome: Result<Response, jsonrpc::Error>) -> (result: Result<
    EstimateSmartFee,
    ClientError,
>)
    ensures
        classified(outcome, |r: Response| decoded_fee(r), result),
{
    match transport_checked(outcome) {
        Ok(response) => decode_checked(decode_fee(response)),
        Err(e) => Err(e),
    }
}

/// `result` is what `sendrawtransaction` owes its caller for the
/// transport's `outcome`.
pub open spec fn submission_classified(
    outcome: Result<Response, jsonrpc::Error>,
    result: Result<Sha256dHash, ClientError>,
) -> bool {
    match outcome {
        Ok(response) => hash_classified(decoded_text(response), result),
        Err(e) => failed(result, ErrorKind::JsonRpc(e), rpc_error_text()),
    }
}

/// Completes `sendrawtransaction` from the transport's outcome.
pub fn sendrawtransaction_reply(outcome: Result<Response, jsonrpc::Error>) -> (result: Result<
    Sha256dHash,
    ClientError,
>)
    ensures
        submission_classified(outcome, result),
{
    match transport_checked(outcome) {
        Ok(response) => hash_checked(decode_text(response)),
        Err(e) => Err(e),
    }
}

} // verus!
