//! Types of the transport and value crates that pass through the library
//! untouched. Verus sees none of their fields: a value of any of them is
//! only carried from one call to the next.

use vstd::prelude::*;

verus! {

/// `jsonrpc::Error`: what the transport reports when a round trip or a
/// decoding fails.
#[verifier::external_type_specification]
#[verifier::external_body]
pub struct ExTransportError(jsonrpc::Error);

/// `jsonrpc::client::Client`: the transport client.
#[verifier::external_type_specification]
#[verifier::external_body]
pub struct ExTransport(jsonrpc::client::Client);

/// `jsonrpc::Request`: a request as the transport sends it.
#[verifier::external_type_specification]
#[verifier::external_body]
pub struct ExRequest(jsonrpc::Request);

/// `jsonrpc::Response`: a reply as the transport received it, not yet
/// decoded.
#[verifier::external_type_specification]
#[verifier::external_body]
pub struct ExResponse(jsonrpc::Response);

/// `strason::Json`: an encoded value.
#[verifier::external_type_specification]
#[verifier::external_body]
pub struct ExJson(strason::Json);

/// `bitcoin_rpc_json::mining::EstimateMode`: a fee estimation mode.
#[verifier::external_type_specification]
#[verifier::external_body]
pub struct ExEstimateMode(bitcoin_rpc_json::mining::EstimateMode);

/// `bitcoin_rpc_json::mining::EstimateSmartFee`: the result of
/// `estimatesmartfee`.
#[verifier::external_type_specification]
#[verifier::external_body]
pub struct ExEstimateSmartFee(bitcoin_rpc_json::mining::EstimateSmartFee);

/// `bitcoin_rpc_json::net::NetworkInfo`: the result of `getnetworkinfo`.
#[verifier::external_type_specification]
#[verifier::external_body]
pub struct ExNetworkInfo(bitcoin_rpc_json::net::NetworkInfo);

/// `bitcoin::blockdata::transaction::Transaction`: a transaction.
#[verifier::external_type_specification]
#[verifier::external_body]
pub struct ExTransaction(bitcoin::blockdata::transaction::Transaction);

/// `bitcoin::util::hash::Sha256dHash`: a transaction identifier.
#[verifier::external_type_specification]
#[verifier::external_body]
pub struct ExSha256dHash(bitcoin::util::hash::Sha256dHash);

} // verus!
