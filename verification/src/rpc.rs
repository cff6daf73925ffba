//! The connection handle and the typed commands.
//!
//! A command builds its request, hands it to the caller's `transport` once,
//! and turns whatever comes back into its typed result or a classified
//! error. Sending is the caller's part: the handle itself never touches the
//! network.

use vstd::prelude::*;
use jsonrpc::client::Client;
use jsonrpc::{Request, Response};
use strason::Json;
use bitcoin_rpc_json::mining::{EstimateMode, EstimateSmartFee};
use bitcoin_rpc_json::net::NetworkInfo;
use bitcoin::blockdata::transaction::Transaction;
use bitcoin::util::hash::Sha256dHash;
use crate::call::{
    estimatesmartfee_call, estimatesmartfee_params, getconnectioncount_call, getnetworkinfo_call,
    ping_call, sendrawtransaction_call, sendrawtransaction_params, Call,
};
use crate::error::ClientError;
use crate::reply::{
    classified, decoded_count, decoded_fee, decoded_network, decoded_unit,
    estimatesmartfee_reply, getconnectioncount_reply, getnetworkinfo_reply, ping_reply,
    sendrawtransaction_reply, submission_classified,
};

verus! {

/// What a handle stands for: an endpoint, optional credentials, and the
/// transport client opened for them.
pub ghost struct Endpoint {
    pub url: Seq<char>,
    pub user: Option<Seq<char>>,
    pub pass: Option<Seq<char>>,
    pub client: Client,
}

/// The characters of an optional string.
pub open spec fn optional_text(s: Option<String>) -> Option<Seq<char>> {
    match s {
        Some(t) => Some(t@),
        None => None,
    }
}

/// Credentials are usable: a password never comes without a username.
pub open spec fn credentials_usable(user: Option<String>, pass: Option<String>) -> bool {
    pass is None || user is Some
}

/// The method name and the parameters that a request carries.
pub uninterp spec fn request_content(request: Request) -> (Seq<char>, Seq<Json>);

/// The request carries exactly this method name and these parameters.
pub open spec fn request_carries(request: Request, method: Seq<char>, params: Seq<Json>) -> bool {
    request_content(request) == (method, params)
}

/// `transport` accepts every request that carries this content.
pub open spec fn transport_takes<F: FnOnce(Request) -> Result<Response, jsonrpc::Error>>(
    transport: F,
    method: Seq<char>,
    params: Seq<Json>,
) -> bool {
    forall|request: Request| #[trigger]
        request_carries(request, method, params) ==> call_requires(transport, (request,))
}

/// `transport` was handed a request that carries this content and came back
/// with `outcome`.
pub open spec fn transport_answered<F: FnOnce(Request) -> Result<Response, jsonrpc::Error>>(
    transport: F,
    method: Seq<char>,
    params: Seq<Json>,
    outcome: Result<Response, jsonrpc::Error>,
) -> bool {
    exists|request: Request| #[trigger]
        request_carries(request, method, params) && call_ensures(transport, (request,), outcome)
}

/// `Client::new`: a client for the endpoint with these credentials. It
/// opens no connection. It refuses a password without a username.
#[verifier::external_body]
fn open_client(url: &String, user: &Option<String>, pass: &Option<String>) -> (client: Client)
    requires
        credentials_usable(*user, *pass),
{
    Client::new(url.clone(), user.clone(), pass.clone())
}

/// `Client::build_request`: a request with the call's method name and
/// parameters, untouched and in order, under the client's next nonce.
#[verifier::external_body]
fn build_request(client: &Client, call: Call) -> (request: Request)
    ensures
        request_content(request) == (call.method@, call.params@),
{
    client.build_request(call.method, call.params)
}

/// A handle to a bitcoind JSON-RPC connection.
pub struct BitcoinRpc {
    url: String,
    user: Option<String>,
    pass: Option<String>,
    client: Client,
}

impl View for BitcoinRpc {
    type V = Endpoint;

    closed spec fn view(&self) -> Endpoint {
        Endpoint {
            url: self.url@,
            user: optional_text(self.user),
            pass: optional_text(self.pass),
            client: self.client,
        }
    }
}

impl BitcoinRpc {
    #[verifier::type_invariant]
    spec fn credentials_hold(&self) -> bool {
        credentials_usable(self.user, self.pass)
    }

    /// Tells whether `new` accepts these credentials.
    pub fn accepts(user: &Option<String>, pass: &Option<String>) -> (ok: bool)
        ensures
            ok == credentials_usable(*user, *pass),
    {
        pass.is_none() || user.is_some()
    }

    /// Creates a handle for a bitcoind JSON-RPC server. A password without
    /// a username is not a session anyone can open.
    pub fn new(url: String, user: Option<String>, pass: Option<String>) -> (rpc: Self)
        requires
            credentials_usable(user, pass),
        ensures
            rpc@.url == url@,
            rpc@.user == optional_text(user),
            rpc@.pass == optional_text(pass),
    {
        let client = open_client(&url, &user, &pass);
        BitcoinRpc { url, user, pass, client }
    }

    /// Creates a handle, or none where a password comes without a username.
    pub fn checked_new(url: String, user: Option<String>, pass: Option<String>) -> (rpc: Option<
        Self,
    >)
        ensures
            rpc is Some <==> credentials_usable(user, pass),
            rpc is Some ==> {
                &&& rpc->Some_0@.url == url@
                &&& rpc->Some_0@.user == optional_text(user)
                &&& rpc->Some_0@.pass == optional_text(pass)
            },
    {
        if Self::accepts(&user, &pass) {
            Some(Self::new(url, user, pass))
        } else {
            None
        }
    }

    /// The endpoint's address.
    pub fn url(&self) -> (url: &String)
        ensures
            url@ == self@.url,
    {
        &self.url
    }

    /// The username, if there is one.
    pub fn user(&self) -> (user: &Option<String>)
        ensures
            optional_text(*user) == self@.user,
            self@.pass is Some ==> user is Some,
    {
        proof {
            use_type_invariant(self);
        }
        &self.user
    }

    /// The password, if there is one; there is none without a username.
    pub fn pass(&self) -> (pass: &Option<String>)
        ensures
            optional_text(*pass) == self@.pass,
            pass is Some ==> self@.user is Some,
    {
        proof {
            use_type_invariant(self);
        }
        &self.pass
    }

    /// The transport client that requests are built for and sent through.
    pub fn transport_client(&self) -> (client: &Client)
        ensures
            *client == self@.client,
    {
        &self.client
    }

    /// Estimates the fee rate needed for confirmation within `conf_target`
    /// blocks.
    pub fn estimatesmartfee<F>(
        &self,
        conf_target: u16,
        estimate_mode: Option<EstimateMode>,
        transport: F,
    ) -> (result: Result<EstimateSmartFee, ClientError>) where
        F: FnOnce(Request) -> Result<Response, jsonrpc::Error>,

        requires
            transport_takes(
                transport,
                "estimatesmartfee"@,
                estimatesmartfee_params(conf_target, estimate_mode),
            ),
        ensures
            exists|outcome: Result<Response, jsonrpc::Error>|
                {
                    &&& #[trigger] transport_answered(
                        transport,
                        "estimatesmartfee"@,
                        estimatesmartfee_params(conf_target, estimate_mode),
                        outcome,
                    )
                    &&& classified(outcome, |r: Response| decoded_fee(r), result)
                },
    {
        let call = estimatesmartfee_call(conf_target, estimate_mode);
        let request = build_request(&self.client, call);
        assert(request_carries(
            request,
            "estimatesmartfee"@,
            estimatesmartfee_params(conf_target, estimate_mode),
        ));
        let outcome = transport(request);
        assert(transport_answered(
            transport,
            "estimatesmartfee"@,
            estimatesmartfee_params(conf_target, estimate_mode),
            outcome,
        ));
        estimatesmartfee_reply(outcome)
    }

    /// Counts the connections to other nodes.
    pub fn getconnectioncount<F>(&self, transport: F) -> (result: Result<u64, ClientError>) where
        F: FnOnce(Request) -> Result<Response, jsonrpc::Error>,

        requires
            transport_takes(transport, "getconnectioncount"@, Seq::empty()),
        ensures
            exists|outcome: Result<Response, jsonrpc::Error>|
                {
                    &&& #[trigger] transport_answered(
                        transport,
                        "getconnectioncount"@,
                        Seq::empty(),
                        outcome,
                    )
                    &&& classified(outcome, |r: Response| decoded_count(r), result)
                },
    {
        let call = getconnectioncount_call();
        let request = build_request(&self.client, call);
        assert(request_carries(request, "getconnectioncount"@, Seq::empty()));
        let outcome = transport(request);
        assert(transport_answered(transport, "getconnectioncount"@, Seq::empty(), outcome));
        getconnectioncount_reply(outcome)
    }

    /// Asks the node to ping its peers.
    pub fn ping<F>(&self, transport: F) -> (result: Result<(), ClientError>) where
        F: FnOnce(Request) -> Result<Response, jsonrpc::Error>,

        requires
            transport_takes(transport, "ping"@, Seq::empty()),
        ensures
            exists|outcome: Result<Response, jsonrpc::Error>|
                {
                    &&& #[trigger] transport_answered(
                        transport,
                        "ping"@,
                        Seq::empty(),
                        outcome,
                    )
                    &&& classified(outcome, |r: Response| decoded_unit(r), result)
                },
    {
        let call = ping_call();
        let request = build_request(&self.client, call);
        assert(request_carries(request, "ping"@, Seq::empty()));
        let outcome = transport(request);
        assert(transport_answered(transport, "ping"@, Seq::empty(), outcome));
        ping_reply(outcome)
    }

    /// Reads the state of the node's peer-to-peer networking.
    pub fn getnetworkinfo<F>(&self, transport: F) -> (result: Result<NetworkInfo, ClientError>) where
        F: FnOnce(Request) -> Result<Response, jsonrpc::Error>,

        requires
            transport_takes(transport, "getnetworkinfo"@, Seq::empty()),
        ensures
            exists|outcome: Result<Response, jsonrpc::Error>|
                {
                    &&& #[trigger] transport_answered(
                        transport,
                        "getnetworkinfo"@,
                        Seq::empty(),
                        outcome,
                    )
                    &&& classified(outcome, |r: Response| decoded_network(r), result)
                },
    {
        let call = getnetworkinfo_call();
        let request = build_request(&self.client, call);
        assert(request_carries(request, "getnetworkinfo"@, Seq::empty()));
        let outcome = transport(request);
        assert(transport_answered(transport, "getnetworkinfo"@, Seq::empty(), outcome));
        getnetworkinfo_reply(outcome)
    }

    /// Submits a raw transaction to the node and the network.
    pub fn sendrawtransaction<F>(
        &self,
        tx: &Transaction,
        allowhighfees: Option<bool>,
        transport: F,
    ) -> (result: Result<Sha256dHash, ClientError>) where
        F: FnOnce(Request) -> Result<Response, jsonrpc::Error>,

        requires
            transport_takes(
                transport,
                "sendrawtransaction"@,
                sendrawtransaction_params(*tx, allowhighfees),
            ),
        ensures
            exists|outcome: Result<Response, jsonrpc::Error>|
                {
                    &&& #[trigger] transport_answered(
                        transport,
                        "sendrawtransaction"@,
                        sendrawtransaction_params(*tx, allowhighfees),
                        outcome,
                    )
                    &&& submission_classified(outcome, result)
                },
    {
        let call = sendrawtransaction_call(tx, allowhighfees);
        let request = build_request(&self.client, call);
        assert(request_carries(
            request,
            "sendrawtransaction"@,
            sendrawtransaction_params(*tx, allowhighfees),
        ));
        let outcome = transport(request);
        assert(transport_answered(
            transport,
            "sendrawtransaction"@,
            sendrawtransaction_params(*tx, allowhighfees),
            outcome,
        ));
        sendrawtransaction_reply(outcome)
    }
}

} // verus!
