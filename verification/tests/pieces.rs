use bitcoin::blockdata::transaction::Transaction;
use bitcoin::util::hash::Sha256dHash;
use bitcoin_rpc::call::{
    estimatesmartfee_call, getconnectioncount_call, getnetworkinfo_call, ping_call, plain_call,
    positional_params, sendrawtransaction_call,
};
use bitcoin_rpc::error::ErrorKind;
use bitcoin_rpc::reply::{
    decode_checked, estimatesmartfee_reply, getconnectioncount_reply, getnetworkinfo_reply,
    hash_checked, ping_reply, sendrawtransaction_reply, transport_checked,
};
use bitcoin_rpc_json::mining::EstimateMode;
use jsonrpc::Response;
use strason::Json;

fn reply(result: Option<Json>) -> Response {
    Response { result, error: None, id: Json::from(1u64), jsonrpc: Some("2.0".to_string()) }
}

#[test]
fn fixed_calls_carry_no_parameters() {
    for (call, name) in vec![
        (ping_call(), "ping"),
        (getconnectioncount_call(), "getconnectioncount"),
        (getnetworkinfo_call(), "getnetworkinfo"),
        (plain_call("uptime"), "uptime"),
    ] {
        assert_eq!(call.method, name);
        assert!(call.params.is_empty());
    }
}

#[test]
fn fee_call_encodes_each_mode_by_name() {
    let unset = estimatesmartfee_call(1, Some(EstimateMode::Unset));
    assert_eq!(unset.params[1].string(), Some("UNSET"));
    let economical = estimatesmartfee_call(65535, Some(EstimateMode::Economical));
    assert_eq!(economical.params[0].num(), Some("65535"));
    assert_eq!(economical.params[1].string(), Some("ECONOMICAL"));
    let none = estimatesmartfee_call(0, None);
    assert_eq!(none.params, vec![Json::from(0u16)]);
}

#[test]
fn submission_call_counts_required_then_optional() {
    let tx = Transaction { version: 2, lock_time: 0, input: vec![], output: vec![] };
    let alone = sendrawtransaction_call(&tx, None);
    assert_eq!(alone.method, "sendrawtransaction");
    assert_eq!(alone.params, vec![Json::from("02000000000000000000")]);
    let both = sendrawtransaction_call(&tx, Some(false));
    assert_eq!(both.params, vec![Json::from("02000000000000000000"), Json::from(false)]);
}

fn required_pair() -> Vec<Json> {
    vec![Json::from(1u16), Json::from("two")]
}

#[test]
fn omitting_every_optional_leaves_the_required() {
    let params = positional_params(required_pair(), vec![None, None]);
    assert_eq!(params, required_pair());
    assert_eq!(positional_params(required_pair(), vec![]), required_pair());
    assert_eq!(positional_params(vec![], vec![None]), Vec::<Json>::new());
}

#[test]
fn supplying_the_first_optional_adds_one() {
    let params = positional_params(required_pair(), vec![Some(Json::from(true)), None]);
    assert_eq!(params.len(), 3);
    assert_eq!(params, vec![Json::from(1u16), Json::from("two"), Json::from(true)]);
}

#[test]
fn supplying_every_optional_adds_them_in_order() {
    let params = positional_params(
        required_pair(),
        vec![Some(Json::from(true)), Some(Json::from(4u16)), Some(Json::from("five"))],
    );
    assert_eq!(params.len(), 5);
    assert_eq!(
        params,
        vec![
            Json::from(1u16),
            Json::from("two"),
            Json::from(true),
            Json::from(4u16),
            Json::from("five"),
        ]
    );
}

#[test]
fn nothing_is_supplied_after_an_omitted_parameter() {
    let params = positional_params(required_pair(), vec![None, Some(Json::from(true))]);
    assert_eq!(params, required_pair());
    let params = positional_params(
        required_pair(),
        vec![Some(Json::from(3u16)), None, Some(Json::from(true))],
    );
    assert_eq!(params, vec![Json::from(1u16), Json::from("two"), Json::from(3u16)]);
}

#[test]
fn transport_checked_passes_a_reply_on() {
    let passed = transport_checked(Ok(reply(Some(Json::from(3u64))))).unwrap();
    assert_eq!(passed, reply(Some(Json::from(3u64))));
    let e = transport_checked(Err(jsonrpc::Error::VersionMismatch)).unwrap_err();
    assert_eq!(e.desc, "RPC error");
    assert!(matches!(e.kind, ErrorKind::JsonRpc(jsonrpc::Error::VersionMismatch)));
}

#[test]
fn decode_checked_passes_a_value_on() {
    assert_eq!(decode_checked(Ok(17u64)).unwrap(), 17);
    let e = decode_checked::<u64>(Err(jsonrpc::Error::NoErrorOrResult)).unwrap_err();
    assert_eq!(e.desc, "Malformed response");
    assert!(matches!(e.kind, ErrorKind::JsonRpc(jsonrpc::Error::NoErrorOrResult)));
}

#[test]
fn hash_checked_parses_sixty_four_digits() {
    let hex = "00000000000000000000000000000000000000000000000000000000000000ff";
    let hash = hash_checked(Ok(hex.to_string())).unwrap();
    assert_eq!(hash, Sha256dHash::from_hex(hex).unwrap());
    assert_eq!(hash[0], 0xff);
    let upper = "00000000000000000000000000000000000000000000000000000000000000FF";
    assert_eq!(hash_checked(Ok(upper.to_string())).unwrap(), hash);
}

#[test]
fn hash_checked_rejects_bad_length_and_bad_digits() {
    let short = hash_checked(Ok("ff".to_string())).unwrap_err();
    assert!(matches!(short.kind, ErrorKind::Other));
    assert_eq!(short.desc, "Malformed response");
    let bad = "g0000000000000000000000000000000000000000000000000000000000000ff";
    let e = hash_checked(Ok(bad.to_string())).unwrap_err();
    assert!(matches!(e.kind, ErrorKind::Other));
    let e = hash_checked(Err(jsonrpc::Error::NoErrorOrResult)).unwrap_err();
    assert!(matches!(e.kind, ErrorKind::JsonRpc(jsonrpc::Error::NoErrorOrResult)));
    assert_eq!(e.desc, "Malformed response");
}

#[test]
fn replies_decode_by_command() {
    assert!(ping_reply(Ok(reply(Some(Json::from(()))))).is_ok());
    assert_eq!(getconnectioncount_reply(Ok(reply(Some(Json::from(125u64))))).unwrap(), 125);
    let fee = estimatesmartfee_reply(Ok(reply(Some(
        Json::from_str("{\"errors\": [\"Insufficient data\"], \"blocks\": 2}").unwrap(),
    ))))
    .unwrap();
    assert_eq!(fee.blocks, 2);
    assert_eq!(fee.errors, Some(vec!["Insufficient data".to_string()]));
    assert!(fee.feerate.is_none());
    let txid = "000000000019d6689c085ae165831e934ff763ae46a2a6c172b3f1b60a8ce26f";
    let hash = sendrawtransaction_reply(Ok(reply(Some(Json::from(txid))))).unwrap();
    assert_eq!(hash.be_hex_string(), txid);
}

#[test]
fn replies_classify_both_failures() {
    let e = getnetworkinfo_reply(Err(jsonrpc::Error::NonceMismatch)).unwrap_err();
    assert_eq!(e.desc, "RPC error");
    let e = getnetworkinfo_reply(Ok(reply(Some(Json::from(1u64))))).unwrap_err();
    assert_eq!(e.desc, "Malformed response");
    assert!(matches!(e.kind, ErrorKind::JsonRpc(jsonrpc::Error::Json(_))));
    let e = ping_reply(Ok(reply(None))).unwrap_err();
    assert_eq!(e.desc, "Malformed response");
}
