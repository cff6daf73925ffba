//! Remote calls: a method name and its positional parameters.

use vstd::prelude::*;
use strason::Json;
use bitcoin_rpc_json::mining::EstimateMode;
use bitcoin::blockdata::transaction::Transaction;
use crate::encode::{
    encode_flag, encode_mode, encode_number, encode_text, encode_transaction, flag_json,
    mode_json, number_json, text_json, transaction_hex,
};

verus! {

/// A remote call ready for the transport.
pub struct Call {
    /// The method name, exactly as the remote service knows it.
    pub method: String,
    /// The encoded parameters, by position.
    pub params: Vec<Json>,
}

impl Call {
    /// The call names `method` and carries exactly `params`.
    pub open spec fn carries(&self, method: Seq<char>, params: Seq<Json>) -> bool {
        self.method@ == method && self.params@ == params
    }
}

/// The values of the leading run of present optional parameters.
pub open spec fn supplied(optional: Seq<Option<Json>>) -> Seq<Json>
    decreases optional.len(),
{
    if optional.len() == 0 || optional[0] is None {
        Seq::empty()
    } else {
        seq![optional[0]->Some_0] + supplied(optional.drop_first())
    }
}

/// Optional parameters respect the positional protocol: none is supplied
/// after an omitted one.
pub open spec fn trailing_omission(optional: Seq<Option<Json>>) -> bool {
    forall|i: int, j: int|
        0 <= i < j < optional.len() && optional[j] is Some ==> optional[i] is Some
}

/// The parameter list of a call: the required parameters in declared order,
/// then the supplied optional ones in declared order.
pub open spec fn positional(required: Seq<Json>, optional: Seq<Option<Json>>) -> Seq<Json> {
    required + supplied(optional)
}

/// The supplied values are the leading run of present optional parameters:
/// each stands at the position of its parameter, and the run ends at the
/// first omitted one.
pub proof fn lemma_supplied_is_leading_run(optional: Seq<Option<Json>>)
    ensures
        supplied(optional).len() <= optional.len(),
        forall|i: int|
            0 <= i < supplied(optional).len() ==> (#[trigger] optional[i]) is Some
                && supplied(optional)[i] == optional[i]->Some_0,
        supplied(optional).len() < optional.len() ==> optional[
            supplied(optional).len() as int
        ] is None,
    decreases optional.len(),
{
    if optional.len() == 0 || optional[0] is None {
    } else {
        let rest = optional.drop_first();
        lemma_supplied_is_leading_run(rest);
        assert forall|i: int| 0 <= i < supplied(optional).len() implies (#[trigger] optional[i])
            is Some && supplied(optional)[i] == optional[i]->Some_0 by {
            if i > 0 {
                assert(rest[i - 1] == optional[i]);
                assert(supplied(optional)[i] == supplied(rest)[i - 1]);
            }
        }
        if supplied(optional).len() < optional.len() {
            assert(rest[supplied(rest).len() as int] == optional[supplied(optional).len() as int]);
        }
    }
}

/// Where the optional parameters respect the positional protocol, every
/// present one is supplied: a parameter is present exactly if its position
/// lies within the supplied run.
pub proof fn lemma_nothing_dropped(optional: Seq<Option<Json>>)
    requires
        trailing_omission(optional),
    ensures
        forall|i: int|
            0 <= i < optional.len() ==> ((#[trigger] optional[i]) is Some <==> i < supplied(
                optional,
            ).len()),
{
    lemma_supplied_is_leading_run(optional);
    let n = supplied(optional).len() as int;
    assert forall|i: int| 0 <= i < optional.len() implies ((#[trigger] optional[i]) is Some <==> i
        < n) by {
        if i >= n && optional[i] is Some {
            if i > n {
                assert(optional[n] is Some);
            }
        }
    }
}

/// Omitting every optional parameter gives exactly the required
/// parameters, in declared order.
pub proof fn lemma_all_omitted(required: Seq<Json>, optional: Seq<Option<Json>>)
    requires
        forall|i: int| 0 <= i < optional.len() ==> (#[trigger] optional[i]) is None,
    ensures
        positional(required, optional) == required,
        positional(required, optional).len() == required.len(),
{
    lemma_supplied_is_leading_run(optional);
    if supplied(optional).len() > 0 {
        assert(optional[0] is Some);
    }
    assert(positional(required, optional) =~= required);
}

/// Supplying the first optional parameter only gives the required
/// parameters followed by that one.
pub proof fn lemma_first_supplied(required: Seq<Json>, optional: Seq<Option<Json>>)
    requires
        optional.len() >= 1,
        optional[0] is Some,
        forall|i: int| 1 <= i < optional.len() ==> (#[trigger] optional[i]) is None,
    ensures
        positional(required, optional) == required.push(optional[0]->Some_0),
        positional(required, optional).len() == required.len() + 1,
{
    lemma_supplied_is_leading_run(optional);
    let n = supplied(optional).len() as int;
    if n > 1 {
        assert(optional[1] is Some);
    }
    if n < 1 {
        assert(optional[n] is None);
    }
    assert(positional(required, optional) =~= required.push(optional[0]->Some_0));
}

/// Supplying every optional parameter gives the required parameters
/// followed by all the optional ones, each in declared order.
pub proof fn lemma_all_supplied(required: Seq<Json>, optional: Seq<Option<Json>>)
    requires
        forall|i: int| 0 <= i < optional.len() ==> (#[trigger] optional[i]) is Some,
    ensures
        positional(required, optional).len() == required.len() + optional.len(),
        forall|i: int|
            0 <= i < required.len() ==> positional(required, optional)[i] == required[i],
        forall|i: int|
            0 <= i < optional.len() ==> positional(required, optional)[required.len() + i]
                == (#[trigger] optional[i])->Some_0,
{
    lemma_supplied_is_leading_run(optional);
    let n = supplied(optional).len() as int;
    if n < optional.len() {
        assert(optional[n] is None);
    }
}

/// Appending one more optional parameter extends the supplied run only
/// where nothing before it was omitted and it is present itself.
proof fn lemma_supplied_push(optional: Seq<Option<Json>>, next: Option<Json>)
    ensures
        supplied(optional.push(next)) == if supplied(optional).len() == optional.len()
            && next is Some {
            supplied(optional).push(next->Some_0)
        } else {
            supplied(optional)
        },
    decreases optional.len(),
{
    lemma_supplied_is_leading_run(optional);
    if optional.len() == 0 {
        assert(optional.push(next).drop_first() =~= Seq::<Option<Json>>::empty());
        assert(supplied(optional.push(next).drop_first()) =~= Seq::<Json>::empty());
        assert(supplied(optional.push(next)) =~= if next is Some {
            seq![next->Some_0]
        } else {
            Seq::empty()
        });
    } else if optional[0] is Some {
        let rest = optional.drop_first();
        lemma_supplied_push(rest, next);
        lemma_supplied_is_leading_run(rest);
        assert(optional.push(next).drop_first() =~= rest.push(next));
        assert(supplied(optional.push(next)) =~= seq![optional[0]->Some_0] + supplied(
            rest.push(next),
        ));
        if supplied(optional).len() == optional.len() && next is Some {
            assert(supplied(optional.push(next)) =~= supplied(optional).push(next->Some_0));
        }
    }
}

/// Builds a parameter list: the required parameters in declared order, then
/// the optional ones in declared order up to the first omitted one. Nothing
/// is sent for a parameter that follows an omitted one: its position would
/// be taken for an earlier parameter's.
pub fn positional_params(required: Vec<Json>, optional: Vec<Option<Json>>) -> (params: Vec<Json>)
    ensures
        params@ == positional(required@, optional@),
{
    let ghost head = required@;
    let ghost tail = optional@;
    let mut params = required;
    let mut open = true;
    for item in it: optional.into_iter()
        invariant
            it.seq() == tail,
            params@ == head + supplied(tail.take(it.index() as int)),
            open <==> supplied(tail.take(it.index() as int)).len() == it.index(),
    {
        proof {
            let seen = tail.take(it.index() as int);
            lemma_supplied_push(seen, item);
            lemma_supplied_is_leading_run(seen);
            assert(tail.take(it.index() + 1) =~= seen.push(item));
        }
        match item {
            Some(value) => {
                if open {
                    params.push(value);
                }
            },
            None => {
                open = false;
            },
        }
    }
    proof {
        assert(tail.take(tail.len() as int) =~= tail);
    }
    params
}

/// The optional estimation mode as an optional encoded parameter.
pub open spec fn mode_param(mode: Option<EstimateMode>) -> Option<Json> {
    match mode {
        Some(m) => Some(mode_json(m)),
        None => None,
    }
}

/// The optional allow-high-fees flag as an optional encoded parameter.
pub open spec fn flag_param(flag: Option<bool>) -> Option<Json> {
    match flag {
        Some(b) => Some(flag_json(b)),
        None => None,
    }
}

/// Parameters of `estimatesmartfee`: the confirmation target, then the
/// estimation mode if one is given.
pub open spec fn estimatesmartfee_params(conf_target: u16, mode: Option<EstimateMode>) -> Seq<
    Json,
> {
    positional(seq![number_json(conf_target)], seq![mode_param(mode)])
}

/// Parameters of `sendrawtransaction`: the transaction in hexadecimal, then
/// the allow-high-fees flag if one is given.
pub open spec fn sendrawtransaction_params(tx: Transaction, allowhighfees: Option<bool>) -> Seq<
    Json,
> {
    positional(seq![text_json(transaction_hex(tx))], seq![flag_param(allowhighfees)])
}

/// `estimatesmartfee` sends the confirmation target alone, or the target
/// followed by the estimation mode.
pub proof fn lemma_estimatesmartfee_shape(conf_target: u16, mode: Option<EstimateMode>)
    ensures
        mode is None ==> estimatesmartfee_params(conf_target, mode) == seq![
            number_json(conf_target),
        ],
        mode is Some ==> estimatesmartfee_params(conf_target, mode) == seq![
            number_json(conf_target),
            mode_json(mode->Some_0),
        ],
{
    let optional = seq![mode_param(mode)];
    if mode is None {
        lemma_all_omitted(seq![number_json(conf_target)], optional);
    } else {
        lemma_first_supplied(seq![number_json(conf_target)], optional);
        assert(estimatesmartfee_params(conf_target, mode) =~= seq![
            number_json(conf_target),
            mode_json(mode->Some_0),
        ]);
    }
}

/// `sendrawtransaction` sends the transaction's hexadecimal encoding alone,
/// or the encoding followed by the allow-high-fees flag.
pub proof fn lemma_sendrawtransaction_shape(tx: Transaction, allowhighfees: Option<bool>)
    ensures
        allowhighfees is None ==> sendrawtransaction_params(tx, allowhighfees) == seq![
            text_json(transaction_hex(tx)),
        ],
        allowhighfees is Some ==> sendrawtransaction_params(tx, allowhighfees) == seq![
            text_json(transaction_hex(tx)),
            flag_json(allowhighfees->Some_0),
        ],
{
    let optional = seq![flag_param(allowhighfees)];
    if allowhighfees is None {
        lemma_all_omitted(seq![text_json(transaction_hex(tx))], optional);
    } else {
        lemma_first_supplied(seq![text_json(transaction_hex(tx))], optional);
        assert(sendrawtransaction_params(tx, allowhighfees) =~= seq![
            text_json(transaction_hex(tx)),
            flag_json(allowhighfees->Some_0),
        ]);
    }
}

/// A call without parameters.
pub fn plain_call(method: &str) -> (call: Call)
    ensures
        call.carries(method@, Seq::empty()),
{
    Call { method: method.to_owned(), params: Vec::new() }
}

/// The `getconnectioncount` call.
pub fn getconnectioncount_call() -> (call: Call)
    ensures
        call.carries("getconnectioncount"@, Seq::empty()),
{
    plain_call("getconnectioncount")
}

/// The `ping` call.
pub fn ping_call() -> (call: Call)
    ensures
        call.carries("ping"@, Seq::empty()),
{
    plain_call("ping")
}

/// The `getnetworkinfo` call.
pub fn getnetworkinfo_call() -> (call: Call)
    ensures
        call.carries("getnetworkinfo"@, Seq::empty()),
{
    plain_call("getnetworkinfo")
}

/// The `estimatesmartfee` call.
pub fn estimatesmartfee_call(conf_target: u16, estimate_mode: Option<EstimateMode>) -> (call: Call)
    ensures
        call.carries("estimatesmartfee"@, estimatesmartfee_params(conf_target, estimate_mode)),
{
    let required = vec![encode_number(conf_target)];
    let mode = match estimate_mode {
        Some(m) => Some(encode_mode(m)),
        None => None,
    };
    let optional = vec![mode];
    assert(required@ =~= seq![number_json(conf_target)]);
    assert(optional@ =~= seq![mode_param(estimate_mode)]);
    let params = positional_params(required, optional);
    Call { method: "estimatesmartfee".to_owned(), params }
}

/// The `sendrawtransaction` call.
pub fn sendrawtransaction_call(tx: &Transaction, allowhighfees: Option<bool>) -> (call: Call)
    ensures
        call.carries("sendrawtransaction"@, sendrawtransaction_params(*tx, allowhighfees)),
{
    let rawtx = encode_transaction(tx);
    let required = vec![encode_text(rawtx)];
    let flag = match allowhighfees {
        Some(b) => Some(encode_flag(b)),
        None => None,
    };
    let optional = vec![flag];
    assert(required@ =~= seq![text_json(transaction_hex(*tx))]);
    assert(optional@ =~= seq![flag_param(allowhighfees)]);
    let params = positional_params(required, optional);
    Call { method: "sendrawtransaction".to_owned(), params }
}

} // verus!
