//! Which method of the JSON-RPC interface a request asks for, and what the
//! node answers.

use vstd::prelude::*;
use crate::http::status::HttpStatusCode;
use crate::rpc::method_names::{
    ETH_ACCOUNTS, ETH_BLOCK_NUMBER, ETH_CALL, ETH_COINBASE, ETH_ESTIMATE_GAS, ETH_GAS_PRICE,
    ETH_GET_BALANCE, ETH_GET_BLOCK_TX_COUNT_BY_HASH, ETH_GET_BLOCK_TX_COUNT_BY_NUMBER, ETH_GET_CODE,
    ETH_GET_SIGN, ETH_GET_TX_COUNT, ETH_GET_UNCLE_COUNT_BY_BLOCK_HASH,
    ETH_GET_UNCLE_COUNT_BY_BLOCK_NUMBER, ETH_HASHRATE, ETH_MINING, ETH_PROTOCOL_VERSION,
    ETH_SEND_RAW_TX, ETH_SEND_TX, ETH_SIGN_TX, ETH_STORAGE_AT, ETH_SYNCING, NET_LISTENING,
    NET_PEER_COUNT, NET_VERSION, WEB3CLIENT_VERSION, WEB3SHA3,
};
use crate::rpc::methods::{
    answers, EthBlockNumber, EthEstimatedGas, EthGasPrice, EthGetBalance, EthGetTransactionCount,
    EthProtocolVersion, EthSendRawTransaction, NetVersion, Web3ClientVersion,
};
use crate::rpc::request::{RpcEmptyRequest, RpcStringsRequest};
use crate::rpc::response::RpcStringResponse;

verus! {

/// What the node does about a method.
pub enum Answer {
    /// It answers with this text.
    Text(Seq<char>),
    /// It knows the method and has nothing to say.
    Silent,
    /// It does not know the method.
    Unknown,
}

/// What the node does about the method named `method`.
pub open spec fn answer_of(method: Seq<char>) -> Answer {
    if method == WEB3CLIENT_VERSION@ {
        Answer::Text("Biiot/v0.1.0/windows/rust1.52"@)
    } else if method == NET_VERSION@ {
        Answer::Text("9"@)
    } else if method == ETH_PROTOCOL_VERSION@ {
        Answer::Text("54"@)
    } else if method == ETH_GAS_PRICE@ {
        Answer::Text("0x00"@)
    } else if method == ETH_BLOCK_NUMBER@ {
        Answer::Text("0x0"@)
    } else if method == ETH_GET_BALANCE@ {
        Answer::Text("0x00"@)
    } else if method == ETH_GET_TX_COUNT@ {
        Answer::Text("0x1"@)
    } else if method == ETH_SEND_RAW_TX@ {
        Answer::Text("0x0000000000000000000000000000000000000000000000000000000000000000"@)
    } else if method == ETH_ESTIMATE_GAS@ {
        Answer::Text("0x5208"@)
    } else if method == WEB3SHA3@
        || method == NET_LISTENING@
        || method == NET_PEER_COUNT@
        || method == ETH_SYNCING@
        || method == ETH_COINBASE@
        || method == ETH_MINING@
        || method == ETH_HASHRATE@
        || method == ETH_ACCOUNTS@
        || method == ETH_STORAGE_AT@
        || method == ETH_GET_BLOCK_TX_COUNT_BY_HASH@
        || method == ETH_GET_BLOCK_TX_COUNT_BY_NUMBER@
        || method == ETH_GET_UNCLE_COUNT_BY_BLOCK_HASH@
        || method == ETH_GET_UNCLE_COUNT_BY_BLOCK_NUMBER@
        || method == ETH_GET_CODE@
        || method == ETH_GET_SIGN@
        || method == ETH_SIGN_TX@
        || method == ETH_SEND_TX@
        || method == ETH_CALL@ {
        Answer::Silent
    } else {
        Answer::Unknown
    }
}

/// Whether the two texts are the same.
fn same_text(a: &str, b: &str) -> (r: bool)
    ensures
        r == (a@ == b@),
{
    a.to_owned() == b.to_owned()
}

/// Whether `method` is one of the methods that the node knows and has
/// nothing to say about.
fn is_silent(method: &str) -> (r: bool)
    ensures
        r == (method@ == WEB3SHA3@
            || method@ == NET_LISTENING@
            || method@ == NET_PEER_COUNT@
            || method@ == ETH_SYNCING@
            || method@ == ETH_COINBASE@
            || method@ == ETH_MINING@
            || method@ == ETH_HASHRATE@
            || method@ == ETH_ACCOUNTS@
            || method@ == ETH_STORAGE_AT@
            || method@ == ETH_GET_BLOCK_TX_COUNT_BY_HASH@
            || method@ == ETH_GET_BLOCK_TX_COUNT_BY_NUMBER@
            || method@ == ETH_GET_UNCLE_COUNT_BY_BLOCK_HASH@
            || method@ == ETH_GET_UNCLE_COUNT_BY_BLOCK_NUMBER@
            || method@ == ETH_GET_CODE@
            || method@ == ETH_GET_SIGN@
            || method@ == ETH_SIGN_TX@
            || method@ == ETH_SEND_TX@
            || method@ == ETH_CALL@),
{
    same_text(method, WEB3SHA3)
        || same_text(method, NET_LISTENING)
        || same_text(method, NET_PEER_COUNT)
        || same_text(method, ETH_SYNCING)
        || same_text(method, ETH_COINBASE)
        || same_text(method, ETH_MINING)
        || same_text(method, ETH_HASHRATE)
        || same_text(method, ETH_ACCOUNTS)
        || same_text(method, ETH_STORAGE_AT)
        || same_text(method, ETH_GET_BLOCK_TX_COUNT_BY_HASH)
        || same_text(method, ETH_GET_BLOCK_TX_COUNT_BY_NUMBER)
        || same_text(method, ETH_GET_UNCLE_COUNT_BY_BLOCK_HASH)
        || same_text(method, ETH_GET_UNCLE_COUNT_BY_BLOCK_NUMBER)
        || same_text(method, ETH_GET_CODE)
        || same_text(method, ETH_GET_SIGN)
        || same_text(method, ETH_SIGN_TX)
        || same_text(method, ETH_SEND_TX)
        || same_text(method, ETH_CALL)
}

/// The status code and the response to a request that came with the number
/// `id`, the method name `method` and the parameters `params`: the code 200
/// with the answer for a method that the node answers, the code 200 and no
/// response for one about which it has nothing to say, the code 404 and no
/// response for one that it does not know. Nothing at all, and so nothing
/// to send, where the number, the method or the parameters are missing.
pub fn rpc_handler(id: Option<u64>, method: Option<&str>, params: Option<&Vec<String>>) -> (r:
    Option<(HttpStatusCode, Option<RpcStringResponse>)>)
    ensures
        r.is_some() == (id.is_some() && method.is_some() && params.is_some()),
        r.is_some() ==> (match answer_of(method.unwrap()@) {
            Answer::Text(text) => r.unwrap().0 == HttpStatusCode::Okay && r.unwrap().1.is_some()
                && answers(r.unwrap().1.unwrap(), id.unwrap(), text),
            Answer::Silent => r.unwrap().0 == HttpStatusCode::Okay && r.unwrap().1.is_none(),
            Answer::Unknown => r.unwrap().0 == HttpStatusCode::NotFound
                && r.unwrap().1.is_none(),
        }),
{
    let (rpc_id, rpc_method, rpc_params) = match (id, method, params) {
        (Some(i), Some(m), Some(p)) => (i, m, p),
        _ => {
            return None;
        },
    };
    if same_text(rpc_method, WEB3CLIENT_VERSION) {
        let request = RpcEmptyRequest::new(&rpc_id, "2.0", WEB3CLIENT_VERSION);
        let data = Web3ClientVersion::from_request(request).receive();
        Some((HttpStatusCode::Okay, Some(data)))
    } else if same_text(rpc_method, NET_VERSION) {
        let request = RpcEmptyRequest::new(&rpc_id, "2.0", NET_VERSION);
        let data = NetVersion::from_request(request).receive();
        Some((HttpStatusCode::Okay, Some(data)))
    } else if same_text(rpc_method, ETH_PROTOCOL_VERSION) {
        let request = RpcEmptyRequest::new(&rpc_id, "2.0", ETH_PROTOCOL_VERSION);
        let data = EthProtocolVersion::from_request(request).receive();
        Some((HttpStatusCode::Okay, Some(data)))
    } else if same_text(rpc_method, ETH_GAS_PRICE) {
        let request = RpcEmptyRequest::new(&rpc_id, "2.0", ETH_GAS_PRICE);
        let data = EthGasPrice::from_request(request).receive();
        Some((HttpStatusCode::Okay, Some(data)))
    } else if same_text(rpc_method, ETH_BLOCK_NUMBER) {
        let request = RpcEmptyRequest::new(&rpc_id, "2.0", ETH_BLOCK_NUMBER);
        let data = EthBlockNumber::from_request(request).receive();
        Some((HttpStatusCode::Okay, Some(data)))
    } else if same_text(rpc_method, ETH_GET_BALANCE) {
        let request = RpcStringsRequest::new(&rpc_id, "2.0", ETH_GET_BALANCE, rpc_params);
        let data = EthGetBalance::from_request(request).receive();
        Some((HttpStatusCode::Okay, Some(data)))
    } else if same_text(rpc_method, ETH_GET_TX_COUNT) {
        let request = RpcStringsRequest::new(&rpc_id, "2.0", ETH_GET_TX_COUNT, rpc_params);
        let data = EthGetTransactionCount::from_request(request).receive();
        Some((HttpStatusCode::Okay, Some(data)))
    } else if same_text(rpc_method, ETH_SEND_RAW_TX) {
        let request = RpcStringsRequest::new(&rpc_id, "2.0", ETH_SEND_RAW_TX, rpc_params);
        let data = EthSendRawTransaction::from_request(request).receive();
        Some((HttpStatusCode::Okay, Some(data)))
    } else if same_text(rpc_method, ETH_ESTIMATE_GAS) {
        let request = RpcEmptyRequest::new(&rpc_id, "2.0", ETH_ESTIMATE_GAS);
        let data = EthEstimatedGas::from_request(request).receive();
        Some((HttpStatusCode::Okay, Some(data)))
    } else if is_silent(rpc_method) {
        Some((HttpStatusCode::Okay, None))
    } else {
        Some((HttpStatusCode::NotFound, None))
    }
}

} // verus!
