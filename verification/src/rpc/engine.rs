//! What the bare service does with a request, short of reading it from the
//! connection and writing the answer to it.

use vstd::prelude::*;
use crate::rpc::method_names::{
    ETH_BLOCK_NUMBER, ETH_GET_BALANCE, NET_VERSION, WEB3CLIENT_VERSION,
};
use crate::rpc::methods::{
    answers, EthBlockNumber, EthGetBalance, NetVersion, Web3ClientVersion,
};
use crate::rpc::response::RpcStringResponse;

verus! {

/// What the service does once it has cut a request at its first empty line.
#[derive(Clone, Copy, Debug, PartialEq, Eq, Structural)]
pub enum BodyAction {
    /// There is no body: the request is dropped.
    Drop,
    /// The body is empty: the service says what it allows.
    Options,
    /// The body is to be read as JSON.
    Parse,
}

/// What the service does with the body of a request, `None` standing for a
/// request without an empty line.
pub fn body_action(body: Option<&str>) -> (r: BodyAction)
    ensures
        r == (match body {
            None => BodyAction::Drop,
            Some(text) => if text@.len() == 0 {
                BodyAction::Options
            } else {
                BodyAction::Parse
            },
        }),
{
    match body {
        None => BodyAction::Drop,
        Some(text) => {
            if text.is_empty() {
                BodyAction::Options
            } else {
                BodyAction::Parse
            }
        },
    }
}

/// The account whose balance the service reports.
pub const BALANCE_ACCOUNT: [u8; 20] = [
    0x21, 0xd8, 0x6d, 0x3d, 0x81, 0xc9, 0xb3, 0xd8, 0x57, 0x7b, 0xb2, 0xbf, 0x57, 0x9b, 0x9b, 0xa8,
    0xaa, 0xef, 0x36, 0x7a,
];

/// The text with which the service answers a method, if it answers it.
pub open spec fn service_answer(method: Seq<char>) -> Option<Seq<char>> {
    if method == WEB3CLIENT_VERSION@ {
        Some("Biiot/v0.1.0/windows/rust1.52"@)
    } else if method == NET_VERSION@ {
        Some("9"@)
    } else if method == ETH_BLOCK_NUMBER@ {
        Some("0x0"@)
    } else if method == ETH_GET_BALANCE@ {
        Some("0x00"@)
    } else {
        None
    }
}

/// The number under which the service answers: 1 for the version of the
/// node, the number of the request for every other method.
pub open spec fn answer_id(method: Seq<char>, id: u64) -> u64 {
    if method == WEB3CLIENT_VERSION@ {
        1
    } else {
        id
    }
}

/// The answer of the service to a request that names the method `method`
/// under the number `id`; nothing where either is missing and for a
/// method that the service does not answer.
pub fn method_reply(method: Option<&str>, id: Option<u64>) -> (r: Option<RpcStringResponse>)
    ensures
        r.is_some() == (method.is_some() && id.is_some() && service_answer(
            method.unwrap()@,
        ).is_some()),
        r.is_some() ==> answers(
            r.unwrap(),
            answer_id(method.unwrap()@, id.unwrap()),
            service_answer(method.unwrap()@).unwrap(),
        ),
{
    let (name, number) = match (method, id) {
        (Some(m), Some(i)) => (m, i),
        _ => {
            return None;
        },
    };
    let wanted = name.to_owned();
    if wanted == WEB3CLIENT_VERSION.to_owned() {
        Some(Web3ClientVersion::new(&1).receive())
    } else if wanted == NET_VERSION.to_owned() {
        Some(NetVersion::new(&number).receive())
    } else if wanted == ETH_BLOCK_NUMBER.to_owned() {
        Some(EthBlockNumber::new(&number).receive())
    } else if wanted == ETH_GET_BALANCE.to_owned() {
        Some(EthGetBalance::new(&number, &BALANCE_ACCOUNT).receive())
    } else {
        None
    }
}

} // verus!
