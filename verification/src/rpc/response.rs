//! Responses of the JSON-RPC interface.

use vstd::prelude::*;
use crate::http::header::texts;
use crate::rpc::request::string_views;

verus! {

/// The version of JSON-RPC that every response names.
pub const RPC_VERSION: &'static str = "2.0";

/// A response whose result is a string.
pub struct RpcStringResponse {
    pub id: u64,
    pub jsonrpc: String,
    pub result: String,
}

impl RpcStringResponse {
    /// A response to the request `id`.
    pub fn new(id: u64, result: &str) -> (r: RpcStringResponse)
        ensures
            r.id == id,
            r.jsonrpc@ == RPC_VERSION@,
            r.result@ == result@,
    {
        RpcStringResponse { id, jsonrpc: RPC_VERSION.to_owned(), result: result.to_owned() }
    }
}

/// A response whose result is a truth value.
pub struct RpcBoolResponse {
    pub id: u64,
    pub jsonrpc: String,
    pub result: bool,
}

impl RpcBoolResponse {
    /// A response to the request `id`.
    pub fn new(id: u64, result: bool) -> (r: RpcBoolResponse)
        ensures
            r.id == id,
            r.jsonrpc@ == RPC_VERSION@,
            r.result == result,
    {
        RpcBoolResponse { id, jsonrpc: RPC_VERSION.to_owned(), result }
    }
}

/// A response whose result is a list of strings.
pub struct RpcStringArrayResponse {
    pub id: u64,
    pub jsonrpc: String,
    pub result: Vec<String>,
}

impl RpcStringArrayResponse {
    /// A response to the request `id`, with a copy of each of `result`.
    pub fn new(id: u64, result: &Vec<String>) -> (r: RpcStringArrayResponse)
        ensures
            r.id == id,
            r.jsonrpc@ == RPC_VERSION@,
            string_views(r.result@) == string_views(result@),
    {
        let mut str_result: Vec<String> = Vec::new();
        let mut i: usize = 0;
        while i < result.len()
            invariant
                i <= result@.len(),
                str_result@.len() == i,
                forall|j: int| 0 <= j < i ==> (#[trigger] str_result@[j])@ == result@[j]@,
            decreases result.len() - i,
        {
            str_result.push(result[i].clone());
            i += 1;
        }
        assert(string_views(str_result@) =~= string_views(result@));
        RpcStringArrayResponse { id, jsonrpc: RPC_VERSION.to_owned(), result: str_result }
    }
}

/// A response whose result is a list of named strings.
pub struct RpcMapResponse {
    pub id: u64,
    pub jsonrpc: String,
    pub result: Vec<(String, String)>,
}

impl RpcMapResponse {
    /// A response to the request `id`, with a copy of each pair of `result`.
    pub fn new(id: u64, result: &Vec<(String, String)>) -> (r: RpcMapResponse)
        ensures
            r.id == id,
            r.jsonrpc@ == RPC_VERSION@,
            texts(r.result@) == texts(result@),
    {
        let mut pairs: Vec<(String, String)> = Vec::new();
        let mut i: usize = 0;
        while i < result.len()
            invariant
                i <= result@.len(),
                pairs@.len() == i,
                forall|j: int|
                    0 <= j < i ==> (#[trigger] pairs@[j]).0@ == result@[j].0@ && pairs@[j].1@
                        == result@[j].1@,
            decreases result.len() - i,
        {
            pairs.push((result[i].0.clone(), result[i].1.clone()));
            i += 1;
        }
        assert(texts(pairs@) =~= texts(result@));
        RpcMapResponse { id, jsonrpc: RPC_VERSION.to_owned(), result: pairs }
    }
}

} // verus!
