//! Requests of the JSON-RPC interface.

use vstd::prelude::*;

verus! {

/// A request without parameters.
pub struct RpcEmptyRequest {
    pub id: u64,
    pub jsonrpc: String,
    pub method: String,
    pub params: Vec<u8>,
}

impl RpcEmptyRequest {
    /// A request without parameters.
    pub fn new(id: &u64, jsonrpc: &str, method: &str) -> (r: RpcEmptyRequest)
        ensures
            r.id == *id,
            r.jsonrpc@ == jsonrpc@,
            r.method@ == method@,
            r.params@ == Seq::<u8>::empty(),
    {
        RpcEmptyRequest {
            id: *id,
            jsonrpc: jsonrpc.to_owned(),
            method: method.to_owned(),
            params: Vec::new(),
        }
    }
}

/// The strings as character strings.
pub open spec fn string_views(v: Seq<String>) -> Seq<Seq<char>> {
    Seq::new(v.len(), |i: int| v[i]@)
}

/// A request whose parameters are strings.
pub struct RpcStringsRequest {
    pub id: u64,
    pub jsonrpc: String,
    pub method: String,
    pub params: Vec<String>,
}

impl RpcStringsRequest {
    /// A request with a copy of each of `params` as its parameters.
    pub fn new(id: &u64, jsonrpc: &str, method: &str, params: &Vec<String>) -> (r:
        RpcStringsRequest)
        ensures
            r.id == *id,
            r.jsonrpc@ == jsonrpc@,
            r.method@ == method@,
            string_views(r.params@) == string_views(params@),
    {
        let mut str_params: Vec<String> = Vec::new();
        let mut i: usize = 0;
        while i < params.len()
            invariant
                i <= params@.len(),
                str_params@.len() == i,
                forall|j: int| 0 <= j < i ==> (#[trigger] str_params@[j])@ == params@[j]@,
            decreases params.len() - i,
        {
            str_params.push(params[i].clone());
            i += 1;
        }
        assert(string_views(str_params@) =~= string_views(params@));
        RpcStringsRequest {
            id: *id,
            jsonrpc: jsonrpc.to_owned(),
            method: method.to_owned(),
            params: str_params,
        }
    }
}

/// A request whose parameters are numbers.
pub struct RpcIntegersRequest {
    pub id: u64,
    pub jsonrpc: String,
    pub method: String,
    pub params: Vec<usize>,
}

impl RpcIntegersRequest {
    /// A request with `params` as its parameters.
    pub fn new(id: &u64, jsonrpc: String, method: String, params: Vec<usize>) -> (r:
        RpcIntegersRequest)
        ensures
            r.id == *id,
            r.jsonrpc == jsonrpc,
            r.method == method,
            r.params == params,
    {
        RpcIntegersRequest { id: *id, jsonrpc, method, params }
    }
}

} // verus!
