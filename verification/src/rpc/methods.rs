//! The methods of the JSON-RPC interface: for each the request that asks
//! for it and the response that answers it.

use vstd::prelude::*;
use crate::hash::{keccak256, keccak256_of};
use crate::hexutil::{hex_decoded, hex_encode, hex_text, prefixed_hex, unprefixed_bytes};
use crate::http::header::texts;
use crate::rpc::method_names::{
    ETH_ACCOUNTS, ETH_BLOCK_NUMBER, ETH_CALL, ETH_COINBASE, ETH_GAS_PRICE, ETH_GET_BALANCE,
    ETH_GET_CODE, ETH_GET_TX_COUNT, ETH_HASHRATE, ETH_MINING, ETH_PROTOCOL_VERSION, ETH_SEND_RAW_TX,
    ETH_STORAGE_AT, ETH_SYNCING, NET_LISTENING, NET_PEER_COUNT, NET_VERSION, WEB3CLIENT_VERSION,
    WEB3SHA3,
};
use crate::rpc::request::{string_views, RpcEmptyRequest, RpcStringsRequest};
use crate::rpc::response::{
    RpcBoolResponse, RpcMapResponse, RpcStringArrayResponse, RpcStringResponse, RPC_VERSION,
};
use vstd::utf8::encode_utf8;

verus! {

/// Whether `request` asks for `method` under the number `id`, without parameters.
pub open spec fn asks(request: RpcEmptyRequest, id: u64, method: Seq<char>) -> bool {
    &&& request.id == id
    &&& request.jsonrpc@ == RPC_VERSION@
    &&& request.method@ == method
    &&& request.params@ == Seq::<u8>::empty()
}

/// Whether `request` asks for `method` under the number `id`, with `params`.
pub open spec fn asks_with(
    request: RpcStringsRequest,
    id: u64,
    method: Seq<char>,
    params: Seq<Seq<char>>,
) -> bool {
    &&& request.id == id
    &&& request.jsonrpc@ == RPC_VERSION@
    &&& request.method@ == method
    &&& string_views(request.params@) == params
}

/// Whether `response` answers the request `id` with `result`.
pub open spec fn answers(response: RpcStringResponse, id: u64, result: Seq<char>) -> bool {
    &&& response.id == id
    &&& response.jsonrpc@ == RPC_VERSION@
    &&& response.result@ == result
}

/// The `length` bytes that the parameter at `index` stands for, written as
/// `0x` and hexadecimal digits; nothing where there is no such parameter,
/// where it is not written so, and where it stands for another number of
/// bytes.
pub fn param_bytes(params: &Vec<String>, index: usize, length: usize) -> (r: Option<Vec<u8>>)
    ensures
        r.is_some() == (index < params@.len() && params@[index as int]@.len() >= 2 && {
            let bytes = hex_decoded(
                params@[index as int]@.subrange(2, params@[index as int]@.len() as int),
            );
            bytes.is_some() && bytes.unwrap().len() == length
        }),
        r.is_some() ==> r.unwrap()@ == hex_decoded(
            params@[index as int]@.subrange(2, params@[index as int]@.len() as int),
        ).unwrap(),
{
    if index >= params.len() {
        return None;
    }
    match unprefixed_bytes(params[index].as_str()) {
        Some(bytes) => {
            if bytes.len() == length {
                Some(bytes)
            } else {
                None
            }
        },
        None => None,
    }
}

/// A request for `method` with the text of each of `params`.
fn strings_request(id: &u64, method: &str, params: Vec<String>) -> (r: RpcStringsRequest)
    ensures
        asks_with(r, *id, method@, string_views(params@)),
{
    RpcStringsRequest::new(id, RPC_VERSION, method, &params)
}

/// The version of the node.
pub struct Web3ClientVersion(pub RpcEmptyRequest);

impl Web3ClientVersion {
    /// The request under the number `id`.
    pub fn new(id: &u64) -> (r: Web3ClientVersion)
        ensures
            asks(r.0, *id, WEB3CLIENT_VERSION@),
    {
        Web3ClientVersion(RpcEmptyRequest::new(id, RPC_VERSION, WEB3CLIENT_VERSION))
    }

    /// The method around a request that was received.
    pub fn from_request(request: RpcEmptyRequest) -> (r: Web3ClientVersion)
        ensures
            r.0 == request,
    {
        Web3ClientVersion(request)
    }

    /// The answer: the name and version of the node.
    pub fn receive(&self) -> (r: RpcStringResponse)
        ensures
            answers(r, self.0.id, "Biiot/v0.1.0/windows/rust1.52"@),
    {
        RpcStringResponse::new(self.0.id, "Biiot/v0.1.0/windows/rust1.52")
    }
}

/// The Keccak-256 digest of some data.
pub struct Web3Sha3(pub RpcStringsRequest);

impl Web3Sha3 {
    /// The request under the number `id` for the digest of `data`, which
    /// goes as `0x` and hexadecimal digits.
    pub fn new(id: &u64, data: Vec<u8>) -> (r: Web3Sha3)
        ensures
            asks_with(r.0, *id, WEB3SHA3@, seq![seq!['0', 'x'] + hex_text(data@)]),
    {
        let mut params: Vec<String> = Vec::new();
        params.push(prefixed_hex(data.as_slice()));
        assert(string_views(params@) =~= seq![seq!['0', 'x'] + hex_text(data@)]);
        Web3Sha3(strings_request(id, WEB3SHA3, params))
    }

    /// The method around a request that was received.
    pub fn from_request(request: RpcStringsRequest) -> (r: Web3Sha3)
        ensures
            r.0 == request,
    {
        Web3Sha3(request)
    }

    /// The answer: the digest, in hexadecimal digits, of the UTF-8 bytes of
    /// the first parameter as it stands; nothing for a request without
    /// parameters.
    pub fn receive(&self) -> (r: Option<RpcStringResponse>)
        ensures
            r.is_some() == (self.0.params@.len() > 0),
            r.is_some() ==> answers(
                r.unwrap(),
                self.0.id,
                hex_text(keccak256_of(encode_utf8(self.0.params@[0]@))),
            ),
    {
        if self.0.params.len() == 0 {
            return None;
        }
        let digest = keccak256(self.0.params[0].as_str().as_bytes());
        let result = hex_encode(digest.as_slice());
        Some(RpcStringResponse::new(self.0.id, result.as_str()))
    }
}

/// The number of the network.
pub struct NetVersion(pub RpcEmptyRequest);

impl NetVersion {
    /// The request under the number `id`.
    pub fn new(id: &u64) -> (r: NetVersion)
        ensures
            asks(r.0, *id, NET_VERSION@),
    {
        NetVersion(RpcEmptyRequest::new(id, RPC_VERSION, NET_VERSION))
    }

    /// The method around a request that was received.
    pub fn from_request(request: RpcEmptyRequest) -> (r: NetVersion)
        ensures
            r.0 == request,
    {
        NetVersion(request)
    }

    /// The answer: the network 9.
    pub fn receive(&self) -> (r: RpcStringResponse)
        ensures
            answers(r, self.0.id, "9"@),
    {
        RpcStringResponse::new(self.0.id, "9")
    }
}

/// Whether the node listens for connections.
pub struct NetListening(pub RpcEmptyRequest);

impl NetListening {
    /// The request under the number `id`.
    pub fn new(id: u64) -> (r: NetListening)
        ensures
            asks(r.0, id, NET_LISTENING@),
    {
        NetListening(RpcEmptyRequest::new(&id, RPC_VERSION, NET_LISTENING))
    }

    /// The method around a request that was received.
    pub fn from_request(request: RpcEmptyRequest) -> (r: NetListening)
        ensures
            r.0 == request,
    {
        NetListening(request)
    }

    /// The answer: it does.
    pub fn receive(&self) -> (r: RpcBoolResponse)
        ensures
            r.id == self.0.id,
            r.jsonrpc@ == RPC_VERSION@,
            r.result,
    {
        RpcBoolResponse::new(self.0.id, true)
    }
}

/// The number of peers.
pub struct NetPeerCount(pub RpcEmptyRequest);

impl NetPeerCount {
    /// The request under the number `id`.
    pub fn new(id: &u64) -> (r: NetPeerCount)
        ensures
            asks(r.0, *id, NET_PEER_COUNT@),
    {
        NetPeerCount(RpcEmptyRequest::new(id, RPC_VERSION, NET_PEER_COUNT))
    }

    /// The method around a request that was received.
    pub fn from_request(request: RpcEmptyRequest) -> (r: NetPeerCount)
        ensures
            r.0 == request,
    {
        NetPeerCount(request)
    }

    /// The answer: none.
    pub fn receive(&self) -> (r: RpcStringResponse)
        ensures
            answers(r, self.0.id, "0x00"@),
    {
        RpcStringResponse::new(self.0.id, "0x00")
    }
}

/// The version of the protocol.
pub struct EthProtocolVersion(pub RpcEmptyRequest);

impl EthProtocolVersion {
    /// The request under the number `id`.
    pub fn new(id: &u64) -> (r: EthProtocolVersion)
        ensures
            asks(r.0, *id, ETH_PROTOCOL_VERSION@),
    {
        EthProtocolVersion(RpcEmptyRequest::new(id, RPC_VERSION, ETH_PROTOCOL_VERSION))
    }

    /// The method around a request that was received.
    pub fn from_request(request: RpcEmptyRequest) -> (r: EthProtocolVersion)
        ensures
            r.0 == request,
    {
        EthProtocolVersion(request)
    }

    /// The answer: version 54.
    pub fn receive(&self) -> (r: RpcStringResponse)
        ensures
            answers(r, self.0.id, "54"@),
    {
        RpcStringResponse::new(self.0.id, "54")
    }
}

/// How far the node has come in catching up.
pub struct EthSyncing(pub RpcEmptyRequest);

impl EthSyncing {
    /// The request under the number `id`.
    pub fn new(id: &u64) -> (r: EthSyncing)
        ensures
            asks(r.0, *id, ETH_SYNCING@),
    {
        EthSyncing(RpcEmptyRequest::new(id, RPC_VERSION, ETH_SYNCING))
    }

    /// The method around a request that was received.
    pub fn from_request(request: RpcEmptyRequest) -> (r: EthSyncing)
        ensures
            r.0 == request,
    {
        EthSyncing(request)
    }

    /// The answer: the blocks at which the node started, stands and aims.
    pub fn receive(&self) -> (r: RpcMapResponse)
        ensures
            r.id == self.0.id,
            r.jsonrpc@ == RPC_VERSION@,
            texts(r.result@) == seq![
                ("startingBlock"@, "0x384"@),
                ("currentBlock"@, "0x386"@),
                ("highestBlock"@, "0x454"@),
            ],
    {
        let mut result: Vec<(String, String)> = Vec::new();
        result.push(("startingBlock".to_owned(), "0x384".to_owned()));
        result.push(("currentBlock".to_owned(), "0x386".to_owned()));
        result.push(("highestBlock".to_owned(), "0x454".to_owned()));
        assert(texts(result@) =~= seq![
            ("startingBlock"@, "0x384"@),
            ("currentBlock"@, "0x386"@),
            ("highestBlock"@, "0x454"@),
        ]);
        RpcMapResponse::new(self.0.id, &result)
    }
}

/// The address that the node works for.
pub struct EthCoinbase(pub RpcEmptyRequest);

impl EthCoinbase {
    /// The request under the number `id`.
    pub fn new(id: &u64) -> (r: EthCoinbase)
        ensures
            asks(r.0, *id, ETH_COINBASE@),
    {
        EthCoinbase(RpcEmptyRequest::new(id, RPC_VERSION, ETH_COINBASE))
    }

    /// The method around a request that was received.
    pub fn from_request(request: RpcEmptyRequest) -> (r: EthCoinbase)
        ensures
            r.0 == request,
    {
        EthCoinbase(request)
    }

    /// The answer: `address`, the address of the node's account, as `0x`
    /// and hexadecimal digits.
    pub fn receive(&self, address: &[u8; 20]) -> (r: RpcStringResponse)
        ensures
            answers(r, self.0.id, seq!['0', 'x'] + hex_text(address@)),
    {
        let result = prefixed_hex(address.as_slice());
        RpcStringResponse::new(self.0.id, result.as_str())
    }
}

/// Whether the node makes blocks.
pub struct EthMining(pub RpcEmptyRequest);

impl EthMining {
    /// The request under the number `id`.
    pub fn new(id: &u64) -> (r: EthMining)
        ensures
            asks(r.0, *id, ETH_MINING@),
    {
        EthMining(RpcEmptyRequest::new(id, RPC_VERSION, ETH_MINING))
    }

    /// The method around a request that was received.
    pub fn from_request(request: RpcEmptyRequest) -> (r: EthMining)
        ensures
            r.0 == request,
    {
        EthMining(request)
    }

    /// The answer: it does.
    pub fn receive(&self) -> (r: RpcBoolResponse)
        ensures
            r.id == self.0.id,
            r.jsonrpc@ == RPC_VERSION@,
            r.result,
    {
        RpcBoolResponse::new(self.0.id, true)
    }
}

/// The rate at which the node hashes.
pub struct EthHashrate(pub RpcEmptyRequest);

impl EthHashrate {
    /// The request under the number `id`.
    pub fn new(id: &u64) -> (r: EthHashrate)
        ensures
            asks(r.0, *id, ETH_HASHRATE@),
    {
        EthHashrate(RpcEmptyRequest::new(id, RPC_VERSION, ETH_HASHRATE))
    }

    /// The method around a request that was received.
    pub fn from_request(request: RpcEmptyRequest) -> (r: EthHashrate)
        ensures
            r.0 == request,
    {
        EthHashrate(request)
    }

    /// The answer: zero.
    pub fn receive(&self) -> (r: RpcStringResponse)
        ensures
            answers(r, self.0.id, "0x00"@),
    {
        RpcStringResponse::new(self.0.id, "0x00")
    }
}

/// The price of gas.
pub struct EthGasPrice(pub RpcEmptyRequest);

impl EthGasPrice {
    /// The request under the number `id`.
    pub fn new(id: &u64) -> (r: EthGasPrice)
        ensures
            asks(r.0, *id, ETH_GAS_PRICE@),
    {
        EthGasPrice(RpcEmptyRequest::new(id, RPC_VERSION, ETH_GAS_PRICE))
    }

    /// The method around a request that was received.
    pub fn from_request(request: RpcEmptyRequest) -> (r: EthGasPrice)
        ensures
            r.0 == request,
    {
        EthGasPrice(request)
    }

    /// The answer: zero.
    pub fn receive(&self) -> (r: RpcStringResponse)
        ensures
            answers(r, self.0.id, "0x00"@),
    {
        RpcStringResponse::new(self.0.id, "0x00")
    }
}

/// The accounts of the node.
pub struct EthAccounts(pub RpcEmptyRequest);

impl EthAccounts {
    /// The request under the number `id`.
    pub fn new(id: &u64) -> (r: EthAccounts)
        ensures
            asks(r.0, *id, ETH_ACCOUNTS@),
    {
        EthAccounts(RpcEmptyRequest::new(id, RPC_VERSION, ETH_ACCOUNTS))
    }

    /// The method around a request that was received.
    pub fn from_request(request: RpcEmptyRequest) -> (r: EthAccounts)
        ensures
            r.0 == request,
    {
        EthAccounts(request)
    }

    /// The answer: `accounts`, the addresses of the node's accounts.
    pub fn receive(&self, accounts: &Vec<String>) -> (r: RpcStringArrayResponse)
        ensures
            r.id == self.0.id,
            r.jsonrpc@ == RPC_VERSION@,
            string_views(r.result@) == string_views(accounts@),
    {
        RpcStringArrayResponse::new(self.0.id, accounts)
    }
}

/// The number of the latest block.
pub struct EthBlockNumber(pub RpcEmptyRequest);

impl EthBlockNumber {
    /// The request under the number `id`.
    pub fn new(id: &u64) -> (r: EthBlockNumber)
        ensures
            asks(r.0, *id, ETH_BLOCK_NUMBER@),
    {
        EthBlockNumber(RpcEmptyRequest::new(id, RPC_VERSION, ETH_BLOCK_NUMBER))
    }

    /// The method around a request that was received.
    pub fn from_request(request: RpcEmptyRequest) -> (r: EthBlockNumber)
        ensures
            r.0 == request,
    {
        EthBlockNumber(request)
    }

    /// The answer: block 0.
    pub fn receive(&self) -> (r: RpcStringResponse)
        ensures
            answers(r, self.0.id, "0x0"@),
    {
        RpcStringResponse::new(self.0.id, "0x0")
    }
}

/// The balance of an account.
pub struct EthGetBalance(pub RpcStringsRequest);

impl EthGetBalance {
    /// The request under the number `id` for the balance of `address`, which goes
    /// as `0x` and hexadecimal digits.
    pub fn new(id: &u64, address: &[u8; 20]) -> (r: EthGetBalance)
        ensures
            asks_with(r.0, *id, ETH_GET_BALANCE@, seq![seq!['0', 'x'] + hex_text(address@)]),
    {
        let mut params: Vec<String> = Vec::new();
        params.push(prefixed_hex(address.as_slice()));
        assert(string_views(params@) =~= seq![seq!['0', 'x'] + hex_text(address@)]);
        EthGetBalance(strings_request(id, ETH_GET_BALANCE, params))
    }

    /// The method around a request that was received.
    pub fn from_request(request: RpcStringsRequest) -> (r: EthGetBalance)
        ensures
            r.0 == request,
    {
        EthGetBalance(request)
    }

    /// The answer: zero.
    pub fn receive(&self) -> (r: RpcStringResponse)
        ensures
            answers(r, self.0.id, "0x00"@),
    {
        RpcStringResponse::new(self.0.id, "0x00")
    }
}

/// The value at a position of a contract's storage.
pub struct EthStorageAt(pub RpcStringsRequest);

impl EthStorageAt {
    /// The request under the number `id` for the value at `position` in the
    /// storage of `contract_address`; both go as `0x` and hexadecimal digits.
    pub fn new(id: &u64, contract_address: &[u8; 20], position: &[u8; 32]) -> (r: EthStorageAt)
        ensures
            asks_with(
                r.0,
                *id,
                ETH_STORAGE_AT@,
                seq![
                    seq!['0', 'x'] + hex_text(contract_address@),
                    seq!['0', 'x'] + hex_text(position@),
                ],
            ),
    {
        let mut params: Vec<String> = Vec::new();
        params.push(prefixed_hex(contract_address.as_slice()));
        params.push(prefixed_hex(position.as_slice()));
        assert(string_views(params@) =~= seq![
            seq!['0', 'x'] + hex_text(contract_address@),
            seq!['0', 'x'] + hex_text(position@),
        ]);
        EthStorageAt(strings_request(id, ETH_STORAGE_AT, params))
    }

    /// The method around a request that was received.
    pub fn from_request(request: RpcStringsRequest) -> (r: EthStorageAt)
        ensures
            r.0 == request,
    {
        EthStorageAt(request)
    }

    /// The answer: `value`, the value that the storage holds at the
    /// position, in hexadecimal digits.
    pub fn receive(&self, value: &[u8; 32]) -> (r: RpcStringResponse)
        ensures
            answers(r, self.0.id, hex_text(value@)),
    {
        let result = hex_encode(value.as_slice());
        RpcStringResponse::new(self.0.id, result.as_str())
    }
}

/// The number of transactions that an account has sent.
pub struct EthGetTransactionCount(pub RpcStringsRequest);

impl EthGetTransactionCount {
    /// The request under the number `id` for the number of transactions of `address`, which goes
    /// as `0x` and hexadecimal digits.
    pub fn new(id: &u64, address: &[u8; 20]) -> (r: EthGetTransactionCount)
        ensures
            asks_with(r.0, *id, ETH_GET_TX_COUNT@, seq![seq!['0', 'x'] + hex_text(address@)]),
    {
        let mut params: Vec<String> = Vec::new();
        params.push(prefixed_hex(address.as_slice()));
        assert(string_views(params@) =~= seq![seq!['0', 'x'] + hex_text(address@)]);
        EthGetTransactionCount(strings_request(id, ETH_GET_TX_COUNT, params))
    }

    /// The method around a request that was received.
    pub fn from_request(request: RpcStringsRequest) -> (r: EthGetTransactionCount)
        ensures
            r.0 == request,
    {
        EthGetTransactionCount(request)
    }

    /// The answer: one.
    pub fn receive(&self) -> (r: RpcStringResponse)
        ensures
            answers(r, self.0.id, "0x1"@),
    {
        RpcStringResponse::new(self.0.id, "0x1")
    }
}

/// The code of a contract.
pub struct EthGetCode(pub RpcStringsRequest);

impl EthGetCode {
    /// The request under the number `id` for the code of `address`, which goes
    /// as `0x` and hexadecimal digits.
    pub fn new(id: &u64, address: &[u8; 20]) -> (r: EthGetCode)
        ensures
            asks_with(r.0, *id, ETH_GET_CODE@, seq![seq!['0', 'x'] + hex_text(address@)]),
    {
        let mut params: Vec<String> = Vec::new();
        params.push(prefixed_hex(address.as_slice()));
        assert(string_views(params@) =~= seq![seq!['0', 'x'] + hex_text(address@)]);
        EthGetCode(strings_request(id, ETH_GET_CODE, params))
    }

    /// The method around a request that was received.
    pub fn from_request(request: RpcStringsRequest) -> (r: EthGetCode)
        ensures
            r.0 == request,
    {
        EthGetCode(request)
    }

    /// The answer: `code`, what the ledger holds as the code of the
    /// contract, in hexadecimal digits.
    pub fn receive(&self, code: &Vec<u8>) -> (r: RpcStringResponse)
        ensures
            answers(r, self.0.id, hex_text(code@)),
    {
        let result = hex_encode(code.as_slice());
        RpcStringResponse::new(self.0.id, result.as_str())
    }
}

/// A signed transaction to be taken up.
pub struct EthSendRawTransaction(pub RpcStringsRequest);

impl EthSendRawTransaction {
    /// The request under the number `id` to take up the transaction `vec_tx`,
    /// which goes as `0x` and hexadecimal digits.
    pub fn new(id: &u64, vec_tx: Vec<u8>) -> (r: EthSendRawTransaction)
        ensures
            asks_with(r.0, *id, ETH_SEND_RAW_TX@, seq![seq!['0', 'x'] + hex_text(vec_tx@)]),
    {
        let mut params: Vec<String> = Vec::new();
        params.push(prefixed_hex(vec_tx.as_slice()));
        assert(string_views(params@) =~= seq![seq!['0', 'x'] + hex_text(vec_tx@)]);
        EthSendRawTransaction(strings_request(id, ETH_SEND_RAW_TX, params))
    }

    /// The method around a request that was received.
    pub fn from_request(request: RpcStringsRequest) -> (r: EthSendRawTransaction)
        ensures
            r.0 == request,
    {
        EthSendRawTransaction(request)
    }

    /// The answer: a hash of zeros.
    pub fn receive(&self) -> (r: RpcStringResponse)
        ensures
            answers(
                r,
                self.0.id,
                "0x0000000000000000000000000000000000000000000000000000000000000000"@,
            ),
    {
        RpcStringResponse::new(
            self.0.id,
            "0x0000000000000000000000000000000000000000000000000000000000000000",
        )
    }
}

/// A call of a contract that leaves no trace.
pub struct EthCall(pub RpcStringsRequest);

impl EthCall {
    /// The request under the number `id` for a call from `sender` to
    /// `receiver` with `data`: the two addresses as `0x` and hexadecimal
    /// digits, gas and gas price `0x0`, the value `0x00`, and the data in
    /// hexadecimal digits.
    pub fn new(id: &u64, sender: &[u8; 20], receiver: &[u8; 20], data: Vec<u8>) -> (r: EthCall)
        ensures
            asks_with(
                r.0,
                *id,
                ETH_CALL@,
                seq![
                    seq!['0', 'x'] + hex_text(sender@),
                    seq!['0', 'x'] + hex_text(receiver@),
                    "0x0"@,
                    "0x0"@,
                    "0x00"@,
                    hex_text(data@),
                ],
            ),
    {
        let mut params: Vec<String> = Vec::new();
        params.push(prefixed_hex(sender.as_slice()));
        params.push(prefixed_hex(receiver.as_slice()));
        params.push("0x0".to_owned());
        params.push("0x0".to_owned());
        params.push("0x00".to_owned());
        params.push(hex_encode(data.as_slice()));
        assert(string_views(params@) =~= seq![
            seq!['0', 'x'] + hex_text(sender@),
            seq!['0', 'x'] + hex_text(receiver@),
            "0x0"@,
            "0x0"@,
            "0x00"@,
            hex_text(data@),
        ]);
        EthCall(strings_request(id, ETH_CALL, params))
    }

    /// The method around a request that was received.
    pub fn from_request(request: RpcStringsRequest) -> (r: EthCall)
        ensures
            r.0 == request,
    {
        EthCall(request)
    }

    /// The answer: nothing.
    pub fn receive(&self) -> (r: RpcStringResponse)
        ensures
            answers(r, self.0.id, ""@),
    {
        RpcStringResponse::new(self.0.id, "")
    }
}

/// The gas that a transaction would take.
pub struct EthEstimatedGas(pub RpcEmptyRequest);

impl EthEstimatedGas {
    /// The method around a request that was received.
    pub fn from_request(request: RpcEmptyRequest) -> (r: EthEstimatedGas)
        ensures
            r.0 == request,
    {
        EthEstimatedGas(request)
    }

    /// The answer: 21000.
    pub fn receive(&self) -> (r: RpcStringResponse)
        ensures
            answers(r, self.0.id, "0x5208"@),
    {
        RpcStringResponse::new(self.0.id, "0x5208")
    }
}

/// The block with a hash.
pub struct EthGetBlockByHash(pub RpcStringsRequest);

impl EthGetBlockByHash {
    /// The method around a request that was received.
    pub fn from_request(request: RpcStringsRequest) -> (r: EthGetBlockByHash)
        ensures
            r.0 == request,
    {
        EthGetBlockByHash(request)
    }

    /// The answer: zero.
    pub fn receive(&self) -> (r: RpcStringResponse)
        ensures
            answers(r, self.0.id, "0x00"@),
    {
        RpcStringResponse::new(self.0.id, "0x00")
    }
}

/// The block with a number.
pub struct EthGetBlockByNumber(pub RpcStringsRequest);

impl EthGetBlockByNumber {
    /// The method around a request that was received.
    pub fn from_request(request: RpcStringsRequest) -> (r: EthGetBlockByNumber)
        ensures
            r.0 == request,
    {
        EthGetBlockByNumber(request)
    }

    /// The answer: nothing.
    pub fn receive(&self) -> (r: RpcStringResponse)
        ensures
            answers(r, self.0.id, ""@),
    {
        RpcStringResponse::new(self.0.id, "")
    }
}

/// The transaction with a hash.
pub struct EthGetTransactionByHash(pub RpcStringsRequest);

impl EthGetTransactionByHash {
    /// The method around a request that was received.
    pub fn from_request(request: RpcStringsRequest) -> (r: EthGetTransactionByHash)
        ensures
            r.0 == request,
    {
        EthGetTransactionByHash(request)
    }

    /// The answer: nothing.
    pub fn receive(&self) -> (r: RpcStringResponse)
        ensures
            answers(r, self.0.id, ""@),
    {
        RpcStringResponse::new(self.0.id, "")
    }
}

} // verus!
