use biiot::rpc::request::{RpcEmptyRequest, RpcIntegersRequest, RpcStringsRequest};
use biiot::rpc::response::{
    RpcBoolResponse, RpcMapResponse, RpcStringArrayResponse, RpcStringResponse, RPC_VERSION,
};

#[test]
fn requests_hold_what_they_were_given() {
    let e = RpcEmptyRequest::new(&7, "2.0", "net_version");
    assert_eq!((e.id, e.jsonrpc.as_str(), e.method.as_str()), (7, "2.0", "net_version"));
    assert!(e.params.is_empty());
    let s = RpcStringsRequest::new(&8, "2.0", "web3_sha3", &vec!["0x00".to_string()]);
    assert_eq!(s.id, 8);
    assert_eq!(s.params, vec!["0x00".to_string()]);
    let i = RpcIntegersRequest::new(&9, "2.0".to_string(), "m".to_string(), vec![1, 2]);
    assert_eq!((i.id, i.params), (9, vec![1, 2]));
}

#[test]
fn responses_name_version_two() {
    assert_eq!(RPC_VERSION, "2.0");
    let s = RpcStringResponse::new(1, "ok");
    assert_eq!((s.id, s.jsonrpc.as_str(), s.result.as_str()), (1, "2.0", "ok"));
    let b = RpcBoolResponse::new(2, true);
    assert_eq!((b.id, b.jsonrpc.as_str(), b.result), (2, "2.0", true));
    let a = RpcStringArrayResponse::new(3, &vec!["x".to_string(), "y".to_string()]);
    assert_eq!(a.result, vec!["x".to_string(), "y".to_string()]);
    assert_eq!(a.jsonrpc, "2.0");
    let m = RpcMapResponse::new(4, &vec![("k".to_string(), "v".to_string())]);
    assert_eq!(m.result, vec![("k".to_string(), "v".to_string())]);
    assert_eq!(m.id, 4);
}

use biiot::hexutil::{prefixed_hex, unprefixed_bytes};
use biiot::http::status::HttpStatusCode;
use biiot::rpc::engine::{body_action, method_reply, BodyAction};
use biiot::rpc::handler::rpc_handler;
use biiot::rpc::method_names::{ETH_CALL, ETH_GET_BALANCE, NET_VERSION, WEB3SHA3};
use biiot::rpc::methods::{
    param_bytes, EthAccounts, EthBlockNumber, EthCall, EthCoinbase, EthEstimatedGas, EthGasPrice,
    EthGetBalance, EthGetCode, EthGetTransactionCount, EthHashrate, EthMining,
    EthProtocolVersion, EthSendRawTransaction, EthStorageAt, EthSyncing, NetListening,
    NetPeerCount, NetVersion, Web3ClientVersion, Web3Sha3,
};
use biiot::rpc::options::HTTP_OPTIONS;

#[test]
fn hexadecimal_text() {
    assert_eq!(prefixed_hex(&[]), "0x");
    assert_eq!(prefixed_hex(&[0x00, 0x0f, 0xa0, 0xff]), "0x000fa0ff");
}

#[test]
fn requests_name_their_method() {
    let v = Web3ClientVersion::new(&3);
    assert_eq!((v.0.id, v.0.jsonrpc.as_str(), v.0.method.as_str()), (3, "2.0", "web3_clientVersion"));
    assert_eq!(NetVersion::new(&1).0.method, "net_version");
    assert_eq!(NetListening::new(1).0.method, "net_listening");
    assert_eq!(NetPeerCount::new(&1).0.method, "net_peerCount");
    assert_eq!(EthProtocolVersion::new(&1).0.method, "eth_protocolVersion");
    assert_eq!(EthSyncing::new(&1).0.method, "eth_syncing");
    assert_eq!(EthCoinbase::new(&1).0.method, "eth_coinbase");
    assert_eq!(EthMining::new(&1).0.method, "eth_mining");
    assert_eq!(EthHashrate::new(&1).0.method, "eth_hashrate");
    assert_eq!(EthGasPrice::new(&1).0.method, "eth_gasPrice");
    assert_eq!(EthAccounts::new(&1).0.method, "eth_accounts");
    assert_eq!(EthBlockNumber::new(&1).0.method, "eth_blockNumber");
}

#[test]
fn requests_carry_their_parameters_in_hexadecimal() {
    let address = [0xabu8; 20];
    let hex_address = format!("0x{}", "ab".repeat(20));
    let b = EthGetBalance::new(&5, &address);
    assert_eq!((b.0.id, b.0.method.as_str()), (5, ETH_GET_BALANCE));
    assert_eq!(b.0.params, vec![hex_address.clone()]);
    assert_eq!(EthGetTransactionCount::new(&5, &address).0.params, vec![hex_address.clone()]);
    assert_eq!(EthGetCode::new(&5, &address).0.params, vec![hex_address.clone()]);
    let s = EthStorageAt::new(&5, &address, &[1u8; 32]);
    assert_eq!(s.0.params, vec![hex_address.clone(), format!("0x{}", "01".repeat(32))]);
    assert_eq!(EthSendRawTransaction::new(&5, vec![1, 2]).0.params, vec!["0x0102".to_string()]);
    let sha = Web3Sha3::new(&5, vec![0xff]);
    assert_eq!((sha.0.method.as_str(), sha.0.params.clone()), (WEB3SHA3, vec!["0xff".to_string()]));
    let call = EthCall::new(&5, &address, &[0u8; 20], vec![0xde, 0xad]);
    assert_eq!(call.0.method, ETH_CALL);
    assert_eq!(
        call.0.params,
        vec![
            hex_address,
            format!("0x{}", "00".repeat(20)),
            "0x0".to_string(),
            "0x0".to_string(),
            "0x00".to_string(),
            "dead".to_string()
        ]
    );
}

#[test]
fn answers_of_the_methods() {
    assert_eq!(Web3ClientVersion::new(&3).receive().result, "Biiot/v0.1.0/windows/rust1.52");
    assert_eq!(Web3ClientVersion::new(&3).receive().id, 3);
    assert_eq!(NetVersion::new(&1).receive().result, "9");
    assert!(NetListening::new(1).receive().result);
    assert_eq!(NetPeerCount::new(&1).receive().result, "0x00");
    assert_eq!(EthProtocolVersion::new(&1).receive().result, "54");
    assert_eq!(
        EthSyncing::new(&1).receive().result,
        vec![
            ("startingBlock".to_string(), "0x384".to_string()),
            ("currentBlock".to_string(), "0x386".to_string()),
            ("highestBlock".to_string(), "0x454".to_string())
        ]
    );
    assert_eq!(EthCoinbase::new(&1).receive(&[0x11; 20]).result, format!("0x{}", "11".repeat(20)));
    assert!(EthMining::new(&1).receive().result);
    assert_eq!(EthHashrate::new(&1).receive().result, "0x00");
    assert_eq!(EthGasPrice::new(&1).receive().result, "0x00");
    assert_eq!(EthAccounts::new(&1).receive(&vec!["0x1".to_string()]).result, vec!["0x1".to_string()]);
    assert_eq!(EthBlockNumber::new(&1).receive().result, "0x0");
    assert_eq!(EthGetBalance::new(&1, &[0; 20]).receive().result, "0x00");
    assert_eq!(EthStorageAt::new(&1, &[0; 20], &[0; 32]).receive(&[2; 32]).result, "02".repeat(32));
    assert_eq!(EthGetTransactionCount::new(&1, &[0; 20]).receive().result, "0x1");
    assert_eq!(EthGetCode::new(&1, &[0; 20]).receive(&vec![0x60, 0x00]).result, "6000");
    assert_eq!(
        EthSendRawTransaction::new(&1, vec![]).receive().result,
        format!("0x{}", "0".repeat(64))
    );
    assert_eq!(EthCall::new(&1, &[0; 20], &[0; 20], vec![]).receive().result, "");
    assert_eq!(
        EthEstimatedGas::from_request(RpcEmptyRequest::new(&4, "2.0", "eth_estimateGas")).receive().result,
        "0x5208"
    );
}

#[test]
fn sha3_hashes_the_parameter_as_text() {
    let r = Web3Sha3::new(&2, vec![]).receive().unwrap();
    // the parameter is the text "0x", whose bytes are 0x30 0x78
    let digest = biiot::hash::keccak256(b"0x");
    let hex: String = digest.iter().map(|b| format!("{:02x}", b)).collect();
    assert_eq!(r.result, hex);
    assert_eq!(r.id, 2);
    let bare = Web3Sha3::from_request(RpcStringsRequest::new(&2, "2.0", WEB3SHA3, &vec![]));
    assert!(bare.receive().is_none());
}

#[test]
fn the_handler_answers_by_method() {
    let params = vec!["0x00".to_string()];
    let (code, reply) = rpc_handler(Some(7), Some(NET_VERSION), Some(&params)).unwrap();
    assert_eq!(code, HttpStatusCode::Okay);
    let reply = reply.unwrap();
    assert_eq!((reply.id, reply.result.as_str()), (7, "9"));

    let (code, reply) = rpc_handler(Some(7), Some("eth_getTransactionCount"), Some(&params)).unwrap();
    assert_eq!(code, HttpStatusCode::Okay);
    assert_eq!(reply.unwrap().result, "0x1");

    let (code, reply) = rpc_handler(Some(7), Some("eth_estimateGas"), Some(&params)).unwrap();
    assert_eq!(code, HttpStatusCode::Okay);
    assert_eq!(reply.unwrap().result, "0x5208");

    let (code, reply) = rpc_handler(Some(7), Some("eth_mining"), Some(&params)).unwrap();
    assert_eq!(code, HttpStatusCode::Okay);
    assert!(reply.is_none());

    let (code, reply) = rpc_handler(Some(7), Some("eth_unknown"), Some(&params)).unwrap();
    assert_eq!(code, HttpStatusCode::NotFound);
    assert!(reply.is_none());

    assert!(rpc_handler(None, Some(NET_VERSION), Some(&params)).is_none());
    assert!(rpc_handler(Some(1), None, Some(&params)).is_none());
    assert!(rpc_handler(Some(1), Some(NET_VERSION), None).is_none());
}

#[test]
fn the_bare_service() {
    assert_eq!(body_action(None), BodyAction::Drop);
    assert_eq!(body_action(Some("")), BodyAction::Options);
    assert_eq!(body_action(Some("{}")), BodyAction::Parse);
    let v = method_reply(Some("web3_clientVersion"), Some(9)).unwrap();
    assert_eq!((v.id, v.result.as_str()), (1, "Biiot/v0.1.0/windows/rust1.52"));
    let n = method_reply(Some("net_version"), Some(9)).unwrap();
    assert_eq!((n.id, n.result.as_str()), (9, "9"));
    assert_eq!(method_reply(Some("eth_blockNumber"), Some(9)).unwrap().result, "0x0");
    assert_eq!(method_reply(Some("eth_getBalance"), Some(9)).unwrap().result, "0x00");
    assert!(method_reply(Some("eth_mining"), Some(9)).is_none());
    assert!(method_reply(None, Some(9)).is_none());
    assert!(method_reply(Some("net_version"), None).is_none());
    assert!(HTTP_OPTIONS.starts_with("HTTP/1.1 200 OK\r\n"));
    assert!(HTTP_OPTIONS.ends_with("content-type: text/html\r\n\r\n"));
}

#[test]
fn parameters_are_read_back_from_hexadecimal() {
    assert_eq!(unprefixed_bytes("0x00ff"), Some(vec![0x00, 0xff]));
    assert_eq!(unprefixed_bytes("0xAb"), Some(vec![0xab]));
    assert_eq!(unprefixed_bytes("0x"), Some(vec![]));
    assert_eq!(unprefixed_bytes("zz00"), Some(vec![0x00]));
    assert_eq!(unprefixed_bytes("0"), None);
    assert_eq!(unprefixed_bytes("0x0"), None);
    assert_eq!(unprefixed_bytes("0xzz"), None);
    assert_eq!(unprefixed_bytes("0xé0"), None);
    let params = vec![format!("0x{}", "ab".repeat(20)), "0x01".to_string()];
    assert_eq!(param_bytes(&params, 0, 20), Some(vec![0xab; 20]));
    assert_eq!(param_bytes(&params, 0, 32), None);
    assert_eq!(param_bytes(&params, 1, 1), Some(vec![1]));
    assert_eq!(param_bytes(&params, 2, 1), None);
}
