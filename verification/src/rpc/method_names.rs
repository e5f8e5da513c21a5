//! The names of the methods of the JSON-RPC interface.

use vstd::prelude::*;

verus! {

pub const WEB3CLIENT_VERSION: &'static str = "web3_clientVersion";

pub const WEB3SHA3: &'static str = "web3_sha3";

pub const NET_VERSION: &'static str = "net_version";

pub const NET_LISTENING: &'static str = "net_listening";

pub const NET_PEER_COUNT: &'static str = "net_peerCount";

pub const ETH_PROTOCOL_VERSION: &'static str = "eth_protocolVersion";

pub const ETH_SYNCING: &'static str = "eth_syncing";

pub const ETH_COINBASE: &'static str = "eth_coinbase";

pub const ETH_MINING: &'static str = "eth_mining";

pub const ETH_HASHRATE: &'static str = "eth_hashrate";

pub const ETH_GAS_PRICE: &'static str = "eth_gasPrice";

pub const ETH_ACCOUNTS: &'static str = "eth_accounts";

pub const ETH_BLOCK_NUMBER: &'static str = "eth_blockNumber";

pub const ETH_GET_BALANCE: &'static str = "eth_getBalance";

pub const ETH_STORAGE_AT: &'static str = "eth_getStorageAt";

pub const ETH_GET_TX_COUNT: &'static str = "eth_getTransactionCount";

pub const ETH_GET_BLOCK_TX_COUNT_BY_HASH: &'static str = "eth_getBlockTransactionCountByHash";

pub const ETH_GET_BLOCK_TX_COUNT_BY_NUMBER: &'static str = "eth_getBlockTransactionCountByNumber";

pub const ETH_GET_UNCLE_COUNT_BY_BLOCK_HASH: &'static str = "eth_getUncleCountByBlockHash";

pub const ETH_GET_UNCLE_COUNT_BY_BLOCK_NUMBER: &'static str = "eth_getUncleCountByBlockNumber";

pub const ETH_GET_CODE: &'static str = "eth_getCode";

pub const ETH_GET_SIGN: &'static str = "eth_sign";

pub const ETH_SIGN_TX: &'static str = "eth_signTransaction";

pub const ETH_SEND_TX: &'static str = "eth_sendTransaction";

pub const ETH_SEND_RAW_TX: &'static str = "eth_sendRawTransaction";

pub const ETH_CALL: &'static str = "eth_call";

pub const ETH_ESTIMATE_GAS: &'static str = "eth_estimateGas";

} // verus!
