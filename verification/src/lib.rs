//! A small Ethereum-style node library whose core is a bytecode interpreter:
//! 256-bit words, an operand stack, a linear memory, an operation table and
//! the fetch-decode-execute loop, each with a machine-checked contract.
//!
//! The virtual machine is in `word`, `stack`, `memory`, `contract`,
//! `context`, `opcode`, `jumptable`, `instruction` and `interpreter`. Around
//! it stand what a node needs besides: byte and text helpers (`vecutil`,
//! `text`, `strutil`, `hexutil`, `u256util`, `sql_util`), hashing and
//! signatures (`hash`, `message`, `key`, `secp256k1`, `accounts`), the model
//! of the ledger (`ledger`, `engine`), HTTP messages (`http`) and the
//! JSON-RPC interface (`rpc`).

pub mod accounts;
pub mod context;
pub mod contract;
pub mod engine;
pub mod err;
pub mod hash;
pub mod hexutil;
pub mod http;
pub mod instruction;
pub mod interpreter;
pub mod jumptable;
pub mod key;
pub mod ledger;
pub mod memory;
pub mod message;
pub mod opcode;
pub mod rpc;
pub mod secp256k1;
pub mod sql_util;
pub mod stack;
pub mod strutil;
pub mod text;
pub mod u256util;
pub mod vecutil;
pub mod word;
