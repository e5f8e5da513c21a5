//! Opcode bytes and their names.

use vstd::prelude::*;

verus! {

/// One byte that selects an instruction.
pub type OpCode = u8;

pub const STOP: OpCode = 0x00;

pub const ADD: OpCode = 0x01;

pub const MUL: OpCode = 0x02;

pub const SUB: OpCode = 0x03;

pub const DIV: OpCode = 0x04;

pub const SDIV: OpCode = 0x05;

pub const MOD: OpCode = 0x06;

pub const SMOD: OpCode = 0x07;

pub const ADDMOD: OpCode = 0x08;

pub const MULMOD: OpCode = 0x09;

pub const EXP: OpCode = 0x0a;

pub const LT: OpCode = 0x10;

pub const GT: OpCode = 0x11;

pub const SLT: OpCode = 0x12;

pub const SGT: OpCode = 0x13;

pub const EQ: OpCode = 0x14;

pub const ISZERO: OpCode = 0x15;

pub const AND: OpCode = 0x16;

pub const OR: OpCode = 0x17;

pub const XOR: OpCode = 0x18;

pub const NOT: OpCode = 0x19;

pub const BYTE: OpCode = 0x1a;

pub const SHL: OpCode = 0x1b;

pub const SHR: OpCode = 0x1c;

pub const SAR: OpCode = 0x1d;

pub const SHA3: OpCode = 0x20;

pub const ADDRESS: OpCode = 0x30;

pub const BALANCE: OpCode = 0x31;

pub const ORIGIN: OpCode = 0x32;

pub const CALLER: OpCode = 0x33;

pub const CALLVALUE: OpCode = 0x34;

pub const CALLDATALOAD: OpCode = 0x35;

pub const CALLDATASIZE: OpCode = 0x36;

pub const CALLDATACOPY: OpCode = 0x37;

pub const CODESIZE: OpCode = 0x38;

pub const CODECOPY: OpCode = 0x39;

pub const GASPRICE: OpCode = 0x3a;

pub const EXTCODESIZE: OpCode = 0x3b;

pub const EXTCODECOPY: OpCode = 0x3c;

pub const RETURNDATASIZE: OpCode = 0x3d;

pub const RETURNDATACOPY: OpCode = 0x3e;

pub const EXTCODEHASH: OpCode = 0x3f;

pub const BLOCKHASH: OpCode = 0x40;

pub const COINBASE: OpCode = 0x41;

pub const TIMESTAMP: OpCode = 0x42;

pub const NUMBER: OpCode = 0x43;

pub const DIFFICULTY: OpCode = 0x44;

pub const GASLIMIT: OpCode = 0x45;

pub const CHAINID: OpCode = 0x46;

pub const SELFBALANCE: OpCode = 0x47;

pub const POP: OpCode = 0x50;

pub const MLOAD: OpCode = 0x51;

pub const MSTORE: OpCode = 0x52;

pub const MSTORE8: OpCode = 0x53;

pub const SLOAD: OpCode = 0x54;

pub const SSTORE: OpCode = 0x55;

pub const JUMP: OpCode = 0x56;

pub const JUMPI: OpCode = 0x57;

pub const PC: OpCode = 0x58;

pub const MSIZE: OpCode = 0x59;

pub const GAS: OpCode = 0x5a;

pub const JUMPDEST: OpCode = 0x5b;

pub const BEGINSUB: OpCode = 0x5c;

pub const RETURNSUB: OpCode = 0x5d;

pub const JUMPSUB: OpCode = 0x5e;

pub const PUSH1: OpCode = 0x60;

pub const PUSH2: OpCode = 0x61;

pub const PUSH3: OpCode = 0x62;

pub const PUSH4: OpCode = 0x63;

pub const PUSH5: OpCode = 0x64;

pub const PUSH6: OpCode = 0x65;

pub const PUSH7: OpCode = 0x66;

pub const PUSH8: OpCode = 0x67;

pub const PUSH9: OpCode = 0x68;

pub const PUSH10: OpCode = 0x69;

pub const PUSH11: OpCode = 0x6a;

pub const PUSH12: OpCode = 0x6b;

pub const PUSH13: OpCode = 0x6c;

pub const PUSH14: OpCode = 0x6d;

pub const PUSH15: OpCode = 0x6e;

pub const PUSH16: OpCode = 0x6f;

pub const PUSH17: OpCode = 0x70;

pub const PUSH18: OpCode = 0x71;

pub const PUSH19: OpCode = 0x72;

pub const PUSH20: OpCode = 0x73;

pub const PUSH21: OpCode = 0x74;

pub const PUSH22: OpCode = 0x75;

pub const PUSH23: OpCode = 0x76;

pub const PUSH24: OpCode = 0x77;

pub const PUSH25: OpCode = 0x78;

pub const PUSH26: OpCode = 0x79;

pub const PUSH27: OpCode = 0x7a;

pub const PUSH28: OpCode = 0x7b;

pub const PUSH29: OpCode = 0x7c;

pub const PUSH30: OpCode = 0x7d;

pub const PUSH31: OpCode = 0x7e;

pub const PUSH32: OpCode = 0x7f;

pub const DUP1: OpCode = 0x80;

pub const DUP2: OpCode = 0x81;

pub const DUP3: OpCode = 0x82;

pub const DUP4: OpCode = 0x83;

pub const DUP5: OpCode = 0x84;

pub const DUP6: OpCode = 0x85;

pub const DUP7: OpCode = 0x86;

pub const DUP8: OpCode = 0x87;

pub const DUP9: OpCode = 0x88;

pub const DUP10: OpCode = 0x89;

pub const DUP11: OpCode = 0x8a;

pub const DUP12: OpCode = 0x8b;

pub const DUP13: OpCode = 0x8c;

pub const DUP14: OpCode = 0x8d;

pub const DUP15: OpCode = 0x8e;

pub const DUP16: OpCode = 0x8f;

pub const SWAP1: OpCode = 0x90;

pub const SWAP2: OpCode = 0x91;

pub const SWAP3: OpCode = 0x92;

pub const SWAP4: OpCode = 0x93;

pub const SWAP5: OpCode = 0x94;

pub const SWAP6: OpCode = 0x95;

pub const SWAP7: OpCode = 0x96;

pub const SWAP8: OpCode = 0x97;

pub const SWAP9: OpCode = 0x98;

pub const SWAP10: OpCode = 0x99;

pub const SWAP11: OpCode = 0x9a;

pub const SWAP12: OpCode = 0x9b;

pub const SWAP13: OpCode = 0x9c;

pub const SWAP14: OpCode = 0x9d;

pub const SWAP15: OpCode = 0x9e;

pub const SWAP16: OpCode = 0x9f;

pub const LOG0: OpCode = 0xa0;

pub const LOG1: OpCode = 0xa1;

pub const LOG2: OpCode = 0xa2;

pub const LOG3: OpCode = 0xa3;

pub const LOG4: OpCode = 0xa4;

pub const CREATE: OpCode = 0xf0;

pub const CALL: OpCode = 0xf1;

pub const CALLCODE: OpCode = 0xf2;

pub const RETURN: OpCode = 0xf3;

pub const DELEGATECALL: OpCode = 0xf4;

pub const CREATE2: OpCode = 0xf5;

pub const STATICCALL: OpCode = 0xfa;

pub const REVERT: OpCode = 0xfd;

pub const SELFDESTRUCT: OpCode = 0xff;

/// The byte of an opcode.
pub fn opcode_to_u8(opcode: OpCode) -> (r: u8)
    ensures
        r == opcode,
{
    opcode
}

/// The opcode of a byte.
pub fn u8_to_opcode(v: u8) -> (r: OpCode)
    ensures
        r == v,
{
    v
}

/// The name of each opcode byte; `"NONE"` for a byte that names no instruction.
pub open spec fn opcode_name(code: u8) -> Seq<char> {
    if code == 0x00 {
        "STOP"@
    } else if code == 0x01 {
        "ADD"@
    } else if code == 0x02 {
        "MUL"@
    } else if code == 0x03 {
        "SUB"@
    } else if code == 0x04 {
        "DIV"@
    } else if code == 0x05 {
        "SDIV"@
    } else if code == 0x06 {
        "MOD"@
    } else if code == 0x07 {
        "SMOD"@
    } else if code == 0x08 {
        "ADD_MOD"@
    } else if code == 0x09 {
        "MUL_MOD"@
    } else if code == 0x0a {
        "EXP"@
    } else if code == 0x10 {
        "LT"@
    } else if code == 0x11 {
        "GT"@
    } else if code == 0x12 {
        "SLT"@
    } else if code == 0x13 {
        "SGT"@
    } else if code == 0x14 {
        "EQ"@
    } else if code == 0x15 {
        "IS_ZERO"@
    } else if code == 0x16 {
        "AND"@
    } else if code == 0x17 {
        "OR"@
    } else if code == 0x18 {
        "XOR"@
    } else if code == 0x19 {
        "NOT"@
    } else if code == 0x1a {
        "BYTE"@
    } else if code == 0x1b {
        "SHL"@
    } else if code == 0x1c {
        "SHR"@
    } else if code == 0x1d {
        "SAR"@
    } else if code == 0x20 {
        "SHA3"@
    } else if code == 0x30 {
        "ADDRESS"@
    } else if code == 0x31 {
        "BALANCE"@
    } else if code == 0x32 {
        "ORIGIN"@
    } else if code == 0x33 {
        "CALLER"@
    } else if code == 0x34 {
        "CALLVALUE"@
    } else if code == 0x35 {
        "CALLDATA_LOAD"@
    } else if code == 0x36 {
        "CALLDATA_SIZE"@
    } else if code == 0x37 {
        "CALL_DATA_COPY"@
    } else if code == 0x38 {
        "CODE_SIZE"@
    } else if code == 0x39 {
        "CODE_COPY"@
    } else if code == 0x3a {
        "GAS_PRICE"@
    } else if code == 0x3b {
        "EXTCODE_SIZE"@
    } else if code == 0x3c {
        "EXTCODE_COPY"@
    } else if code == 0x3d {
        "RETURNDATA_SIZE"@
    } else if code == 0x3e {
        "RETURNDATA_COPY"@
    } else if code == 0x3f {
        "EXTCODEHASH"@
    } else if code == 0x40 {
        "BLOCKHASH"@
    } else if code == 0x41 {
        "COINBASE"@
    } else if code == 0x42 {
        "TIMESTAMP"@
    } else if code == 0x43 {
        "NUMBER"@
    } else if code == 0x44 {
        "DIFFICULTY"@
    } else if code == 0x45 {
        "GAS_LIMIT"@
    } else if code == 0x46 {
        "CHAIN_ID"@
    } else if code == 0x47 {
        "SELF_BALANCE"@
    } else if code == 0x50 {
        "POP"@
    } else if code == 0x51 {
        "MLOAD"@
    } else if code == 0x52 {
        "MSTORE"@
    } else if code == 0x53 {
        "MSTORE8"@
    } else if code == 0x54 {
        "SLOAD"@
    } else if code == 0x55 {
        "SSTORE"@
    } else if code == 0x56 {
        "JUMP"@
    } else if code == 0x57 {
        "JUMPI"@
    } else if code == 0x58 {
        "PC"@
    } else if code == 0x59 {
        "MSIZE"@
    } else if code == 0x5a {
        "GAS"@
    } else if code == 0x5b {
        "JUMPDEST"@
    } else if code == 0x5c {
        "BEGINSUB"@
    } else if code == 0x5d {
        "RETURNSUB"@
    } else if code == 0x5e {
        "JUMPSUB"@
    } else if code == 0x60 {
        "PUSH1"@
    } else if code == 0x61 {
        "PUSH2"@
    } else if code == 0x62 {
        "PUSH3"@
    } else if code == 0x63 {
        "PUSH4"@
    } else if code == 0x64 {
        "PUSH5"@
    } else if code == 0x65 {
        "PUSH6"@
    } else if code == 0x66 {
        "PUSH7"@
    } else if code == 0x67 {
        "PUSH8"@
    } else if code == 0x68 {
        "PUSH9"@
    } else if code == 0x69 {
        "PUSH10"@
    } else if code == 0x6a {
        "PUSH11"@
    } else if code == 0x6b {
        "PUSH12"@
    } else if code == 0x6c {
        "PUSH13"@
    } else if code == 0x6d {
        "PUSH14"@
    } else if code == 0x6e {
        "PUSH15"@
    } else if code == 0x6f {
        "PUSH16"@
    } else if code == 0x70 {
        "PUSH17"@
    } else if code == 0x71 {
        "PUSH18"@
    } else if code == 0x72 {
        "PUSH19"@
    } else if code == 0x73 {
        "PUSH20"@
    } else if code == 0x74 {
        "PUSH21"@
    } else if code == 0x75 {
        "PUSH22"@
    } else if code == 0x76 {
        "PUSH23"@
    } else if code == 0x77 {
        "PUSH24"@
    } else if code == 0x78 {
        "PUSH25"@
    } else if code == 0x79 {
        "PUSH26"@
    } else if code == 0x7a {
        "PUSH27"@
    } else if code == 0x7b {
        "PUSH28"@
    } else if code == 0x7c {
        "PUSH29"@
    } else if code == 0x7d {
        "PUSH30"@
    } else if code == 0x7e {
        "PUSH31"@
    } else if code == 0x7f {
        "PUSH32"@
    } else if code == 0x80 {
        "DUP1"@
    } else if code == 0x81 {
        "DUP2"@
    } else if code == 0x82 {
        "DUP3"@
    } else if code == 0x83 {
        "DUP4"@
    } else if code == 0x84 {
        "DUP5"@
    } else if code == 0x85 {
        "DUP6"@
    } else if code == 0x86 {
        "DUP7"@
    } else if code == 0x87 {
        "DUP8"@
    } else if code == 0x88 {
        "DUP9"@
    } else if code == 0x89 {
        "DUP10"@
    } else if code == 0x8a {
        "DUP11"@
    } else if code == 0x8b {
        "DUP12"@
    } else if code == 0x8c {
        "DUP13"@
    } else if code == 0x8d {
        "DUP14"@
    } else if code == 0x8e {
        "DUP15"@
    } else if code == 0x8f {
        "DUP16"@
    } else if code == 0x90 {
        "SWAP1"@
    } else if code == 0x91 {
        "SWAP2"@
    } else if code == 0x92 {
        "SWAP3"@
    } else if code == 0x93 {
        "SWAP4"@
    } else if code == 0x94 {
        "SWAP5"@
    } else if code == 0x95 {
        "SWAP6"@
    } else if code == 0x96 {
        "SWAP7"@
    } else if code == 0x97 {
        "SWAP8"@
    } else if code == 0x98 {
        "SWAP9"@
    } else if code == 0x99 {
        "SWAP10"@
    } else if code == 0x9a {
        "SWAP11"@
    } else if code == 0x9b {
        "SWAP12"@
    } else if code == 0x9c {
        "SWAP13"@
    } else if code == 0x9d {
        "SWAP14"@
    } else if code == 0x9e {
        "SWAP15"@
    } else if code == 0x9f {
        "SWAP16"@
    } else if code == 0xa0 {
        "LOG0"@
    } else if code == 0xa1 {
        "LOG1"@
    } else if code == 0xa2 {
        "LOG2"@
    } else if code == 0xa3 {
        "LOG3"@
    } else if code == 0xa4 {
        "LOG4"@
    } else if code == 0xf0 {
        "CREATE"@
    } else if code == 0xf1 {
        "CALL"@
    } else if code == 0xf2 {
        "CALLCODE"@
    } else if code == 0xf3 {
        "RETURN"@
    } else if code == 0xf4 {
        "DELEGATE_CALL"@
    } else if code == 0xf5 {
        "CREATE2"@
    } else if code == 0xfa {
        "STATIC_CALL"@
    } else if code == 0xfd {
        "REVERT"@
    } else if code == 0xff {
        "SELF_DESTRUCT"@
    } else {
        "NONE"@
    }
}

/// The name of the instruction that `code` selects, or `"NONE"`.
pub fn get_opcode_name(code: &u8) -> (r: &'static str)
    ensures
        r@ == opcode_name(*code),
{
    match *code {
        0x00 => "STOP",
        0x01 => "ADD",
        0x02 => "MUL",
        0x03 => "SUB",
        0x04 => "DIV",
        0x05 => "SDIV",
        0x06 => "MOD",
        0x07 => "SMOD",
        0x08 => "ADD_MOD",
        0x09 => "MUL_MOD",
        0x0a => "EXP",
        0x10 => "LT",
        0x11 => "GT",
        0x12 => "SLT",
        0x13 => "SGT",
        0x14 => "EQ",
        0x15 => "IS_ZERO",
        0x16 => "AND",
        0x17 => "OR",
        0x18 => "XOR",
        0x19 => "NOT",
        0x1a => "BYTE",
        0x1b => "SHL",
        0x1c => "SHR",
        0x1d => "SAR",
        0x20 => "SHA3",
        0x30 => "ADDRESS",
        0x31 => "BALANCE",
        0x32 => "ORIGIN",
        0x33 => "CALLER",
        0x34 => "CALLVALUE",
        0x35 => "CALLDATA_LOAD",
        0x36 => "CALLDATA_SIZE",
        0x37 => "CALL_DATA_COPY",
        0x38 => "CODE_SIZE",
        0x39 => "CODE_COPY",
        0x3a => "GAS_PRICE",
        0x3b => "EXTCODE_SIZE",
        0x3c => "EXTCODE_COPY",
        0x3d => "RETURNDATA_SIZE",
        0x3e => "RETURNDATA_COPY",
        0x3f => "EXTCODEHASH",
        0x40 => "BLOCKHASH",
        0x41 => "COINBASE",
        0x42 => "TIMESTAMP",
        0x43 => "NUMBER",
        0x44 => "DIFFICULTY",
        0x45 => "GAS_LIMIT",
        0x46 => "CHAIN_ID",
        0x47 => "SELF_BALANCE",
        0x50 => "POP",
        0x51 => "MLOAD",
        0x52 => "MSTORE",
        0x53 => "MSTORE8",
        0x54 => "SLOAD",
        0x55 => "SSTORE",
        0x56 => "JUMP",
        0x57 => "JUMPI",
        0x58 => "PC",
        0x59 => "MSIZE",
        0x5a => "GAS",
        0x5b => "JUMPDEST",
        0x5c => "BEGINSUB",
        0x5d => "RETURNSUB",
        0x5e => "JUMPSUB",
        0x60 => "PUSH1",
        0x61 => "PUSH2",
        0x62 => "PUSH3",
        0x63 => "PUSH4",
        0x64 => "PUSH5",
        0x65 => "PUSH6",
        0x66 => "PUSH7",
        0x67 => "PUSH8",
        0x68 => "PUSH9",
        0x69 => "PUSH10",
        0x6a => "PUSH11",
        0x6b => "PUSH12",
        0x6c => "PUSH13",
        0x6d => "PUSH14",
        0x6e => "PUSH15",
        0x6f => "PUSH16",
        0x70 => "PUSH17",
        0x71 => "PUSH18",
        0x72 => "PUSH19",
        0x73 => "PUSH20",
        0x74 => "PUSH21",
        0x75 => "PUSH22",
        0x76 => "PUSH23",
        0x77 => "PUSH24",
        0x78 => "PUSH25",
        0x79 => "PUSH26",
        0x7a => "PUSH27",
        0x7b => "PUSH28",
        0x7c => "PUSH29",
        0x7d => "PUSH30",
        0x7e => "PUSH31",
        0x7f => "PUSH32",
        0x80 => "DUP1",
        0x81 => "DUP2",
        0x82 => "DUP3",
        0x83 => "DUP4",
        0x84 => "DUP5",
        0x85 => "DUP6",
        0x86 => "DUP7",
        0x87 => "DUP8",
        0x88 => "DUP9",
        0x89 => "DUP10",
        0x8a => "DUP11",
        0x8b => "DUP12",
        0x8c => "DUP13",
        0x8d => "DUP14",
        0x8e => "DUP15",
        0x8f => "DUP16",
        0x90 => "SWAP1",
        0x91 => "SWAP2",
        0x92 => "SWAP3",
        0x93 => "SWAP4",
        0x94 => "SWAP5",
        0x95 => "SWAP6",
        0x96 => "SWAP7",
        0x97 => "SWAP8",
        0x98 => "SWAP9",
        0x99 => "SWAP10",
        0x9a => "SWAP11",
        0x9b => "SWAP12",
        0x9c => "SWAP13",
        0x9d => "SWAP14",
        0x9e => "SWAP15",
        0x9f => "SWAP16",
        0xa0 => "LOG0",
        0xa1 => "LOG1",
        0xa2 => "LOG2",
        0xa3 => "LOG3",
        0xa4 => "LOG4",
        0xf0 => "CREATE",
        0xf1 => "CALL",
        0xf2 => "CALLCODE",
        0xf3 => "RETURN",
        0xf4 => "DELEGATE_CALL",
        0xf5 => "CREATE2",
        0xfa => "STATIC_CALL",
        0xfd => "REVERT",
        0xff => "SELF_DESTRUCT",
        _ => "NONE",
    }
}

} // verus!
