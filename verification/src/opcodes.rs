use vstd::prelude::*;

verus! {

/// Number of immediate operand bytes that follow an opcode in the
/// instruction stream: `n` for PUSHn (codes 0x60..=0x7f), 0 for all others.
pub open spec fn spec_push_width(code: u8) -> nat {
    if 0x60 <= code && code <= 0x7f {
        (code - 0x5f) as nat
    } else {
        0
    }
}

/// Symbolic name of the operation encoded by a byte. Total: every byte has
/// a stable name, and every undefined code is named "INVALID" so that such
/// bytes still decode as ordinary single-byte instructions.
pub open spec fn spec_opcode_name(code: u8) -> Seq<char> {
    match code {
        0x00u8 => "STOP"@,
        0x01u8 => "ADD"@,
        0x02u8 => "MUL"@,
        0x03u8 => "SUB"@,
        0x04u8 => "DIV"@,
        0x05u8 => "SDIV"@,
        0x06u8 => "MOD"@,
        0x07u8 => "SMOD"@,
        0x08u8 => "ADDMOD"@,
        0x09u8 => "MULMOD"@,
        0x0au8 => "EXP"@,
        0x0bu8 => "SIGNEXTEND"@,
        0x10u8 => "LT"@,
        0x11u8 => "GT"@,
        0x12u8 => "SLT"@,
        0x13u8 => "SGT"@,
        0x14u8 => "EQ"@,
        0x15u8 => "ISZERO"@,
        0x16u8 => "AND"@,
        0x17u8 => "OR"@,
        0x18u8 => "XOR"@,
        0x19u8 => "NOT"@,
        0x1au8 => "BYTE"@,
        0x1bu8 => "SHL"@,
        0x1cu8 => "SHR"@,
        0x1du8 => "SAR"@,
        0x1eu8 => "CLZ"@,
        0x20u8 => "SHA3"@,
        0x30u8 => "ADDRESS"@,
        0x31u8 => "BALANCE"@,
        0x32u8 => "ORIGIN"@,
        0x33u8 => "CALLER"@,
        0x34u8 => "CALLVALUE"@,
        0x35u8 => "CALLDATALOAD"@,
        0x36u8 => "CALLDATASIZE"@,
        0x37u8 => "CALLDATACOPY"@,
        0x38u8 => "CODESIZE"@,
        0x39u8 => "CODECOPY"@,
        0x3au8 => "GASPRICE"@,
        0x3bu8 => "EXTCODESIZE"@,
        0x3cu8 => "EXTCODECOPY"@,
        0x3du8 => "RETURNDATASIZE"@,
        0x3eu8 => "RETURNDATACOPY"@,
        0x3fu8 => "EXTCODEHASH"@,
        0x40u8 => "BLOCKHASH"@,
        0x41u8 => "COINBASE"@,
        0x42u8 => "TIMESTAMP"@,
        0x43u8 => "NUMBER"@,
        0x44u8 => "DIFFICULTY"@,
        0x45u8 => "GASLIMIT"@,
        0x46u8 => "CHAINID"@,
        0x47u8 => "SELFBALANCE"@,
        0x48u8 => "BASEFEE"@,
        0x49u8 => "BLOBHASH"@,
        0x4au8 => "BLOBBASEFEE"@,
        0x50u8 => "POP"@,
        0x51u8 => "MLOAD"@,
        0x52u8 => "MSTORE"@,
        0x53u8 => "MSTORE8"@,
        0x54u8 => "SLOAD"@,
        0x55u8 => "SSTORE"@,
        0x56u8 => "JUMP"@,
        0x57u8 => "JUMPI"@,
        0x58u8 => "PC"@,
        0x59u8 => "MSIZE"@,
        0x5au8 => "GAS"@,
        0x5bu8 => "JUMPDEST"@,
        0x5cu8 => "TLOAD"@,
        0x5du8 => "TSTORE"@,
        0x5eu8 => "MCOPY"@,
        0x5fu8 => "PUSH0"@,
        0x60u8 => "PUSH1"@,
        0x61u8 => "PUSH2"@,
        0x62u8 => "PUSH3"@,
        0x63u8 => "PUSH4"@,
        0x64u8 => "PUSH5"@,
        0x65u8 => "PUSH6"@,
        0x66u8 => "PUSH7"@,
        0x67u8 => "PUSH8"@,
        0x68u8 => "PUSH9"@,
        0x69u8 => "PUSH10"@,
        0x6au8 => "PUSH11"@,
        0x6bu8 => "PUSH12"@,
        0x6cu8 => "PUSH13"@,
        0x6du8 => "PUSH14"@,
        0x6eu8 => "PUSH15"@,
        0x6fu8 => "PUSH16"@,
        0x70u8 => "PUSH17"@,
        0x71u8 => "PUSH18"@,
        0x72u8 => "PUSH19"@,
        0x73u8 => "PUSH20"@,
        0x74u8 => "PUSH21"@,
        0x75u8 => "PUSH22"@,
        0x76u8 => "PUSH23"@,
        0x77u8 => "PUSH24"@,
        0x78u8 => "PUSH25"@,
        0x79u8 => "PUSH26"@,
        0x7au8 => "PUSH27"@,
        0x7bu8 => "PUSH28"@,
        0x7cu8 => "PUSH29"@,
        0x7du8 => "PUSH30"@,
        0x7eu8 => "PUSH31"@,
        0x7fu8 => "PUSH32"@,
        0x80u8 => "DUP1"@,
        0x81u8 => "DUP2"@,
        0x82u8 => "DUP3"@,
        0x83u8 => "DUP4"@,
        0x84u8 => "DUP5"@,
        0x85u8 => "DUP6"@,
        0x86u8 => "DUP7"@,
        0x87u8 => "DUP8"@,
        0x88u8 => "DUP9"@,
        0x89u8 => "DUP10"@,
        0x8au8 => "DUP11"@,
        0x8bu8 => "DUP12"@,
        0x8cu8 => "DUP13"@,
        0x8du8 => "DUP14"@,
        0x8eu8 => "DUP15"@,
        0x8fu8 => "DUP16"@,
        0x90u8 => "SWAP1"@,
        0x91u8 => "SWAP2"@,
        0x92u8 => "SWAP3"@,
        0x93u8 => "SWAP4"@,
        0x94u8 => "SWAP5"@,
        0x95u8 => "SWAP6"@,
        0x96u8 => "SWAP7"@,
        0x97u8 => "SWAP8"@,
        0x98u8 => "SWAP9"@,
        0x99u8 => "SWAP10"@,
        0x9au8 => "SWAP11"@,
        0x9bu8 => "SWAP12"@,
        0x9cu8 => "SWAP13"@,
        0x9du8 => "SWAP14"@,
        0x9eu8 => "SWAP15"@,
        0x9fu8 => "SWAP16"@,
        0xa0u8 => "LOG0"@,
        0xa1u8 => "LOG1"@,
        0xa2u8 => "LOG2"@,
        0xa3u8 => "LOG3"@,
        0xa4u8 => "LOG4"@,
        0xf0u8 => "CREATE"@,
        0xf1u8 => "CALL"@,
        0xf2u8 => "CALLCODE"@,
        0xf3u8 => "RETURN"@,
        0xf4u8 => "DELEGATECALL"@,
        0xf5u8 => "CREATE2"@,
        0xfau8 => "STATICCALL"@,
        0xfdu8 => "REVERT"@,
        0xffu8 => "SELFDESTRUCT"@,
        _ => "INVALID"@,
    }
}

/// Executable operand-width lookup for the opcode table.
pub fn push_length(code: u8) -> (n: usize)
    ensures
        n == spec_push_width(code),
        n <= 32,
{
    if 0x60 <= code && code <= 0x7f {
        (code - 0x5f) as usize
    } else {
        0
    }
}

/// Executable name lookup for the opcode table.
pub fn name_of(code: u8) -> (s: String)
    ensures
        s@ == spec_opcode_name(code),
{
    let n: &str = match code {
        0x00 => "STOP",
        0x01 => "ADD",
        0x02 => "MUL",
        0x03 => "SUB",
        0x04 => "DIV",
        0x05 => "SDIV",
        0x06 => "MOD",
        0x07 => "SMOD",
        0x08 => "ADDMOD",
        0x09 => "MULMOD",
        0x0a => "EXP",
        0x0b => "SIGNEXTEND",
        0x10 => "LT",
        0x11 => "GT",
        0x12 => "SLT",
        0x13 => "SGT",
        0x14 => "EQ",
        0x15 => "ISZERO",
        0x16 => "AND",
        0x17 => "OR",
        0x18 => "XOR",
        0x19 => "NOT",
        0x1a => "BYTE",
        0x1b => "SHL",
        0x1c => "SHR",
        0x1d => "SAR",
        0x1e => "CLZ",
        0x20 => "SHA3",
        0x30 => "ADDRESS",
        0x31 => "BALANCE",
        0x32 => "ORIGIN",
        0x33 => "CALLER",
        0x34 => "CALLVALUE",
        0x35 => "CALLDATALOAD",
        0x36 => "CALLDATASIZE",
        0x37 => "CALLDATACOPY",
        0x38 => "CODESIZE",
        0x39 => "CODECOPY",
        0x3a => "GASPRICE",
        0x3b => "EXTCODESIZE",
        0x3c => "EXTCODECOPY",
        0x3d => "RETURNDATASIZE",
        0x3e => "RETURNDATACOPY",
        0x3f => "EXTCODEHASH",
        0x40 => "BLOCKHASH",
        0x41 => "COINBASE",
        0x42 => "TIMESTAMP",
        0x43 => "NUMBER",
        0x44 => "DIFFICULTY",
        0x45 => "GASLIMIT",
        0x46 => "CHAINID",
        0x47 => "SELFBALANCE",
        0x48 => "BASEFEE",
        0x49 => "BLOBHASH",
        0x4a => "BLOBBASEFEE",
        0x50 => "POP",
        0x51 => "MLOAD",
        0x52 => "MSTORE",
        0x53 => "MSTORE8",
        0x54 => "SLOAD",
        0x55 => "SSTORE",
        0x56 => "JUMP",
        0x57 => "JUMPI",
        0x58 => "PC",
        0x59 => "MSIZE",
        0x5a => "GAS",
        0x5b => "JUMPDEST",
        0x5c => "TLOAD",
        0x5d => "TSTORE",
        0x5e => "MCOPY",
        0x5f => "PUSH0",
        0x60 => "PUSH1",
        0x61 => "PUSH2",
        0x62 => "PUSH3",
        0x63 => "PUSH4",
        0x64 => "PUSH5",
        0x65 => "PUSH6",
        0x66 => "PUSH7",
        0x67 => "PUSH8",
        0x68 => "PUSH9",
        0x69 => "PUSH10",
        0x6a => "PUSH11",
        0x6b => "PUSH12",
        0x6c => "PUSH13",
        0x6d => "PUSH14",
        0x6e => "PUSH15",
        0x6f => "PUSH16",
        0x70 => "PUSH17",
        0x71 => "PUSH18",
        0x72 => "PUSH19",
        0x73 => "PUSH20",
        0x74 => "PUSH21",
        0x75 => "PUSH22",
        0x76 => "PUSH23",
        0x77 => "PUSH24",
        0x78 => "PUSH25",
        0x79 => "PUSH26",
        0x7a => "PUSH27",
        0x7b => "PUSH28",
        0x7c => "PUSH29",
        0x7d => "PUSH30",
        0x7e => "PUSH31",
        0x7f => "PUSH32",
        0x80 => "DUP1",
        0x81 => "DUP2",
        0x82 => "DUP3",
        0x83 => "DUP4",
        0x84 => "DUP5",
        0x85 => "DUP6",
        0x86 => "DUP7",
        0x87 => "DUP8",
        0x88 => "DUP9",
        0x89 => "DUP10",
        0x8a => "DUP11",
        0x8b => "DUP12",
        0x8c => "DUP13",
        0x8d => "DUP14",
        0x8e => "DUP15",
        0x8f => "DUP16",
        0x90 => "SWAP1",
        0x91 => "SWAP2",
        0x92 => "SWAP3",
        0x93 => "SWAP4",
        0x94 => "SWAP5",
        0x95 => "SWAP6",
        0x96 => "SWAP7",
        0x97 => "SWAP8",
        0x98 => "SWAP9",
        0x99 => "SWAP10",
        0x9a => "SWAP11",
        0x9b => "SWAP12",
        0x9c => "SWAP13",
        0x9d => "SWAP14",
        0x9e => "SWAP15",
        0x9f => "SWAP16",
        0xa0 => "LOG0",
        0xa1 => "LOG1",
        0xa2 => "LOG2",
        0xa3 => "LOG3",
        0xa4 => "LOG4",
        0xf0 => "CREATE",
        0xf1 => "CALL",
        0xf2 => "CALLCODE",
        0xf3 => "RETURN",
        0xf4 => "DELEGATECALL",
        0xf5 => "CREATE2",
        0xfa => "STATICCALL",
        0xfd => "REVERT",
        0xff => "SELFDESTRUCT",
        _ => "INVALID",
    };
    n.to_owned()
}

} // verus!
