//! A static-analysis gate for compiled smart-contract artifacts: extract
//! the bytecode hex string from an artifact document, decode it into an
//! instruction sequence, and reject it when any instruction's operation
//! stands on a caller-supplied denylist.

/// The opcode table: symbolic names and push operand widths, total over
/// every byte value.
pub mod opcodes;

/// The bytecode decoder: a cursor walk that splits a byte stream into
/// single-byte and variable-width push instructions.
pub mod decoder;

/// Hexadecimal bytecode text to raw bytes, with an optional "0x" marker.
pub mod hex;

/// Bytecode extraction from a structured artifact document.
pub mod extract;

/// The policy scanner: denylisted names present in an instruction stream.
pub mod scan;

/// The pipeline driver composing extraction, decoding and scanning.
pub mod pipeline;
