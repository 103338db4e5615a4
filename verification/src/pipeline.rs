use vstd::prelude::*;

use crate::decoder::DecodeError;
use crate::decoder::Instruction;
use crate::decoder::SpecInstruction;
use crate::decoder::decode;
use crate::decoder::insts_view;
use crate::decoder::spec_decode_from;
use crate::extract::Document;
use crate::extract::ExtractError;
use crate::extract::spec_extract;
use crate::extract::validate_json;
use crate::hex::FormatError;
use crate::hex::hex_to_bytes;
use crate::hex::spec_hex_decode;
use crate::hex::spec_strip_prefix;
use crate::opcodes::name_of;
use crate::opcodes::spec_opcode_name;
use crate::opcodes::spec_push_width;
use crate::scan::name_set;
use crate::scan::names_view;
use crate::scan::scan;
use crate::scan::spec_scan;

verus! {

/// Why a pipeline run rejected an artifact: each stage's failure, or the
/// denylisted operation names that the policy scan found.
#[derive(Debug, Clone, PartialEq, Eq)]
pub enum GateError {
    Extract(ExtractError),
    Format(FormatError),
    Decode(DecodeError),
    Forbidden(Vec<String>),
}

/// The symbolic names of a decoded instruction sequence, in stream order.
pub open spec fn spec_instruction_names(insts: Seq<SpecInstruction>) -> Seq<Seq<char>> {
    insts.map_values(|i: SpecInstruction| spec_opcode_name(i.code))
}

/// Map each decoded instruction to the symbolic name of its operation.
pub fn instruction_names(insts: &Vec<Instruction>) -> (r: Vec<String>)
    ensures
        names_view(r@) == spec_instruction_names(insts_view(insts@)),
{
    let n = insts.len();
    let mut out: Vec<String> = Vec::new();
    let mut i: usize = 0;
    while i < n
        invariant
            i <= n,
            n == insts@.len(),
            out@.len() == i,
            forall|j: int| 0 <= j < i ==> out@[j]@ == spec_opcode_name(insts@[j].code),
        decreases n - i,
    {
        out.push(name_of(insts[i].code));
        i = i + 1;
    }
    proof {
        assert(names_view(out@) =~= spec_instruction_names(insts_view(insts@)));
    }
    out
}

/// Run the whole gate on one artifact document: extract the bytecode hex
/// string, decode it to bytes and then to instructions, and scan the
/// instruction names against the denylist. Accepts exactly when every
/// stage succeeds and no denylisted operation occurs; otherwise reports
/// the first failing stage, or the denylisted names found, in first-seen
/// order.
pub fn run_gate(document: Document, denylist: &Vec<String>) -> (r: Result<(), GateError>)
    ensures
        match r {
            Ok(_) => spec_extract(document) matches Ok(hex) && spec_hex_decode(hex) matches Some(
                bytes,
            ) && spec_decode_from(bytes, 0) matches Some(insts) && spec_scan(
                spec_instruction_names(insts),
                name_set(denylist@),
            ) == Seq::<Seq<char>>::empty(),
            Err(GateError::Extract(e)) => spec_extract(document) == Err::<
                Seq<char>,
                ExtractError,
            >(e),
            Err(GateError::Format(e)) => spec_extract(document) matches Ok(hex)
                && spec_hex_decode(hex) is None && (e == FormatError::OddLength ==> spec_strip_prefix(
                hex,
            ).len() % 2 == 1),
            Err(GateError::Decode(e)) => spec_extract(document) matches Ok(hex) && spec_hex_decode(
                hex,
            ) matches Some(bytes) && spec_decode_from(bytes, 0) is None && e.offset < bytes.len()
                && e.code == bytes[e.offset as int] && e.offset + 1 + spec_push_width(e.code)
                > bytes.len(),
            Err(GateError::Forbidden(found)) => spec_extract(document) matches Ok(hex)
                && spec_hex_decode(hex) matches Some(bytes) && spec_decode_from(
                bytes,
                0,
            ) matches Some(insts) && names_view(found@) == spec_scan(
                spec_instruction_names(insts),
                name_set(denylist@),
            ) && found@.len() > 0,
        },
{
    let hex_string = match validate_json(document) {
        Ok(s) => s,
        Err(e) => {
            return Err(GateError::Extract(e));
        },
    };
    let bytes = match hex_to_bytes(hex_string.as_str()) {
        Ok(b) => b,
        Err(e) => {
            return Err(GateError::Format(e));
        },
    };
    let insts = match decode(bytes.as_slice()) {
        Ok(i) => i,
        Err(e) => {
            return Err(GateError::Decode(e));
        },
    };
    let names = instruction_names(&insts);
    let found = scan(&names, denylist);
    if found.len() == 0 {
        proof {
            assert(names_view(found@) =~= Seq::<Seq<char>>::empty());
        }
        Ok(())
    } else {
        Err(GateError::Forbidden(found))
    }
}

} // verus!
