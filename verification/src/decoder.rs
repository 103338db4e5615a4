use vstd::prelude::*;

use crate::opcodes::spec_push_width;
use crate::opcodes::push_length;

verus! {

/// Mathematical model of one decoded instruction: the byte position it
/// starts at, the operation code found there, and the immediate operand
/// bytes for push-class operations.
pub ghost struct SpecInstruction {
    pub offset: int,
    pub code: u8,
    pub operand: Option<Seq<u8>>,
}

/// One decoded instruction: position in the stream, operation code, and
/// the immediate operand bytes captured for a push-class operation.
#[derive(Debug, Clone, PartialEq, Eq)]
pub struct Instruction {
    pub offset: usize,
    pub code: u8,
    pub operand: Option<Vec<u8>>,
}

impl View for Instruction {
    type V = SpecInstruction;

    open spec fn view(&self) -> SpecInstruction {
        SpecInstruction {
            offset: self.offset as int,
            code: self.code,
            operand: match self.operand {
                Some(v) => Some(v@),
                None => None,
            },
        }
    }
}

/// The models of a decoded instruction list, in order.
pub open spec fn insts_view(insts: Seq<Instruction>) -> Seq<SpecInstruction> {
    insts.map_values(|i: Instruction| i@)
}

/// Failure of a decode run: the push-class opcode `code` at `offset`
/// declared more operand bytes than remain in the stream.
#[derive(Debug, Clone, Copy, PartialEq, Eq, Structural)]
pub struct DecodeError {
    pub offset: usize,
    pub code: u8,
}

/// The instruction sequence encoded by `bytes` from cursor position `pos`
/// to the end, or `None` if a push-class operand is truncated.
pub open spec fn spec_decode_from(bytes: Seq<u8>, pos: nat) -> Option<Seq<SpecInstruction>>
    decreases bytes.len() - pos,
{
    if pos >= bytes.len() {
        Some(Seq::empty())
    } else {
        let code = bytes[pos as int];
        let w = spec_push_width(code);
        if pos + 1 + w > bytes.len() {
            None
        } else {
            let inst = SpecInstruction {
                offset: pos as int,
                code: code,
                operand: if w == 0 {
                    None
                } else {
                    Some(bytes.subrange(pos + 1 as int, pos + 1 + w as int))
                },
            };
            match spec_decode_from(bytes, (pos + 1 + w) as nat) {
                Some(rest) => Some(seq![inst] + rest),
                None => None,
            }
        }
    }
}

/// Holds when a decode walk over `bytes` whose cursor stands at `from`
/// later stands exactly at `target`, stepping one instruction at a time.
pub open spec fn cursor_reaches(bytes: Seq<u8>, from: nat, target: nat) -> bool
    decreases target - from,
{
    if from == target {
        true
    } else if from >= bytes.len() {
        false
    } else {
        let w = spec_push_width(bytes[from as int]);
        if from + 1 + w > bytes.len() || from + 1 + w > target {
            false
        } else {
            cursor_reaches(bytes, (from + 1 + w) as nat, target)
        }
    }
}

/// A decode walk that stands at `t` with the instruction there intact next
/// stands one instruction length further on.
pub proof fn lemma_cursor_step(bytes: Seq<u8>, f: nat, t: nat)
    requires
        cursor_reaches(bytes, f, t),
        t < bytes.len(),
        t + 1 + spec_push_width(bytes[t as int]) <= bytes.len(),
    ensures
        cursor_reaches(bytes, f, (t + 1 + spec_push_width(bytes[t as int])) as nat),
    decreases t - f,
{
    reveal_with_fuel(cursor_reaches, 3);
    if f != t {
        let w = spec_push_width(bytes[f as int]);
        lemma_cursor_step(bytes, (f + 1 + w) as nat, t);
    }
}

/// The first instruction decoded at a position starts at that position and
/// carries the opcode byte found there.
pub proof fn lemma_decode_first(bytes: Seq<u8>, pos: nat)
    requires
        spec_decode_from(bytes, pos) is Some,
        pos < bytes.len(),
    ensures
        spec_decode_from(bytes, pos) matches Some(s) && s.len() >= 1 && s[0].offset == pos
            && s[0].code == bytes[pos as int],
{
}

/// A stream of non-push opcodes decodes to exactly one instruction per
/// byte: offsets run from `pos` to the end one by one, and no instruction
/// carries an operand.
pub proof fn lemma_decode_all_non_push(bytes: Seq<u8>, pos: nat)
    requires
        pos <= bytes.len(),
        forall|i: int| 0 <= i < bytes.len() ==> spec_push_width(bytes[i]) == 0,
    ensures
        spec_decode_from(bytes, pos) matches Some(s) && s.len() == bytes.len() - pos && (forall|
            j: int,
        |
            0 <= j < s.len() ==> s[j] == (SpecInstruction {
                offset: pos + j,
                code: bytes[pos + j],
                operand: None,
            })),
    decreases bytes.len() - pos,
{
    if pos < bytes.len() {
        lemma_decode_all_non_push(bytes, (pos + 1) as nat);
    }
}

/// A push-class opcode with `n` declared operand bytes and at least `n`
/// trailing bytes decodes to one instruction holding those bytes verbatim,
/// and the following instruction, if any, starts `1 + n` bytes further on.
pub proof fn lemma_decode_push_step(bytes: Seq<u8>, pos: nat)
    requires
        pos < bytes.len(),
        spec_push_width(bytes[pos as int]) >= 1,
        pos + 1 + spec_push_width(bytes[pos as int]) <= bytes.len(),
        spec_decode_from(bytes, pos) is Some,
    ensures
        spec_decode_from(bytes, pos) matches Some(s) && s.len() >= 1 && s[0]
            == (SpecInstruction {
            offset: pos as int,
            code: bytes[pos as int],
            operand: Some(
                bytes.subrange(pos + 1 as int, pos + 1 + spec_push_width(bytes[pos as int]) as int),
            ),
        }) && (s.len() > 1 ==> s[1].offset == pos + 1 + spec_push_width(bytes[pos as int])),
{
    let w = spec_push_width(bytes[pos as int]);
    let next = (pos + 1 + w) as nat;
    let inst = SpecInstruction {
        offset: pos as int,
        code: bytes[pos as int],
        operand: Some(bytes.subrange(pos + 1 as int, pos + 1 + w as int)),
    };
    assert(spec_decode_from(bytes, next) is Some);
    let rest = spec_decode_from(bytes, next)->Some_0;
    let s = spec_decode_from(bytes, pos)->Some_0;
    assert(s == seq![inst] + rest);
    assert(s[0] == inst);
    if s.len() > 1 {
        lemma_decode_first(bytes, next);
        assert(s[1] == rest[0]);
    }
}

/// Emission order is stream order: every decoded instruction starts at or
/// after the decode position and inside the stream, and offsets ascend
/// strictly from one instruction to the next.
pub proof fn lemma_decode_offsets_ascend(bytes: Seq<u8>, pos: nat)
    requires
        spec_decode_from(bytes, pos) is Some,
    ensures
        spec_decode_from(bytes, pos) matches Some(s) && (forall|i: int|
            0 <= i < s.len() ==> pos <= #[trigger] s[i].offset < bytes.len()) && (forall|
            i: int,
            j: int,
        |
            0 <= i < j < s.len() ==> s[i].offset < s[j].offset),
    decreases bytes.len() - pos,
{
    if pos >= bytes.len() {
    } else {
        let w = spec_push_width(bytes[pos as int]);
        let next = (pos + 1 + w) as nat;
        lemma_decode_offsets_ascend(bytes, next);
        let rest = spec_decode_from(bytes, next)->Some_0;
        let s = spec_decode_from(bytes, pos)->Some_0;
        assert(s[0].offset == pos);
        assert(forall|i: int| 0 < i < s.len() ==> s[i] == #[trigger] rest[i - 1]);
        assert forall|i: int, j: int| 0 <= i < j < s.len() implies s[i].offset < s[j].offset by {
            if i > 0 {
                assert(s[i] == rest[i - 1] && s[j] == rest[j - 1]);
            } else {
                assert(s[j] == rest[j - 1]);
                assert(next <= rest[j - 1].offset);
            }
        }
    }
}

/// A failed decode at any reachable cursor position makes the whole decode
/// run fail: nothing is produced for a truncated tail.
proof fn lemma_none_propagates(bytes: Seq<u8>, f: nat, p: nat)
    requires
        cursor_reaches(bytes, f, p),
        spec_decode_from(bytes, p) is None,
    ensures
        spec_decode_from(bytes, f) is None,
    decreases p - f,
{
    if f != p {
        let w = spec_push_width(bytes[f as int]);
        lemma_none_propagates(bytes, (f + 1 + w) as nat, p);
    }
}

/// A push-class opcode at a reachable position with fewer trailing bytes
/// than its declared operand width makes the whole decode run fail.
pub proof fn lemma_truncated_push_fails(bytes: Seq<u8>, pos: nat)
    requires
        cursor_reaches(bytes, 0, pos),
        pos < bytes.len(),
        pos + 1 + spec_push_width(bytes[pos as int]) > bytes.len(),
    ensures
        spec_decode_from(bytes, 0) is None,
{
    assert(spec_decode_from(bytes, pos) is None);
    lemma_none_propagates(bytes, 0, pos);
}

/// Decoding is idempotent: one byte sequence has one instruction sequence,
/// so two decode runs over the same bytes agree bit for bit.
pub proof fn lemma_decode_deterministic(
    bytes: Seq<u8>,
    r1: Option<Seq<SpecInstruction>>,
    r2: Option<Seq<SpecInstruction>>,
)
    requires
        r1 == spec_decode_from(bytes, 0),
        r2 == spec_decode_from(bytes, 0),
    ensures
        r1 == r2,
{
}

/// Decode a byte stream into its instruction sequence, in stream order.
/// Fails exactly when a push-class operand is truncated, and reports the
/// offset and opcode of the truncated instruction.
pub fn decode(bytes: &[u8]) -> (r: Result<Vec<Instruction>, DecodeError>)
    ensures
        match r {
            Ok(insts) => spec_decode_from(bytes@, 0) == Some(insts_view(insts@)),
            Err(e) => {
                &&& spec_decode_from(bytes@, 0) is None
                &&& cursor_reaches(bytes@, 0, e.offset as nat)
                &&& e.offset < bytes@.len()
                &&& e.code == bytes@[e.offset as int]
                &&& e.offset + 1 + spec_push_width(e.code) > bytes@.len()
            },
        },
{
    let mut out: Vec<Instruction> = Vec::new();
    let mut pos: usize = 0;
    while pos < bytes.len()
        invariant
            pos <= bytes.len(),
            cursor_reaches(bytes@, 0, pos as nat),
            match spec_decode_from(bytes@, pos as nat) {
                Some(rest) => spec_decode_from(bytes@, 0) == Some(insts_view(out@) + rest),
                None => spec_decode_from(bytes@, 0) is None,
            },
        decreases bytes.len() - pos,
    {
        let code = bytes[pos];
        let w = push_length(code);
        if w >= bytes.len() - pos {
            proof {
                assert(spec_decode_from(bytes@, pos as nat) is None);
            }
            return Err(DecodeError { offset: pos, code });
        }
        let operand: Option<Vec<u8>> = if w == 0 {
            None
        } else {
            Some(vstd::slice::slice_to_vec(vstd::slice::slice_subrange(bytes, pos + 1, pos + 1 + w)))
        };
        let inst = Instruction { offset: pos, code, operand };
        let ghost old_out = out@;
        let ghost old_pos = pos as nat;
        out.push(inst);
        pos = pos + 1 + w;
        proof {
            lemma_cursor_step(bytes@, 0, old_pos);
            assert(insts_view(out@) =~= insts_view(old_out) + seq![inst@]);
            match spec_decode_from(bytes@, pos as nat) {
                Some(rest) => {
                    assert(spec_decode_from(bytes@, old_pos) == Some(seq![inst@] + rest));
                    assert(insts_view(old_out) + (seq![inst@] + rest) =~= insts_view(out@) + rest);
                },
                None => {
                    assert(spec_decode_from(bytes@, old_pos) is None);
                },
            }
        }
    }
    proof {
        assert(spec_decode_from(bytes@, pos as nat) == Some(Seq::<SpecInstruction>::empty()));
        assert(insts_view(out@) + Seq::<SpecInstruction>::empty() =~= insts_view(out@));
    }
    Ok(out)
}

} // verus!
