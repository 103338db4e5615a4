use vstd::prelude::*;

verus! {

/// Malformed hexadecimal bytecode text: an odd number of digits after the
/// optional prefix, or a character that is no hexadecimal digit.
#[derive(Debug, Clone, Copy, PartialEq, Eq, Structural)]
pub enum FormatError {
    OddLength,
    NotHex,
}

/// Value of one hexadecimal digit character, or `None` for any other
/// character.
pub open spec fn spec_hex_digit(c: char) -> Option<u8> {
    let v = c as u32;
    if 48 <= v && v <= 57 {
        Some((v - 48) as u8)
    } else if 97 <= v && v <= 102 {
        Some((v - 97 + 10) as u8)
    } else if 65 <= v && v <= 70 {
        Some((v - 65 + 10) as u8)
    } else {
        None
    }
}

/// The hex digits of a bytecode string: the text with an optional leading
/// "0x" or "0X" marker removed.
pub open spec fn spec_strip_prefix(s: Seq<char>) -> Seq<char> {
    if s.len() >= 2 && s[0] == '0' && (s[1] == 'x' || s[1] == 'X') {
        s.skip(2)
    } else {
        s
    }
}

/// The byte sequence spelled by a sequence of hex digit pairs, or `None`
/// if the length is odd or some character is no hex digit.
pub open spec fn spec_hex_pairs(s: Seq<char>) -> Option<Seq<u8>>
    decreases s.len(),
{
    if s.len() == 0 {
        Some(Seq::empty())
    } else if s.len() == 1 {
        None
    } else {
        match (spec_hex_digit(s[0]), spec_hex_digit(s[1])) {
            (Some(h), Some(l)) => match spec_hex_pairs(s.skip(2)) {
                Some(rest) => Some(seq![(h * 16 + l) as u8] + rest),
                None => None,
            },
            _ => None,
        }
    }
}

/// The raw bytecode spelled by a hex string with an optional "0x" marker.
pub open spec fn spec_hex_decode(s: Seq<char>) -> Option<Seq<u8>> {
    spec_hex_pairs(spec_strip_prefix(s))
}

/// A hex digit sequence of odd length spells no byte sequence.
proof fn lemma_odd_len_fails(s: Seq<char>)
    requires
        s.len() % 2 == 1,
    ensures
        spec_hex_pairs(s) is None,
    decreases s.len(),
{
    if s.len() > 1 {
        lemma_odd_len_fails(s.skip(2));
    }
}

/// A sequence holding a character that is no hex digit spells no byte
/// sequence.
proof fn lemma_bad_digit_fails(s: Seq<char>, i: int)
    requires
        0 <= i < s.len(),
        spec_hex_digit(s[i]) is None,
    ensures
        spec_hex_pairs(s) is None,
    decreases s.len(),
{
    if s.len() >= 2 && i >= 2 {
        lemma_bad_digit_fails(s.skip(2), i - 2);
    }
}

fn hex_digit(c: char) -> (r: Option<u8>)
    ensures
        r == spec_hex_digit(c),
{
    let v = c as u32;
    if 48 <= v && v <= 57 {
        Some((v - 48) as u8)
    } else if 97 <= v && v <= 102 {
        Some((v - 97 + 10) as u8)
    } else if 65 <= v && v <= 70 {
        Some((v - 65 + 10) as u8)
    } else {
        None
    }
}

/// Decode hexadecimal bytecode text, tolerating an optional leading "0x"
/// or "0X" marker, into raw bytes: one byte per digit pair. Fails exactly
/// when the digit count is odd or a character is no hex digit.
pub fn hex_to_bytes(s: &str) -> (r: Result<Vec<u8>, FormatError>)
    ensures
        match r {
            Ok(b) => spec_hex_decode(s@) == Some(b@),
            Err(FormatError::OddLength) => spec_hex_decode(s@) is None && spec_strip_prefix(s@).len()
                % 2 == 1,
            Err(FormatError::NotHex) => spec_hex_decode(s@) is None && (exists|i: int|
                0 <= i < spec_strip_prefix(s@).len() && spec_hex_digit(spec_strip_prefix(s@)[i])
                    is None),
        },
{
    let n = s.unicode_len();
    let start: usize = if n >= 2 && s.get_char(0) == '0' && (s.get_char(1) == 'x' || s.get_char(1)
        == 'X') {
        2
    } else {
        0
    };
    let ghost stripped = spec_strip_prefix(s@);
    proof {
        assert(stripped =~= s@.skip(start as int));
    }
    if (n - start) % 2 == 1 {
        proof {
            lemma_odd_len_fails(stripped);
        }
        return Err(FormatError::OddLength);
    }
    let mut out: Vec<u8> = Vec::new();
    let mut i: usize = start;
    proof {
        assert(stripped.skip(i - start) =~= stripped);
        match spec_hex_pairs(stripped) {
            Some(rest) => {
                assert(out@ + rest =~= rest);
            },
            None => {},
        }
    }
    while i < n
        invariant
            start <= i <= n,
            (i - start) % 2 == 0,
            (n - start) % 2 == 0,
            n == s@.len(),
            stripped == s@.skip(start as int),
            stripped == spec_strip_prefix(s@),
            match spec_hex_pairs(stripped.skip(i - start)) {
                Some(rest) => spec_hex_pairs(stripped) == Some(out@ + rest),
                None => spec_hex_pairs(stripped) is None,
            },
        decreases n - i,
    {
        let c1 = s.get_char(i);
        let c2 = s.get_char(i + 1);
        let ghost k = i - start;
        proof {
            assert(stripped.skip(k)[0] == stripped[k] && stripped[k] == s@[i as int]);
            assert(stripped.skip(k)[1] == stripped[k + 1] && stripped[k + 1] == s@[i + 1 as int]);
        }
        let d1 = hex_digit(c1);
        let d2 = hex_digit(c2);
        match (d1, d2) {
            (Some(h), Some(l)) => {
                let ghost old_out = out@;
                out.push(h * 16 + l);
                i = i + 2;
                proof {
                    assert(stripped.skip(k).skip(2) =~= stripped.skip(i - start));
                    match spec_hex_pairs(stripped.skip(i - start)) {
                        Some(rest) => {
                            assert(spec_hex_pairs(stripped.skip(k)) == Some(
                                seq![(h * 16 + l) as u8] + rest,
                            ));
                            assert(old_out + (seq![(h * 16 + l) as u8] + rest) =~= out@ + rest);
                        },
                        None => {
                            assert(spec_hex_pairs(stripped.skip(k)) is None);
                        },
                    }
                }
            },
            _ => {
                proof {
                    assert(spec_hex_pairs(stripped.skip(k)) is None);
                    if spec_hex_digit(stripped[k]) is None {
                        lemma_bad_digit_fails(stripped, k);
                    } else {
                        lemma_bad_digit_fails(stripped, k + 1);
                    }
                }
                return Err(FormatError::NotHex);
            },
        }
    }
    proof {
        assert(stripped.skip(i - start) =~= Seq::<char>::empty());
        assert(spec_hex_pairs(stripped.skip(i - start)) == Some(Seq::<u8>::empty()));
        assert(out@ + Seq::<u8>::empty() =~= out@);
    }
    Ok(out)
}

} // verus!
