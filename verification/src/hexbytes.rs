//! Hex text decoding for the wire format's byte-valued fields: fixed-length
//! ids and hashes, and variable-length scripts.

use vstd::prelude::*;
use vstd::string::*;

verus! {

/// Why hex text failed to convert into bytes.
#[derive(Debug, Clone, Copy, PartialEq, Eq, Structural)]
pub enum HexError {
    /// Odd length, or a character that is not a hex digit.
    InvalidHex,
    /// Well-formed hex whose decoded byte count differs from the target's
    /// fixed size.
    WrongLength,
}

/// A hex digit, in either case.
pub open spec fn is_hex_digit(c: char) -> bool {
    (48 <= c as int <= 57) || (97 <= c as int <= 102) || (65 <= c as int <= 70)
}

/// The value of a hex digit.
pub open spec fn hex_val(c: char) -> int {
    if 48 <= c as int <= 57 {
        c as int - 48
    } else if 97 <= c as int <= 102 {
        c as int - 87
    } else {
        c as int - 55
    }
}

/// Every character of `s` is a hex digit.
pub open spec fn all_hex_digits(s: Seq<char>) -> bool {
    forall|i: int| 0 <= i < s.len() ==> is_hex_digit(#[trigger] s[i])
}

/// `s` is well-formed hex text: an even number of hex digits.
pub open spec fn hex_text_ok(s: Seq<char>) -> bool {
    s.len() % 2 == 0 && all_hex_digits(s)
}

/// The bytes that well-formed hex text encodes, two digits per byte.
pub open spec fn hex_bytes(s: Seq<char>) -> Seq<u8>
    decreases s.len(),
{
    if s.len() < 2 {
        Seq::empty()
    } else {
        hex_bytes(s.take(s.len() - 2)) + seq![
            (hex_val(s[s.len() - 2]) * 16 + hex_val(s[s.len() - 1])) as u8,
        ]
    }
}

/// Hex text decodes to half as many bytes as it has digits.
pub proof fn lemma_hex_bytes_len(s: Seq<char>)
    ensures
        hex_bytes(s).len() == s.len() / 2,
    decreases s.len(),
{
    if s.len() >= 2 {
        lemma_hex_bytes_len(s.take(s.len() - 2));
    }
}

/// The value of one hex digit character, if it is one.
fn hex_digit_value(c: char) -> (r: Option<u8>)
    ensures
        r is Some <==> is_hex_digit(c),
        r matches Some(v) ==> v == hex_val(c),
{
    let v = c as u32;
    if 48 <= v && v <= 57 {
        Some((v - 48) as u8)
    } else if 97 <= v && v <= 102 {
        Some((v - 87) as u8)
    } else if 65 <= v && v <= 70 {
        Some((v - 55) as u8)
    } else {
        None
    }
}

/// Decodes hex text into bytes.
///
/// Succeeds exactly on an even number of hex digits and returns the encoded
/// bytes; anything else is invalid hex.
pub fn decode_hex(s: &str) -> (r: Result<Vec<u8>, HexError>)
    ensures
        r is Ok <==> hex_text_ok(s@),
        r matches Ok(v) ==> v@ == hex_bytes(s@),
        r is Err ==> r->Err_0 == HexError::InvalidHex,
{
    let n = s.unicode_len();
    if n % 2 != 0 {
        return Err(HexError::InvalidHex);
    }
    let mut out: Vec<u8> = Vec::new();
    let mut i: usize = 0;
    while i < n
        invariant
            i <= n == s@.len(),
            i % 2 == 0,
            n % 2 == 0,
            all_hex_digits(s@.take(i as int)),
            out@ == hex_bytes(s@.take(i as int)),
        decreases n - i,
    {
        let c1 = s.get_char(i);
        let c2 = s.get_char(i + 1);
        let v1 = match hex_digit_value(c1) {
            Some(v) => v,
            None => {
                return Err(HexError::InvalidHex);
            },
        };
        let v2 = match hex_digit_value(c2) {
            Some(v) => v,
            None => {
                return Err(HexError::InvalidHex);
            },
        };
        let b: u8 = v1 * 16 + v2;
        out.push(b);
        proof {
            let t = s@.take(i + 2);
            assert(t.take(t.len() - 2) =~= s@.take(i as int));
            assert(t[t.len() - 2] == s@[i as int]);
            assert(t[t.len() - 1] == s@[i + 1]);
            assert(out@ =~= hex_bytes(t));
            assert forall|j: int| 0 <= j < i + 2 implies is_hex_digit(#[trigger] s@.take(i + 2)[j])
            by {
                assert(s@.take(i + 2)[j] == s@[j]);
                if j < i {
                    assert(s@.take(i as int)[j] == s@[j]);
                }
            }
        }
        i += 2;
    }
    proof {
        assert(s@.take(n as int) =~= s@);
    }
    Ok(out)
}

/// Decodes hex text that must encode exactly `want` bytes.
///
/// Malformed hex is invalid whatever its length; well-formed hex of any other
/// decoded length is the length-specific failure.
pub fn decode_hex_exact(s: &str, want: usize) -> (r: Result<Vec<u8>, HexError>)
    ensures
        r is Ok <==> hex_text_ok(s@) && hex_bytes(s@).len() == want,
        r matches Ok(v) ==> v@ == hex_bytes(s@),
        r matches Err(e) ==> (e == HexError::InvalidHex <==> !hex_text_ok(s@)),
        hex_text_ok(s@) && r is Err ==> r->Err_0 == HexError::WrongLength,
{
    match decode_hex(s) {
        Ok(v) => {
            if v.len() == want {
                Ok(v)
            } else {
                Err(HexError::WrongLength)
            }
        },
        Err(e) => Err(e),
    }
}

} // verus!
