//! Parsing of seed values written in hexadecimal, with an optional `0x`
//! prefix, matching the standard library's radix-16 unsigned parse: an
//! optional single `+` sign, then at least one hexadecimal digit; a value
//! over the 32-bit range is a positive overflow, reported at the first
//! digit that causes it, and any other character (a `-` sign included) is
//! an invalid digit.

use vstd::prelude::*;

verus! {

/// Why a seed string failed to parse.
#[derive(Clone, Copy, Debug, PartialEq, Eq, Structural)]
pub enum HexParseError {
    /// No digits at all (after the prefix and sign, if any).
    Empty,
    /// A character that is not a hexadecimal digit.
    InvalidDigit,
    /// The value does not fit in 32 bits.
    PosOverflow,
}

/// Outcome of scanning a digit run.
pub ghost enum HexOutcome {
    /// All digits valid, accumulated value in range.
    Value(int),
    /// Scanning stopped at a character that is no hexadecimal digit.
    BadDigit,
    /// Scanning stopped at a digit that takes the value out of range.
    OutOfRange,
}

/// The value of a hexadecimal digit, or -1 for any other character.
pub open spec fn hex_digit_val(c: char) -> int {
    let u = c as int;
    if 48 <= u <= 57 {
        u - 48
    } else if 97 <= u <= 102 {
        u - 87
    } else if 65 <= u <= 70 {
        u - 55
    } else {
        -1
    }
}

/// Scan of a digit run for a non-negative value: digits accumulate in base
/// sixteen onto `acc`, stopping at the first non-digit or the first digit
/// that takes the value over the 32-bit range.
pub open spec fn parse_hex_pos(digits: Seq<char>, acc: int) -> HexOutcome
    decreases digits.len(),
{
    if digits.len() == 0 {
        HexOutcome::Value(acc)
    } else if hex_digit_val(digits[0]) < 0 {
        HexOutcome::BadDigit
    } else if acc * 16 + hex_digit_val(digits[0]) > 0xffff_ffff {
        HexOutcome::OutOfRange
    } else {
        parse_hex_pos(digits.drop_first(), acc * 16 + hex_digit_val(digits[0]))
    }
}

/// The input with one leading `0x` removed, when present.
pub open spec fn strip_hex_prefix(s: Seq<char>) -> Seq<char> {
    if s.len() >= 2 && s[0] == '0' && s[1] == 'x' {
        s.subrange(2, s.len() as int)
    } else {
        s
    }
}

/// What parsing a seed string yields, for every input.
pub open spec fn spec_from_hex_str(s: Seq<char>) -> Result<u32, HexParseError> {
    let t = strip_hex_prefix(s);
    if t.len() == 0 {
        Err(HexParseError::Empty)
    } else if t[0] == '+' {
        if t.len() == 1 {
            Err(HexParseError::InvalidDigit)
        } else {
            match parse_hex_pos(t.drop_first(), 0) {
                HexOutcome::Value(v) => Ok(v as u32),
                HexOutcome::BadDigit => Err(HexParseError::InvalidDigit),
                HexOutcome::OutOfRange => Err(HexParseError::PosOverflow),
            }
        }
    } else {
        match parse_hex_pos(t, 0) {
            HexOutcome::Value(v) => Ok(v as u32),
            HexOutcome::BadDigit => Err(HexParseError::InvalidDigit),
            HexOutcome::OutOfRange => Err(HexParseError::PosOverflow),
        }
    }
}

/// The executable value of one hexadecimal digit, `16` for any other
/// character.
fn hex_digit(c: char) -> (r: u32)
    ensures
        hex_digit_val(c) >= 0 ==> r == hex_digit_val(c),
        hex_digit_val(c) < 0 ==> r == 16,
{
    let u = c as u32;
    if u >= 48 && u <= 57 {
        u - 48
    } else if u >= 97 && u <= 102 {
        u - 87
    } else if u >= 65 && u <= 70 {
        u - 55
    } else {
        16
    }
}

/// The digit run of a non-negative parse, scanned left to right.
fn scan_hex_pos(s: &str, start: usize, len: usize) -> (r: Result<u32, HexParseError>)
    requires
        len == s@.len(),
        start <= len,
    ensures
        r is Ok <==> parse_hex_pos(s@.subrange(start as int, len as int), 0) is Value,
        r matches Ok(v) ==> parse_hex_pos(s@.subrange(start as int, len as int), 0)
            == HexOutcome::Value(v as int),
        r == Err::<u32, HexParseError>(HexParseError::InvalidDigit) <==> parse_hex_pos(
            s@.subrange(start as int, len as int),
            0,
        ) is BadDigit,
        r == Err::<u32, HexParseError>(HexParseError::PosOverflow) <==> parse_hex_pos(
            s@.subrange(start as int, len as int),
            0,
        ) is OutOfRange,
{
    let ghost whole = s@.subrange(start as int, len as int);
    let mut acc: u32 = 0;
    let mut p: usize = start;
    while p < len
        invariant
            len == s@.len(),
            start <= p <= len,
            whole == s@.subrange(start as int, len as int),
            parse_hex_pos(whole, 0) == parse_hex_pos(s@.subrange(p as int, len as int), acc as int),
        decreases len - p,
    {
        let ghost rest = s@.subrange(p as int, len as int);
        let c = s.get_char(p);
        proof {
            assert(rest[0] == s@[p as int]);
            assert(rest.drop_first() =~= s@.subrange(p as int + 1, len as int));
        }
        let d = hex_digit(c);
        if d == 16 {
            return Err(HexParseError::InvalidDigit);
        }
        let wide: u64 = (acc as u64) * 16 + (d as u64);
        if wide > 0xffff_ffff {
            return Err(HexParseError::PosOverflow);
        }
        acc = wide as u32;
        p += 1;
    }
    proof {
        assert(s@.subrange(len as int, len as int) =~= Seq::<char>::empty());
    }
    Ok(acc)
}

/// Parses a seed written in hexadecimal, with an optional `0x` prefix.
pub fn from_hex_str(src: &str) -> (r: Result<u32, HexParseError>)
    ensures
        r == spec_from_hex_str(src@),
{
    let n = src.unicode_len();
    let has_prefix = n >= 2 && src.get_char(0) == '0' && src.get_char(1) == 'x';
    let start: usize = if has_prefix {
        2
    } else {
        0
    };
    let ghost t = strip_hex_prefix(src@);
    proof {
        assert(t =~= src@.subrange(start as int, n as int));
    }
    if start == n {
        return Err(HexParseError::Empty);
    }
    let first = src.get_char(start);
    proof {
        assert(t[0] == src@[start as int]);
    }
    if first == '+' {
        if start + 1 == n {
            return Err(HexParseError::InvalidDigit);
        }
        proof {
            assert(t.drop_first() =~= src@.subrange(start as int + 1, n as int));
        }
        match scan_hex_pos(src, start + 1, n) {
            Ok(v) => Ok(v),
            Err(e) => Err(e),
        }
    } else {
        match scan_hex_pos(src, start, n) {
            Ok(v) => Ok(v),
            Err(e) => Err(e),
        }
    }
}

} // verus!
