use vstd::prelude::*;
use crate::errors::HubError;

verus! {

/// An ASCII decimal digit.
pub open spec fn is_digit(c: char) -> bool {
    '0' <= c && c <= '9'
}

/// The numeric value of one digit.
pub open spec fn digit_value(c: char) -> nat
    recommends
        is_digit(c),
{
    ((c as int) - ('0' as int)) as nat
}

/// Every character is a decimal digit.
pub open spec fn all_digits(s: Seq<char>) -> bool {
    forall|i: int| 0 <= i < s.len() ==> is_digit(s[i])
}

/// The value of a digit string read as a base-ten numeral.
pub open spec fn dec_value(s: Seq<char>) -> nat
    recommends
        all_digits(s),
    decreases s.len(),
{
    if s.len() == 0 {
        0
    } else {
        dec_value(s.drop_last()) * 10 + digit_value(s.last())
    }
}

/// The digits of an unsigned numeral: everything after an optional leading
/// plus sign.
pub open spec fn unsigned_body(s: Seq<char>) -> Seq<char> {
    if s.len() > 0 && s[0] == '+' {
        s.drop_first()
    } else {
        s
    }
}

/// A well-formed volume field: an optional plus sign, then at least one
/// digit, with a value that fits the device's eight-bit volume range.
pub open spec fn is_u8_numeral(s: Seq<char>) -> bool {
    &&& unsigned_body(s).len() > 0
    &&& all_digits(unsigned_body(s))
    &&& dec_value(unsigned_body(s)) <= 255
}

/// The value of a well-formed volume field.
pub open spec fn u8_numeral_value(s: Seq<char>) -> nat
    recommends
        is_u8_numeral(s),
{
    dec_value(unsigned_body(s))
}

/// The digits of a signed numeral: everything after an optional leading
/// sign.
pub open spec fn signed_body(s: Seq<char>) -> Seq<char> {
    if s.len() > 0 && (s[0] == '+' || s[0] == '-') {
        s.drop_first()
    } else {
        s
    }
}

/// The numeral carries a minus sign.
pub open spec fn signed_negative(s: Seq<char>) -> bool {
    s.len() > 0 && s[0] == '-'
}

/// A well-formed preset field: an optional sign, then at least one digit,
/// with a value that fits a 32-bit signed integer.
pub open spec fn is_i32_numeral(s: Seq<char>) -> bool {
    &&& signed_body(s).len() > 0
    &&& all_digits(signed_body(s))
    &&& (if signed_negative(s) {
        dec_value(signed_body(s)) <= 0x8000_0000
    } else {
        dec_value(signed_body(s)) <= 0x7fff_ffff
    })
}

/// The value of a well-formed preset field.
pub open spec fn i32_numeral_value(s: Seq<char>) -> int
    recommends
        is_i32_numeral(s),
{
    if signed_negative(s) {
        -(dec_value(signed_body(s)) as int)
    } else {
        dec_value(signed_body(s)) as int
    }
}

/// Read the digits of `s` from `start` to its end as a base-ten numeral,
/// refusing an empty digit string, a non-digit character, or a value above
/// `cap`.
fn parse_digits_capped(s: &str, start: usize, cap: u32) -> (r: Option<u32>)
    requires
        start <= s@.len(),
    ensures
        ({
            let body = s@.subrange(start as int, s@.len() as int);
            match r {
                Some(v) => body.len() > 0 && all_digits(body) && dec_value(body) == v && v <= cap,
                None => !(body.len() > 0 && all_digits(body) && dec_value(body) <= cap),
            }
        }),
{
    let ghost body = s@.subrange(start as int, s@.len() as int);
    let len = s.unicode_len();
    if start >= len {
        return None;
    }
    let mut i = start;
    let mut acc: u32 = 0;
    let mut overflowed = false;
    while i < len
        invariant
            start <= i <= len,
            len == s@.len(),
            cap <= u32::MAX,
            all_digits(s@.subrange(start as int, i as int)),
            !overflowed ==> acc == dec_value(s@.subrange(start as int, i as int)) && acc <= cap,
            overflowed ==> dec_value(s@.subrange(start as int, i as int)) > cap,
        decreases len - i,
    {
        let c = s.get_char(i);
        if !('0' <= c && c <= '9') {
            proof {
                assert(s@.subrange(start as int, s@.len() as int)[i - start] == c);
            }
            return None;
        }
        let d: u32 = (c as u32) - ('0' as u32);
        let ghost prefix = s@.subrange(start as int, i as int);
        let ghost extended = s@.subrange(start as int, i as int + 1);
        proof {
            assert(extended.drop_last() =~= prefix);
            assert(extended.last() == c);
        }
        if !overflowed {
            let next: u64 = (acc as u64) * 10 + (d as u64);
            if next > cap as u64 {
                overflowed = true;
                proof {
                    assert(dec_value(extended) == dec_value(prefix) * 10 + digit_value(c));
                }
            } else {
                acc = next as u32;
            }
        } else {
            proof {
                assert(dec_value(extended) == dec_value(prefix) * 10 + digit_value(c));
                assert(dec_value(prefix) <= dec_value(prefix) * 10 + digit_value(c));
            }
        }
        i = i + 1;
    }
    proof {
        assert(s@.subrange(start as int, i as int) =~= body);
    }
    if overflowed {
        None
    } else {
        Some(acc)
    }
}

/// Parse an inbound volume field exactly as an eight-bit unsigned decimal:
/// an optional plus sign, then at least one digit, value at most 255.
/// Anything else is malformed input — a client error, not a server fault.
pub fn parse_volume(s: &str) -> (r: Result<u8, HubError>)
    ensures
        is_u8_numeral(s@) <==> r is Ok,
        r matches Ok(v) ==> v as nat == u8_numeral_value(s@),
        r is Err ==> r == Err::<u8, HubError>(HubError::MalformedInput),
{
    let len = s.unicode_len();
    let start: usize = if len > 0 && s.get_char(0) == '+' {
        1
    } else {
        0
    };
    proof {
        assert(unsigned_body(s@) =~= s@.subrange(start as int, s@.len() as int));
    }
    match parse_digits_capped(s, start, 255) {
        Some(v) => Ok(v as u8),
        None => Err(HubError::MalformedInput),
    }
}

/// Parse an inbound preset field exactly as a 32-bit signed decimal: an
/// optional sign, then at least one digit, value within the 32-bit range.
/// Anything else is malformed input — a client error, not a server fault.
pub fn parse_preset(s: &str) -> (r: Result<i32, HubError>)
    ensures
        is_i32_numeral(s@) <==> r is Ok,
        r matches Ok(v) ==> v as int == i32_numeral_value(s@),
        r is Err ==> r == Err::<i32, HubError>(HubError::MalformedInput),
{
    let len = s.unicode_len();
    let mut neg = false;
    let mut start: usize = 0;
    if len > 0 {
        let c0 = s.get_char(0);
        if c0 == '+' {
            start = 1;
        } else if c0 == '-' {
            start = 1;
            neg = true;
        }
    }
    let cap: u32 = if neg {
        0x8000_0000
    } else {
        0x7fff_ffff
    };
    proof {
        assert(signed_body(s@) =~= s@.subrange(start as int, s@.len() as int));
        assert(neg == signed_negative(s@));
    }
    match parse_digits_capped(s, start, cap) {
        Some(v) => if neg {
            Ok((-(v as i64)) as i32)
        } else {
            Ok(v as i32)
        },
        None => Err(HubError::MalformedInput),
    }
}

} // verus!
