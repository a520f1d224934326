//! Decimal parsing of configuration values handed in as text. As with
//! the standard library's integer parsing, one leading plus or minus
//! sign is accepted ahead of the digits.

use vstd::prelude::*;

verus! {

/// Whether a character is a decimal digit.
pub open spec fn is_dec_digit(c: char) -> bool {
    48 <= c as int <= 57
}

/// The numeric value of a decimal digit character.
pub open spec fn dec_val(c: char) -> int {
    c as int - 48
}

/// Whether a text is a plain digit string: non-empty and all digits.
pub open spec fn is_dec_string(s: Seq<char>) -> bool {
    s.len() > 0 && forall|i: int| 0 <= i < s.len() ==> is_dec_digit(#[trigger] s[i])
}

/// The value of a digit string, most significant digit first.
pub open spec fn dec_value(s: Seq<char>) -> int
    decreases s.len(),
{
    if s.len() == 0 {
        0
    } else {
        dec_value(s.drop_last()) * 10 + dec_val(s.last())
    }
}

/// Whether a text is an unsigned decimal numeral: digits, after at most
/// one leading plus sign.
pub open spec fn is_unsigned_numeral(s: Seq<char>) -> bool {
    if s.len() > 0 && s[0] == '+' {
        is_dec_string(s.subrange(1, s.len() as int))
    } else {
        is_dec_string(s)
    }
}

/// The value of an unsigned decimal numeral.
pub open spec fn unsigned_numeral_value(s: Seq<char>) -> int {
    if s.len() > 0 && s[0] == '+' {
        dec_value(s.subrange(1, s.len() as int))
    } else {
        dec_value(s)
    }
}

/// Whether a text is a signed decimal numeral: digits, after at most
/// one leading plus or minus sign.
pub open spec fn is_signed_numeral(s: Seq<char>) -> bool {
    if s.len() > 0 && (s[0] == '-' || s[0] == '+') {
        is_dec_string(s.subrange(1, s.len() as int))
    } else {
        is_dec_string(s)
    }
}

/// The value of a signed decimal numeral.
pub open spec fn signed_numeral_value(s: Seq<char>) -> int {
    if s.len() > 0 && s[0] == '-' {
        -dec_value(s.subrange(1, s.len() as int))
    } else if s.len() > 0 && s[0] == '+' {
        dec_value(s.subrange(1, s.len() as int))
    } else {
        dec_value(s)
    }
}

/// A digit string's value is never negative.
proof fn lemma_dec_value_nonneg(s: Seq<char>)
    requires
        forall|i: int| 0 <= i < s.len() ==> is_dec_digit(#[trigger] s[i]),
    ensures
        dec_value(s) >= 0,
    decreases s.len(),
{
    if s.len() > 0 {
        lemma_dec_value_nonneg(s.drop_last());
    }
}

/// Extending a digit string can only grow its value.
proof fn lemma_dec_value_extend(s: Seq<char>, i: int)
    requires
        0 <= i <= s.len(),
        forall|j: int| 0 <= j < s.len() ==> is_dec_digit(#[trigger] s[j]),
    ensures
        dec_value(s) >= dec_value(s.subrange(0, i)),
    decreases s.len() - i,
{
    if i == s.len() {
        assert(s.subrange(0, i) =~= s);
    } else {
        let longer = s.subrange(0, i + 1);
        assert(longer.drop_last() =~= s.subrange(0, i));
        lemma_dec_value_nonneg(s.subrange(0, i));
        assert(dec_value(longer) >= dec_value(s.subrange(0, i)));
        lemma_dec_value_extend(s, i + 1);
    }
}

/// Parses a plain digit string. Returns its value exactly when the text
/// is non-empty, all digits, and the value fits in a `u64`.
fn parse_digits(s: &str) -> (r: Option<u64>)
    ensures
        match r {
            Some(v) => is_dec_string(s@) && dec_value(s@) == v as int,
            None => !is_dec_string(s@) || dec_value(s@) > u64::MAX,
        },
{
    let n = s.unicode_len();
    if n == 0 {
        return None;
    }
    let mut value: u64 = 0;
    let mut i: usize = 0;
    while i < n
        invariant
            0 < n == s@.len(),
            i <= n,
            forall|j: int| 0 <= j < i ==> is_dec_digit(#[trigger] s@[j]),
            value as int == dec_value(s@.subrange(0, i as int)),
        decreases n - i,
    {
        let c = s.get_char(i);
        let cv = c as u32;
        if cv < 48 || cv > 57 {
            return None;
        }
        let d: u64 = (cv - 48) as u64;
        proof {
            let prefix = s@.subrange(0, i as int);
            let extended = s@.subrange(0, i + 1 as int);
            assert(extended.drop_last() =~= prefix);
            assert(dec_value(extended) == dec_value(prefix) * 10 + d);
        }
        if value > (u64::MAX - d) / 10 {
            proof {
                assert((value * 10 + d) as int > u64::MAX) by {
                    assert(value as int >= ((u64::MAX - d) as int) / 10 + 1);
                };
                if is_dec_string(s@) {
                    lemma_dec_value_extend(s@, i + 1 as int);
                }
            }
            return None;
        }
        value = value * 10 + d;
        i = i + 1;
    }
    proof {
        assert(s@.subrange(0, n as int) =~= s@);
    }
    Some(value)
}

/// Parses an unsigned decimal numeral, one optional leading plus sign
/// allowed. Returns its value exactly when the text is well formed and
/// the value fits in a `u64`.
pub fn parse_u64(s: &str) -> (r: Option<u64>)
    ensures
        match r {
            Some(v) => is_unsigned_numeral(s@) && unsigned_numeral_value(s@) == v as int,
            None => !is_unsigned_numeral(s@) || unsigned_numeral_value(s@) > u64::MAX,
        },
{
    let n = s.unicode_len();
    if n > 0 && s.get_char(0) == '+' {
        let digits = s.substring_char(1, n);
        parse_digits(digits)
    } else {
        parse_digits(s)
    }
}

/// Parses a signed decimal numeral, one optional leading plus or minus
/// sign allowed. Returns its value exactly when the text is well formed
/// and the value fits in an `i64`.
pub fn parse_i64(s: &str) -> (r: Option<i64>)
    ensures
        match r {
            Some(v) => is_signed_numeral(s@) && signed_numeral_value(s@) == v as int,
            None => !is_signed_numeral(s@) || signed_numeral_value(s@) < i64::MIN
                || signed_numeral_value(s@) > i64::MAX,
        },
{
    let n = s.unicode_len();
    if n == 0 {
        return None;
    }
    if s.get_char(0) == '-' {
        let digits = s.substring_char(1, n);
        match parse_digits(digits) {
            Some(v) => {
                if v <= 9223372036854775808u64 {
                    let r: i64 = if v == 9223372036854775808u64 {
                        i64::MIN
                    } else {
                        -(v as i64)
                    };
                    Some(r)
                } else {
                    None
                }
            },
            None => {
                proof {
                    if is_signed_numeral(s@) {
                        lemma_dec_value_nonneg(s@.subrange(1, n as int));
                    }
                }
                None
            },
        }
    } else {
        match parse_u64(s) {
            Some(v) => {
                if v <= i64::MAX as u64 {
                    Some(v as i64)
                } else {
                    None
                }
            },
            None => None,
        }
    }
}

} // verus!
