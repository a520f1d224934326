//! The broadcast envelope: the JSON object sent to every subscriber of a
//! room for one chat message, and the string escaping it needs.

use vstd::prelude::*;
use crate::text::{dec_of_int, decimal_i32};

verus! {

/// One hexadecimal digit as a character, lower case.
pub open spec fn hex_digit(d: int) -> char {
    if d == 0 {
        '0'
    } else if d == 1 {
        '1'
    } else if d == 2 {
        '2'
    } else if d == 3 {
        '3'
    } else if d == 4 {
        '4'
    } else if d == 5 {
        '5'
    } else if d == 6 {
        '6'
    } else if d == 7 {
        '7'
    } else if d == 8 {
        '8'
    } else if d == 9 {
        '9'
    } else if d == 10 {
        'a'
    } else if d == 11 {
        'b'
    } else if d == 12 {
        'c'
    } else if d == 13 {
        'd'
    } else if d == 14 {
        'e'
    } else {
        'f'
    }
}

/// How one character appears inside a JSON string literal: quote,
/// backslash and the named control characters get a two-character
/// escape, the remaining control characters a `\u00..` escape, and
/// every other character stands for itself.
pub open spec fn json_escaped_char(c: char) -> Seq<char> {
    if c == '"' {
        seq!['\\', '"']
    } else if c == '\\' {
        seq!['\\', '\\']
    } else if c == '\u{8}' {
        seq!['\\', 'b']
    } else if c == '\t' {
        seq!['\\', 't']
    } else if c == '\n' {
        seq!['\\', 'n']
    } else if c == '\u{c}' {
        seq!['\\', 'f']
    } else if c == '\r' {
        seq!['\\', 'r']
    } else if (c as u32) < 0x20 {
        seq!['\\', 'u', '0', '0', hex_digit(c as u32 as int / 16), hex_digit(c as u32 as int % 16)]
    } else {
        seq![c]
    }
}

/// A whole text as it appears inside a JSON string literal.
pub open spec fn json_escaped(s: Seq<char>) -> Seq<char>
    decreases s.len(),
{
    if s.len() == 0 {
        Seq::<char>::empty()
    } else {
        json_escaped(s.drop_last()) + json_escaped_char(s.last())
    }
}

/// One hexadecimal digit as an executable character.
fn hex_digit_char(d: u32) -> (c: char)
    requires
        d < 16,
    ensures
        c == hex_digit(d as int),
{
    if d == 0 {
        '0'
    } else if d == 1 {
        '1'
    } else if d == 2 {
        '2'
    } else if d == 3 {
        '3'
    } else if d == 4 {
        '4'
    } else if d == 5 {
        '5'
    } else if d == 6 {
        '6'
    } else if d == 7 {
        '7'
    } else if d == 8 {
        '8'
    } else if d == 9 {
        '9'
    } else if d == 10 {
        'a'
    } else if d == 11 {
        'b'
    } else if d == 12 {
        'c'
    } else if d == 13 {
        'd'
    } else if d == 14 {
        'e'
    } else {
        'f'
    }
}

/// Escapes a text for inclusion in a JSON string literal.
pub fn escape_json(s: &str) -> (out: String)
    ensures
        out@ == json_escaped(s@),
{
    let n = s.unicode_len();
    let mut out = String::new();
    let mut i: usize = 0;
    while i < n
        invariant
            i <= n,
            n == s@.len(),
            out@ == json_escaped(s@.subrange(0, i as int)),
        decreases n - i,
    {
        let c = s.get_char(i);
        if c == '"' {
            out.append("\\\"");
            proof {
                reveal_strlit("\\\"");
            }
        } else if c == '\\' {
            out.append("\\\\");
            proof {
                reveal_strlit("\\\\");
            }
        } else if c == '\u{8}' {
            out.append("\\b");
            proof {
                reveal_strlit("\\b");
            }
        } else if c == '\t' {
            out.append("\\t");
            proof {
                reveal_strlit("\\t");
            }
        } else if c == '\n' {
            out.append("\\n");
            proof {
                reveal_strlit("\\n");
            }
        } else if c == '\u{c}' {
            out.append("\\f");
            proof {
                reveal_strlit("\\f");
            }
        } else if c == '\r' {
            out.append("\\r");
            proof {
                reveal_strlit("\\r");
            }
        } else if (c as u32) < 0x20 {
            out.append("\\u00");
            proof {
                reveal_strlit("\\u00");
            }
            push_char_pair(&mut out, hex_digit_char((c as u32) / 16), hex_digit_char(
                (c as u32) % 16,
            ));
        } else {
            crate::text::push_char(&mut out, c);
        }
        proof {
            let prefix = s@.subrange(0, i as int);
            let extended = s@.subrange(0, i + 1 as int);
            assert(extended.drop_last() =~= prefix);
            assert(extended.last() == c);
            assert(out@ =~= json_escaped(extended));
        }
        i = i + 1;
    }
    proof {
        assert(s@.subrange(0, n as int) =~= s@);
    }
    out
}

/// Appends two characters.
fn push_char_pair(s: &mut String, c1: char, c2: char)
    ensures
        final(s)@ == old(s)@.push(c1).push(c2),
{
    crate::text::push_char(s, c1);
    crate::text::push_char(s, c2);
}

/// The broadcast envelope for one chat message: a JSON object carrying
/// the sender, the raw content, the fixed kind tag, and the broadcast
/// timestamp the relay read when the message became eligible for
/// fan-out.
pub open spec fn envelope_json(user_id: int, content: Seq<char>, created_at: Seq<char>) -> Seq<
    char,
> {
    "{\"user_id\":"@ + dec_of_int(user_id) + ",\"content\":\""@ + json_escaped(content)
        + "\",\"type\":\"chat\",\"created_at\":\""@ + json_escaped(created_at) + "\"}"@
}

/// Builds the broadcast envelope as wire text.
pub fn encode_envelope(user_id: i32, content: &str, created_at: &str) -> (out: String)
    ensures
        out@ == envelope_json(user_id as int, content@, created_at@),
{
    let mut out = String::from_str("{\"user_id\":");
    let uid = decimal_i32(user_id);
    out.append(uid.as_str());
    out.append(",\"content\":\"");
    let escaped_content = escape_json(content);
    out.append(escaped_content.as_str());
    out.append("\",\"type\":\"chat\",\"created_at\":\"");
    let escaped_at = escape_json(created_at);
    out.append(escaped_at.as_str());
    out.append("\"}");
    proof {
        assert(out@ =~= envelope_json(user_id as int, content@, created_at@));
    }
    out
}

} // verus!
