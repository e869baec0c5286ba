//! Quoting of strings as literals of the generated constant-table source.
//!
//! The constant tables embed every document string as a double-quoted
//! literal of the host language, so quotes, backslashes and control
//! characters must be escaped.  Quotes and backslashes get a backslash
//! prefix, the common control characters their short escapes, and any
//! other control character a braced hexadecimal escape.  The inverse
//! parser and the round-trip proof show that a literal written this way
//! reads back as exactly the original character codes.

use vstd::prelude::*;
use crate::text::string_from_chars;

verus! {

/// Control characters, which must not stand raw inside a literal.
pub open spec fn is_control_char(c: char) -> bool {
    (c as u32) < 32 || (c as u32) == 127
}

/// The lower-case hexadecimal digit for a value below sixteen.
pub open spec fn hex_digit(n: u32) -> char {
    if n == 0 {
        '0'
    } else if n == 1 {
        '1'
    } else if n == 2 {
        '2'
    } else if n == 3 {
        '3'
    } else if n == 4 {
        '4'
    } else if n == 5 {
        '5'
    } else if n == 6 {
        '6'
    } else if n == 7 {
        '7'
    } else if n == 8 {
        '8'
    } else if n == 9 {
        '9'
    } else if n == 10 {
        'a'
    } else if n == 11 {
        'b'
    } else if n == 12 {
        'c'
    } else if n == 13 {
        'd'
    } else if n == 14 {
        'e'
    } else {
        'f'
    }
}

/// The value of a lower-case hexadecimal digit.
pub open spec fn hex_val(c: char) -> u32 {
    if c == '0' {
        0
    } else if c == '1' {
        1
    } else if c == '2' {
        2
    } else if c == '3' {
        3
    } else if c == '4' {
        4
    } else if c == '5' {
        5
    } else if c == '6' {
        6
    } else if c == '7' {
        7
    } else if c == '8' {
        8
    } else if c == '9' {
        9
    } else if c == 'a' {
        10
    } else if c == 'b' {
        11
    } else if c == 'c' {
        12
    } else if c == 'd' {
        13
    } else if c == 'e' {
        14
    } else {
        15
    }
}

/// The braced hexadecimal escape of a control character's code.
pub open spec fn control_escape(n: u32) -> Seq<char> {
    if n < 16 {
        seq!['\\', 'u', '{', hex_digit(n), '}']
    } else {
        seq!['\\', 'u', '{', hex_digit(n / 16), hex_digit(n % 16), '}']
    }
}

/// What one character becomes inside a quoted literal.
pub open spec fn lit_escaped_char(c: char) -> Seq<char> {
    if c == '"' {
        seq!['\\', '"']
    } else if c == '\\' {
        seq!['\\', '\\']
    } else if c == '\n' {
        seq!['\\', 'n']
    } else if c == '\r' {
        seq!['\\', 'r']
    } else if c == '\t' {
        seq!['\\', 't']
    } else if is_control_char(c) {
        control_escape(c as u32)
    } else {
        seq![c]
    }
}

/// The literal body of a whole string: each character escaped, in order.
pub open spec fn lit_escape_seq(s: Seq<char>) -> Seq<char>
    decreases s.len(),
{
    if s.len() == 0 {
        Seq::<char>::empty()
    } else {
        lit_escaped_char(s[0]) + lit_escape_seq(s.skip(1))
    }
}

/// The full double-quoted literal for a string.
pub open spec fn quoted(s: Seq<char>) -> Seq<char> {
    seq!['"'] + lit_escape_seq(s) + seq!['"']
}

/// The code named by a short escape `\c`.
pub open spec fn short_escape_code(c: char) -> u32 {
    if c == 'n' {
        10
    } else if c == 'r' {
        13
    } else if c == 't' {
        9
    } else {
        c as u32
    }
}

/// How a literal parser reads an escaped body back, as character codes.
pub open spec fn lit_unescape_codes(s: Seq<char>) -> Seq<u32>
    decreases s.len(),
{
    if s.len() == 0 {
        Seq::<u32>::empty()
    } else if s[0] == '\\' && s.len() >= 2 {
        if s[1] == 'u' {
            if s.len() >= 5 && s[2] == '{' && s[4] == '}' {
                seq![hex_val(s[3])] + lit_unescape_codes(s.skip(5))
            } else if s.len() >= 6 && s[2] == '{' && s[5] == '}' {
                seq![(16 * hex_val(s[3]) + hex_val(s[4])) as u32] + lit_unescape_codes(s.skip(6))
            } else {
                lit_unescape_codes(s.skip(2))
            }
        } else {
            seq![short_escape_code(s[1])] + lit_unescape_codes(s.skip(2))
        }
    } else {
        seq![s[0] as u32] + lit_unescape_codes(s.skip(1))
    }
}

/// The character codes of a string.
pub open spec fn char_codes(s: Seq<char>) -> Seq<u32> {
    Seq::new(s.len(), |i: int| s[i] as u32)
}

/// Round-trip through the literal grammar: parsing the escaped body
/// yields exactly the original character codes.
pub proof fn lemma_literal_round_trip(s: Seq<char>)
    ensures
        lit_unescape_codes(lit_escape_seq(s)) == char_codes(s),
    decreases s.len(),
{
    if s.len() == 0 {
        assert(lit_unescape_codes(lit_escape_seq(s)) =~= char_codes(s));
    } else {
        lemma_literal_round_trip(s.skip(1));
        let c = s[0];
        let e = lit_escape_seq(s);
        let head = lit_escaped_char(c);
        let tail = lit_escape_seq(s.skip(1));
        assert(e == head + tail);
        if c == '"' || c == '\\' || c == '\n' || c == '\r' || c == '\t' {
            assert(e.skip(2) =~= tail);
            assert(lit_unescape_codes(e) =~= seq![c as u32] + char_codes(s.skip(1)));
        } else if is_control_char(c) {
            let n = c as u32;
            if n < 16 {
                assert(head == seq!['\\', 'u', '{', hex_digit(n), '}']);
                assert(e.skip(5) =~= tail);
                assert(hex_val(hex_digit(n)) == n);
                assert(lit_unescape_codes(e) =~= seq![c as u32] + char_codes(s.skip(1)));
            } else {
                assert(head == seq!['\\', 'u', '{', hex_digit(n / 16), hex_digit(n % 16), '}']);
                assert(e.skip(6) =~= tail);
                assert(e[4] == hex_digit(n % 16) && hex_digit(n % 16) != '}');
                assert(hex_val(hex_digit(n / 16)) == n / 16);
                assert(hex_val(hex_digit(n % 16)) == n % 16);
                assert(16 * (n / 16) + (n % 16) == n);
                assert(lit_unescape_codes(e) =~= seq![c as u32] + char_codes(s.skip(1)));
            }
        } else {
            assert(e[0] == c && c != '\\');
            assert(e.skip(1) =~= tail);
            assert(lit_unescape_codes(e) =~= seq![c as u32] + char_codes(s.skip(1)));
        }
        assert(seq![c as u32] + char_codes(s.skip(1)) =~= char_codes(s));
    }
}

/// Appending preserves the escaped body character by character.
pub proof fn lemma_lit_escape_push(s: Seq<char>, c: char)
    ensures
        lit_escape_seq(s.push(c)) == lit_escape_seq(s) + lit_escaped_char(c),
    decreases s.len(),
{
    if s.len() == 0 {
        assert(s.push(c).skip(1) =~= s);
        assert(s.push(c)[0] == c);
        assert(lit_escape_seq(s.push(c)) == lit_escaped_char(c) + lit_escape_seq(s));
        assert(lit_escape_seq(s.push(c)) =~= lit_escape_seq(s) + lit_escaped_char(c));
    } else {
        lemma_lit_escape_push(s.skip(1), c);
        assert(s.push(c).skip(1) =~= s.skip(1).push(c));
        assert(s.push(c)[0] == s[0]);
        assert(lit_escape_seq(s.push(c)) == lit_escaped_char(s[0]) + lit_escape_seq(
            s.skip(1).push(c),
        ));
        assert(lit_escaped_char(s[0]) + (lit_escape_seq(s.skip(1)) + lit_escaped_char(c)) =~= (
        lit_escaped_char(s[0]) + lit_escape_seq(s.skip(1))) + lit_escaped_char(c));
        assert(lit_escape_seq(s.push(c)) =~= lit_escape_seq(s) + lit_escaped_char(c));
    }
}

/// The lower-case hexadecimal digit of a value below sixteen.
fn hex_digit_char(n: u32) -> (r: char)
    requires
        n < 16,
    ensures
        r == hex_digit(n),
{
    if n == 0 {
        '0'
    } else if n == 1 {
        '1'
    } else if n == 2 {
        '2'
    } else if n == 3 {
        '3'
    } else if n == 4 {
        '4'
    } else if n == 5 {
        '5'
    } else if n == 6 {
        '6'
    } else if n == 7 {
        '7'
    } else if n == 8 {
        '8'
    } else if n == 9 {
        '9'
    } else if n == 10 {
        'a'
    } else if n == 11 {
        'b'
    } else if n == 12 {
        'c'
    } else if n == 13 {
        'd'
    } else if n == 14 {
        'e'
    } else {
        'f'
    }
}

/// Appends the escaped literal body of one character.
fn push_lit_escaped_char(out: &mut Vec<char>, c: char)
    ensures
        final(out)@ == old(out)@ + lit_escaped_char(c),
{
    if c == '"' {
        out.push('\\');
        out.push('"');
    } else if c == '\\' {
        out.push('\\');
        out.push('\\');
    } else if c == '\n' {
        out.push('\\');
        out.push('n');
    } else if c == '\r' {
        out.push('\\');
        out.push('r');
    } else if c == '\t' {
        out.push('\\');
        out.push('t');
    } else {
        let n = c as u32;
        if n < 32 || n == 127 {
            out.push('\\');
            out.push('u');
            out.push('{');
            if n < 16 {
                out.push(hex_digit_char(n));
            } else {
                out.push(hex_digit_char(n / 16));
                out.push(hex_digit_char(n % 16));
            }
            out.push('}');
        } else {
            out.push(c);
        }
    }
    proof {
        assert(out@ =~= old(out)@ + lit_escaped_char(c));
    }
}

/// Appends the full double-quoted literal for `s`.
pub fn push_quoted(out: &mut Vec<char>, s: &str)
    ensures
        final(out)@ == old(out)@ + quoted(s@),
{
    out.push('"');
    let n: usize = s.unicode_len();
    proof {
        assert(s@.take(0) =~= Seq::<char>::empty());
        assert(out@ + lit_escape_seq(s@.take(0)) =~= out@);
    }
    for i in 0..n
        invariant
            n == s@.len(),
            out@ == old(out)@ + seq!['"'] + lit_escape_seq(s@.take(i as int)),
    {
        push_lit_escaped_char(out, s.get_char(i));
        proof {
            lemma_lit_escape_push(s@.take(i as int), s@[i as int]);
            assert(s@.take(i + 1) =~= s@.take(i as int).push(s@[i as int]));
            assert(out@ =~= old(out)@ + seq!['"'] + lit_escape_seq(s@.take(i + 1)));
        }
    }
    out.push('"');
    proof {
        assert(s@.take(n as int) =~= s@);
        assert(out@ =~= old(out)@ + quoted(s@));
    }
}

/// The full double-quoted literal for `s` as a fresh string.
pub fn quote_literal(s: &str) -> (r: String)
    ensures
        r@ == quoted(s@),
{
    let mut out: Vec<char> = Vec::new();
    push_quoted(&mut out, s);
    string_from_chars(&out)
}

} // verus!
