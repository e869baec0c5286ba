//! Escaping of user-authored strings for the typeset markup grammar.
//!
//! Every string destined for the markup body has each occurrence of
//! `\ # $ @ [ ] "` prefixed with a backslash, in one left-to-right pass.
//! The inverse parser and the round-trip proof pin the transformation
//! down: escaping loses nothing and leaves no character that the
//! typesetting engine could read as a control character.

use vstd::prelude::*;
use crate::text::string_from_chars;

verus! {

/// The characters the typesetting engine treats as markup controls.
pub open spec fn is_markup_special(c: char) -> bool {
    c == '\\' || c == '#' || c == '$' || c == '@' || c == '[' || c == ']' || c == '"'
}

/// What one source character becomes in the escaped text.
pub open spec fn escaped_char(c: char) -> Seq<char> {
    if is_markup_special(c) {
        seq!['\\', c]
    } else {
        seq![c]
    }
}

/// The escaped form of a whole string: each character escaped, in order.
pub open spec fn escape_markup_seq(s: Seq<char>) -> Seq<char>
    decreases s.len(),
{
    if s.len() == 0 {
        Seq::<char>::empty()
    } else {
        escaped_char(s[0]) + escape_markup_seq(s.skip(1))
    }
}

/// How the markup grammar reads escaped text back: a backslash makes the
/// following character literal; every other character stands for itself.
pub open spec fn unescape_markup_seq(s: Seq<char>) -> Seq<char>
    decreases s.len(),
{
    if s.len() == 0 {
        Seq::<char>::empty()
    } else if s[0] == '\\' && s.len() >= 2 {
        seq![s[1]] + unescape_markup_seq(s.skip(2))
    } else {
        seq![s[0]] + unescape_markup_seq(s.skip(1))
    }
}

/// Holds when no markup-special character of `s` stands outside an
/// escape: the text alternates between escapes (a backslash followed by
/// a special character) and plain non-special characters.
pub open spec fn fully_escaped(s: Seq<char>) -> bool
    decreases s.len(),
{
    if s.len() == 0 {
        true
    } else if s[0] == '\\' {
        s.len() >= 2 && is_markup_special(s[1]) && fully_escaped(s.skip(2))
    } else {
        !is_markup_special(s[0]) && fully_escaped(s.skip(1))
    }
}

/// Escaping round-trip: the escaped text contains no unescaped
/// markup-special character, and reading it back through the markup
/// grammar yields the original string exactly.
pub proof fn lemma_escape_round_trip(s: Seq<char>)
    ensures
        fully_escaped(escape_markup_seq(s)),
        unescape_markup_seq(escape_markup_seq(s)) == s,
    decreases s.len(),
{
    if s.len() == 0 {
        assert(unescape_markup_seq(escape_markup_seq(s)) =~= s);
    } else {
        lemma_escape_round_trip(s.skip(1));
        let e = escape_markup_seq(s);
        if is_markup_special(s[0]) {
            assert(e =~= seq!['\\', s[0]] + escape_markup_seq(s.skip(1)));
            assert(e.skip(2) =~= escape_markup_seq(s.skip(1)));
            assert(unescape_markup_seq(e) =~= seq![s[0]] + s.skip(1));
        } else {
            assert(e =~= seq![s[0]] + escape_markup_seq(s.skip(1)));
            assert(e.skip(1) =~= escape_markup_seq(s.skip(1)));
            if e[0] == '\\' && e.len() >= 2 {
                assert(is_markup_special('\\'));
                assert(false);
            }
            assert(unescape_markup_seq(e) =~= seq![s[0]] + s.skip(1));
        }
        assert(seq![s[0]] + s.skip(1) =~= s);
    }
}

/// Appending preserves the escaped form character by character.
pub proof fn lemma_escape_push(s: Seq<char>, c: char)
    ensures
        escape_markup_seq(s.push(c)) == escape_markup_seq(s) + escaped_char(c),
    decreases s.len(),
{
    if s.len() == 0 {
        assert(s.push(c).skip(1) =~= s);
        assert(s.push(c)[0] == c);
        assert(escape_markup_seq(s.push(c)) == escaped_char(c) + escape_markup_seq(s));
        assert(escape_markup_seq(s.push(c)) =~= escape_markup_seq(s) + escaped_char(c));
    } else {
        lemma_escape_push(s.skip(1), c);
        assert(s.push(c).skip(1) =~= s.skip(1).push(c));
        assert(s.push(c)[0] == s[0]);
        assert(escape_markup_seq(s.push(c)) == escaped_char(s[0]) + escape_markup_seq(
            s.skip(1).push(c),
        ));
        assert(escaped_char(s[0]) + (escape_markup_seq(s.skip(1)) + escaped_char(c)) =~= (
        escaped_char(s[0]) + escape_markup_seq(s.skip(1))) + escaped_char(c));
        assert(escape_markup_seq(s.push(c)) =~= escape_markup_seq(s) + escaped_char(c));
    }
}

/// Appends the escaped form of `s` to a character buffer.
pub fn push_escaped(out: &mut Vec<char>, s: &str)
    ensures
        final(out)@ == old(out)@ + escape_markup_seq(s@),
{
    let n: usize = s.unicode_len();
    proof {
        assert(s@.take(0) =~= Seq::<char>::empty());
        assert(out@ + escape_markup_seq(s@.take(0)) =~= out@);
    }
    for i in 0..n
        invariant
            n == s@.len(),
            out@ == old(out)@ + escape_markup_seq(s@.take(i as int)),
    {
        let c = s.get_char(i);
        if c == '\\' || c == '#' || c == '$' || c == '@' || c == '[' || c == ']' || c == '"' {
            out.push('\\');
        }
        out.push(c);
        proof {
            lemma_escape_push(s@.take(i as int), c);
            assert(s@.take(i + 1) =~= s@.take(i as int).push(s@[i as int]));
            assert(out@ =~= old(out)@ + escape_markup_seq(s@.take(i + 1)));
        }
    }
    proof {
        assert(s@.take(n as int) =~= s@);
    }
}

/// The escaping engine's public face: the escaped form of `s` as a
/// fresh string.
pub fn escape_markup(s: &str) -> (r: String)
    ensures
        r@ == escape_markup_seq(s@),
{
    let mut out: Vec<char> = Vec::new();
    push_escaped(&mut out, s);
    string_from_chars(&out)
}

} // verus!
