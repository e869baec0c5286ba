use resume_compiler::escape::escape_markup;
use resume_compiler::literal::quote_literal;

#[test]
fn escapes_every_markup_special_character() {
    assert_eq!(escape_markup("\\"), "\\\\");
    assert_eq!(escape_markup("#"), "\\#");
    assert_eq!(escape_markup("$"), "\\$");
    assert_eq!(escape_markup("@"), "\\@");
    assert_eq!(escape_markup("["), "\\[");
    assert_eq!(escape_markup("]"), "\\]");
    assert_eq!(escape_markup("\""), "\\\"");
}

#[test]
fn leaves_plain_text_unchanged() {
    assert_eq!(escape_markup("Builds things."), "Builds things.");
    assert_eq!(escape_markup(""), "");
    assert_eq!(escape_markup("Cut p99 latency 40%"), "Cut p99 latency 40%");
}

#[test]
fn escapes_mixed_text_in_one_pass() {
    assert_eq!(escape_markup("a\\b#c$d@e[f]g\"h"), "a\\\\b\\#c\\$d\\@e\\[f\\]g\\\"h");
    assert_eq!(escape_markup("jane@example.com"), "jane\\@example.com");
}

/// Reads escaped markup back: a backslash makes the next character
/// literal.
fn unescape_markup(s: &str) -> String {
    let mut out = String::new();
    let mut chars = s.chars();
    while let Some(c) = chars.next() {
        if c == '\\' {
            if let Some(d) = chars.next() {
                out.push(d);
            }
        } else {
            out.push(c);
        }
    }
    out
}

#[test]
fn escaping_round_trips_through_the_markup_grammar() {
    let cases = [
        "plain",
        "back\\slash",
        "all of \\ # $ @ [ ] \" at once",
        "[bracketed] #heading $math @ref \"quoted\"",
        "",
    ];
    for case in cases {
        let escaped = escape_markup(case);
        assert_eq!(unescape_markup(&escaped), case);
    }
}

#[test]
fn escaped_text_has_no_unescaped_special_character() {
    let escaped = escape_markup("a#b$c[d]e\"f\\g@h");
    let chars: Vec<char> = escaped.chars().collect();
    let special = ['\\', '#', '$', '@', '[', ']', '"'];
    let mut i = 0;
    while i < chars.len() {
        if chars[i] == '\\' {
            assert!(i + 1 < chars.len() && special.contains(&chars[i + 1]));
            i += 2;
        } else {
            assert!(!special.contains(&chars[i]));
            i += 1;
        }
    }
}

#[test]
fn quotes_and_escapes_literals() {
    assert_eq!(quote_literal("plain"), "\"plain\"");
    assert_eq!(quote_literal("say \"hi\""), "\"say \\\"hi\\\"\"");
    assert_eq!(quote_literal("a\\b"), "\"a\\\\b\"");
    assert_eq!(quote_literal("line\nbreak"), "\"line\\nbreak\"");
    assert_eq!(quote_literal("tab\there"), "\"tab\\there\"");
    assert_eq!(quote_literal("cr\rhere"), "\"cr\\rhere\"");
}

/// Reads a quoted literal back as source code would.
fn unquote_literal(s: &str) -> String {
    let chars: Vec<char> = s.chars().collect();
    assert_eq!(chars[0], '"');
    assert_eq!(chars[chars.len() - 1], '"');
    let mut out = String::new();
    let mut i = 1;
    while i < chars.len() - 1 {
        if chars[i] == '\\' {
            match chars[i + 1] {
                'n' => {
                    out.push('\n');
                    i += 2;
                }
                'r' => {
                    out.push('\r');
                    i += 2;
                }
                't' => {
                    out.push('\t');
                    i += 2;
                }
                'u' => {
                    assert_eq!(chars[i + 2], '{');
                    let mut j = i + 3;
                    let mut code: u32 = 0;
                    while chars[j] != '}' {
                        code = code * 16 + chars[j].to_digit(16).unwrap();
                        j += 1;
                    }
                    out.push(char::from_u32(code).unwrap());
                    i = j + 1;
                }
                c => {
                    out.push(c);
                    i += 2;
                }
            }
        } else {
            out.push(chars[i]);
            i += 1;
        }
    }
    out
}

#[test]
fn quoting_round_trips_through_the_literal_grammar() {
    let cases = ["plain", "say \"hi\"", "a\\b", "line\nbreak\tand\rmore", "ctl\u{1}\u{1f}\u{7f}\u{0}end"];
    for case in cases {
        assert_eq!(unquote_literal(&quote_literal(case)), case);
    }
}

#[test]
fn escapes_other_control_characters_as_hex() {
    assert_eq!(quote_literal("\u{1}"), "\"\\u{1}\"");
    assert_eq!(quote_literal("\u{1f}"), "\"\\u{1f}\"");
    assert_eq!(quote_literal("\u{7f}"), "\"\\u{7f}\"");
    assert_eq!(quote_literal("a\u{0}b"), "\"a\\u{0}b\"");
}
