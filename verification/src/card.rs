//! Pure helpers of the contact card widget.
//!
//! The widget itself is plain data binding and lives outside the
//! library; what it computes — the icon shown for a contact platform
//! and the suggested name of the downloaded document — is pure and
//! verified here.

use vstd::prelude::*;
use crate::model::Contact;
use crate::text::{push_str, str_eq, string_from_chars};

verus! {

/// The icon glyph shown for a contact platform; unknown platforms get
/// the generic link glyph.
pub open spec fn icon_spec(platform: Seq<char>) -> Seq<char> {
    if platform == "Email"@ {
        "\u{1F4E9}"@
    } else if platform == "Phone"@ {
        "\u{260E}"@
    } else if platform == "LinkedIn"@ {
        "in"@
    } else if platform == "Schedule"@ {
        "\u{1F4C5}"@
    } else {
        "\u{1F517}"@
    }
}

/// Picks the icon glyph for a contact.
pub fn contact_icon(contact: &Contact) -> (r: &'static str)
    ensures
        r@ == icon_spec(contact.platform@),
{
    if str_eq(contact.platform.as_str(), "Email") {
        "\u{1F4E9}"
    } else if str_eq(contact.platform.as_str(), "Phone") {
        "\u{260E}"
    } else if str_eq(contact.platform.as_str(), "LinkedIn") {
        "in"
    } else if str_eq(contact.platform.as_str(), "Schedule") {
        "\u{1F4C5}"
    } else {
        "\u{1F517}"
    }
}

/// `s` with every space replaced by an underscore.
pub open spec fn underscored(s: Seq<char>) -> Seq<char> {
    s.map_values(
        |c: char|
            if c == ' ' {
                '_'
            } else {
                c
            },
    )
}

/// The suggested file name for the downloaded document: the subject's
/// name, spaces underscored, with the fixed suffix.
pub open spec fn download_filename_spec(name: Seq<char>) -> Seq<char> {
    underscored(name) + "_CV.pdf"@
}

/// Builds the suggested download file name from the subject's name.
pub fn download_filename(name: &str) -> (r: String)
    ensures
        r@ == download_filename_spec(name@),
{
    let mut out: Vec<char> = Vec::new();
    let n: usize = name.unicode_len();
    proof {
        assert(out@ =~= underscored(name@.take(0)));
    }
    for i in 0..n
        invariant
            n == name@.len(),
            out@ == underscored(name@.take(i as int)),
    {
        let c = name.get_char(i);
        if c == ' ' {
            out.push('_');
        } else {
            out.push(c);
        }
        proof {
            assert(out@ =~= underscored(name@.take(i + 1)));
        }
    }
    proof {
        assert(name@.take(n as int) =~= name@);
    }
    push_str(&mut out, "_CV.pdf");
    string_from_chars(&out)
}

} // verus!
