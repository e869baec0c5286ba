//! Build-provenance constants with safe fallbacks and a change-gated
//! write decision.
//!
//! The release version and the version-control revision are supplied by
//! the surrounding build environment as plain optional strings; both
//! degrade to documented sentinels and never abort a build.  The
//! generated source is written only when it differs from what is already
//! persisted, so an unchanged provenance never perturbs downstream
//! build timestamps.

use vstd::prelude::*;
use crate::literal::{quoted, push_quoted};
use crate::text::{push_str, str_eq, string_from_chars};

verus! {

/// Whitespace stripped from the ends of the version-control tool's
/// output.
pub open spec fn is_space(c: char) -> bool {
    c == ' ' || c == '\t' || c == '\n' || c == '\r' || c == '\u{b}' || c == '\u{c}'
}

/// `s` without its leading whitespace.
pub open spec fn drop_leading_spaces(s: Seq<char>) -> Seq<char>
    decreases s.len(),
{
    if s.len() > 0 && is_space(s[0]) {
        drop_leading_spaces(s.skip(1))
    } else {
        s
    }
}

/// `s` without its trailing whitespace.
pub open spec fn drop_trailing_spaces(s: Seq<char>) -> Seq<char>
    decreases s.len(),
{
    if s.len() > 0 && is_space(s.last()) {
        drop_trailing_spaces(s.drop_last())
    } else {
        s
    }
}

/// `s` without leading and trailing whitespace.
pub open spec fn trimmed(s: Seq<char>) -> Seq<char> {
    drop_trailing_spaces(drop_leading_spaces(s))
}

/// Whether `c` counts as surrounding whitespace.
fn is_space_char(c: char) -> (r: bool)
    ensures
        r == is_space(c),
{
    c == ' ' || c == '\t' || c == '\n' || c == '\r' || c == '\u{b}' || c == '\u{c}'
}

/// `s` with surrounding whitespace removed.
pub fn trim(s: &str) -> (r: String)
    ensures
        r@ == trimmed(s@),
{
    let n: usize = s.unicode_len();
    let mut start: usize = 0;
    proof {
        assert(s@.skip(0) =~= s@);
    }
    while start < n && is_space_char(s.get_char(start))
        invariant
            start <= n,
            n == s@.len(),
            drop_leading_spaces(s@) == drop_leading_spaces(s@.skip(start as int)),
        decreases n - start,
    {
        proof {
            assert(s@.skip(start as int)[0] == s@[start as int]);
            assert(s@.skip(start as int).skip(1) =~= s@.skip(start + 1));
        }
        start = start + 1;
    }
    proof {
        if start == n {
            assert(s@.skip(start as int) =~= Seq::<char>::empty());
        }
        assert(drop_leading_spaces(s@) == s@.skip(start as int));
    }
    let mut end: usize = n;
    proof {
        assert(s@.skip(start as int) =~= s@.subrange(start as int, n as int));
    }
    while end > start && is_space_char(s.get_char(end - 1))
        invariant
            start <= end <= n,
            n == s@.len(),
            drop_trailing_spaces(s@.skip(start as int)) == drop_trailing_spaces(
                s@.subrange(start as int, end as int),
            ),
        decreases end,
    {
        proof {
            let sub = s@.subrange(start as int, end as int);
            assert(sub.last() == s@[end - 1]);
            assert(sub.drop_last() =~= s@.subrange(start as int, end - 1));
        }
        end = end - 1;
    }
    proof {
        let sub = s@.subrange(start as int, end as int);
        if end == start {
            assert(sub =~= Seq::<char>::empty());
        }
        assert(trimmed(s@) == s@.subrange(start as int, end as int));
    }
    let sub = s.substring_char(start, end);
    sub.to_owned()
}

/// The revision derived from the version-control tool's output: its
/// trimmed output, or the sentinel when the tool was unavailable or
/// printed nothing but whitespace.
pub open spec fn revision_spec(output: Option<Seq<char>>) -> Seq<char> {
    match output {
        Option::Some(o) => if trimmed(o).len() == 0 {
            "dev"@
        } else {
            trimmed(o)
        },
        Option::None => "dev"@,
    }
}

/// Turns the version-control tool's output, if any, into the revision
/// identifier; any failure degrades to the sentinel, never to an empty
/// string and never to an aborted build.
pub fn resolve_revision(output: Option<&str>) -> (r: String)
    ensures
        r@ == revision_spec(output.deep_view()),
        r@.len() > 0,
{
    proof {
        reveal_strlit("dev");
    }
    match output {
        Option::Some(o) => {
            let t = trim(o);
            if t.as_str().unicode_len() == 0 {
                String::from_str("dev")
            } else {
                t
            }
        },
        Option::None => String::from_str("dev"),
    }
}

/// The release version, or its documented fallback when the build
/// environment supplies none.
pub open spec fn version_spec(v: Option<Seq<char>>) -> Seq<char> {
    match v {
        Option::Some(s) => s,
        Option::None => "unknown"@,
    }
}

/// Takes the release version from the build environment, falling back
/// to the sentinel when it is absent; never fatal.
pub fn resolve_version(v: Option<&str>) -> (r: String)
    ensures
        r@ == version_spec(v.deep_view()),
{
    match v {
        Option::Some(s) => s.to_owned(),
        Option::None => String::from_str("unknown"),
    }
}

/// Version and revision metadata of one build, independent of the
/// document content.  The timestamp field mirrors the revision value;
/// the runtime cache keys itself on it, so it changes exactly when the
/// revision does.
pub struct BuildProvenance {
    pub version: String,
    pub revision: String,
    pub timestamp: String,
}

pub ghost struct BuildProvenanceView {
    pub version: Seq<char>,
    pub revision: Seq<char>,
    pub timestamp: Seq<char>,
}

impl DeepView for BuildProvenance {
    type V = BuildProvenanceView;

    open spec fn deep_view(&self) -> BuildProvenanceView {
        BuildProvenanceView {
            version: self.version@,
            revision: self.revision@,
            timestamp: self.timestamp@,
        }
    }
}

/// A well-formed provenance value mirrors its revision into its
/// timestamp field.
pub open spec fn provenance_wf(p: BuildProvenanceView) -> bool {
    p.timestamp == p.revision
}

/// Computes the provenance of this build from the environment's
/// optional release version and the version-control tool's optional
/// output.
pub fn compute_provenance(release_version: Option<&str>, tool_output: Option<&str>) -> (p:
    BuildProvenance)
    ensures
        p.deep_view().version == version_spec(release_version.deep_view()),
        p.deep_view().revision == revision_spec(tool_output.deep_view()),
        provenance_wf(p.deep_view()),
{
    let version = resolve_version(release_version);
    let revision = resolve_revision(tool_output);
    let timestamp = revision.clone();
    BuildProvenance { version, revision, timestamp }
}

/// The provenance source text: three string constants, the third
/// mirroring the revision.
pub open spec fn provenance_source(p: BuildProvenanceView) -> Seq<char> {
    "pub const BUILD_VERSION: &str = "@ + quoted(p.version) + ";\npub const BUILD_COMMIT: &str = "@
        + quoted(p.revision) + ";\npub const BUILD_TIMESTAMP: &str = "@ + quoted(p.timestamp)
        + ";\n"@
}

/// Produces the provenance source text for `p`.
pub fn generate_provenance_source(p: &BuildProvenance) -> (r: String)
    ensures
        r@ == provenance_source(p.deep_view()),
{
    let mut out: Vec<char> = Vec::new();
    push_str(&mut out, "pub const BUILD_VERSION: &str = ");
    push_quoted(&mut out, p.version.as_str());
    push_str(&mut out, ";\npub const BUILD_COMMIT: &str = ");
    push_quoted(&mut out, p.revision.as_str());
    push_str(&mut out, ";\npub const BUILD_TIMESTAMP: &str = ");
    push_quoted(&mut out, p.timestamp.as_str());
    push_str(&mut out, ";\n");
    proof {
        assert(out@ =~= provenance_source(p.deep_view()));
    }
    string_from_chars(&out)
}

/// Whether a freshly generated artifact differs from what is persisted:
/// only then is a write due.
pub open spec fn write_needed(existing: Option<Seq<char>>, fresh: Seq<char>) -> bool {
    match existing {
        Option::Some(e) => e != fresh,
        Option::None => true,
    }
}

/// The change-gated write decision: write only when the persisted
/// content (if any) differs byte-for-byte from the fresh content.
pub fn needs_write(existing: Option<&str>, fresh: &str) -> (r: bool)
    ensures
        r == write_needed(existing.deep_view(), fresh@),
{
    match existing {
        Option::Some(e) => !str_eq(e, fresh),
        Option::None => true,
    }
}

/// Idempotent provenance write: when this build's provenance source
/// equals the bytes persisted by the previous build, no write is due,
/// so the on-disk bytes remain unchanged.
pub proof fn lemma_idempotent_provenance_write(p: BuildProvenanceView, persisted: Seq<char>)
    requires
        provenance_source(p) == persisted,
    ensures
        !write_needed(Option::Some(persisted), provenance_source(p)),
{
}

/// Fallback revision: an unavailable tool or whitespace-only output
/// gives the sentinel, and the revision is never the empty string.
pub proof fn lemma_fallback_revision(output: Option<Seq<char>>)
    ensures
        output is None ==> revision_spec(output) == "dev"@,
        (output matches Option::Some(o) && trimmed(o).len() == 0) ==> revision_spec(output)
            == "dev"@,
        revision_spec(output).len() > 0,
{
    reveal_strlit("dev");
}

} // verus!
