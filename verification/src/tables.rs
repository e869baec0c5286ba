//! Generation of the typed, read-only constant tables.
//!
//! From the document model this stage emits source text defining the
//! three record shapes and one populated constant for the profile, each
//! of the seven skill categories, the work history and the contact
//! channels.  The output is stated exactly, as a function of the
//! document's view, so generation is deterministic by construction and
//! list order is preserved end-to-end.

use vstd::prelude::*;
use crate::literal::{quoted, push_quoted};
use crate::model::{
    SourceDocument,
    SourceDocumentView,
    ProfileView,
    ExperienceView,
    ContactView,
    Experience,
    Contact,
};
use crate::text::{push_str, string_from_chars};

verus! {

/// The three record-shape declarations, fixed field order.
pub open spec fn record_decls() -> Seq<char> {
    "pub struct Profile {\n    pub name: &'static str,\n    pub title: &'static str,\n    pub summary: &'static str,\n}\n\npub struct Experience {\n    pub company: &'static str,\n    pub position: &'static str,\n    pub period: &'static str,\n    pub location: &'static str,\n    pub highlights: &'static [&'static str],\n}\n\npub struct Contact {\n    pub platform: &'static str,\n    pub url: &'static str,\n    pub label: &'static str,\n}\n\n"@
}

/// The populated profile constant.
pub open spec fn profile_const(p: ProfileView) -> Seq<char> {
    "pub const PROFILE: Profile = Profile {\n    name: "@ + quoted(p.name) + ",\n    title: "@
        + quoted(p.title) + ",\n    summary: "@ + quoted(p.summary) + ",\n};\n\n"@
}

/// The comma-separated quoted items of one skill list, in list order.
pub open spec fn skill_items(skills: Seq<Seq<char>>) -> Seq<char>
    decreases skills.len(),
{
    if skills.len() == 0 {
        Seq::<char>::empty()
    } else {
        skill_items(skills.drop_last()) + (if skills.len() == 1 {
            Seq::<char>::empty()
        } else {
            ", "@
        }) + quoted(skills.last())
    }
}

/// One flat constant list for a skill category.
pub open spec fn skill_table(name: Seq<char>, skills: Seq<Seq<char>>) -> Seq<char> {
    "pub const "@ + name + ": &[&str] = &["@ + skill_items(skills) + "];\n"@
}

/// The nested highlight lines of one work-history entry, in list order.
pub open spec fn highlight_items(hs: Seq<Seq<char>>) -> Seq<char>
    decreases hs.len(),
{
    if hs.len() == 0 {
        Seq::<char>::empty()
    } else {
        highlight_items(hs.drop_last()) + "            "@ + quoted(hs.last()) + ",\n"@
    }
}

/// One record of the work-history constant list.
pub open spec fn experience_entry(e: ExperienceView) -> Seq<char> {
    "    Experience {\n        company: "@ + quoted(e.company) + ",\n        position: "@
        + quoted(e.position) + ",\n        period: "@ + quoted(e.period)
        + ",\n        location: "@ + quoted(e.location) + ",\n        highlights: &[\n"@
        + highlight_items(e.highlights) + "        ],\n    },\n"@
}

/// All work-history records, in document order.
pub open spec fn experience_entries(es: Seq<ExperienceView>) -> Seq<char>
    decreases es.len(),
{
    if es.len() == 0 {
        Seq::<char>::empty()
    } else {
        experience_entries(es.drop_last()) + experience_entry(es.last())
    }
}

/// The work-history constant list.
pub open spec fn experience_table(es: Seq<ExperienceView>) -> Seq<char> {
    "pub const EXPERIENCE: &[Experience] = &[\n"@ + experience_entries(es) + "];\n\n"@
}

/// One record of the contact constant list.
pub open spec fn contact_entry(c: ContactView) -> Seq<char> {
    "    Contact {\n        platform: "@ + quoted(c.platform) + ",\n        url: "@ + quoted(
        c.url,
    ) + ",\n        label: "@ + quoted(c.label) + ",\n    },\n"@
}

/// All contact records, in document order.
pub open spec fn contact_entries(cs: Seq<ContactView>) -> Seq<char>
    decreases cs.len(),
{
    if cs.len() == 0 {
        Seq::<char>::empty()
    } else {
        contact_entries(cs.drop_last()) + contact_entry(cs.last())
    }
}

/// The contact constant list.
pub open spec fn contact_table(cs: Seq<ContactView>) -> Seq<char> {
    "pub const CONTACTS: &[Contact] = &[\n"@ + contact_entries(cs) + "];\n"@
}

/// The whole constant-table source for one document.
pub open spec fn constant_table(d: SourceDocumentView) -> Seq<char> {
    record_decls() + profile_const(d.profile) + skill_table("SKILLS_CLOUD"@, d.skills.cloud)
        + skill_table("SKILLS_DEVOPS"@, d.skills.devops) + skill_table(
        "SKILLS_MONITORING"@,
        d.skills.monitoring,
    ) + skill_table("SKILLS_LANGUAGES"@, d.skills.languages) + skill_table(
        "SKILLS_RUST"@,
        d.skills.domain_ecosystem,
    ) + skill_table("SKILLS_DB"@, d.skills.databases) + skill_table(
        "SKILLS_SECURITY"@,
        d.skills.security,
    ) + experience_table(d.experience) + contact_table(d.contacts)
}

/// Appends the quoted items of one skill list, comma-separated.
fn push_skill_items(out: &mut Vec<char>, skills: &Vec<String>)
    ensures
        final(out)@ == old(out)@ + skill_items(skills.deep_view()),
{
    let n = skills.len();
    proof {
        assert(skills.deep_view().take(0) =~= Seq::<Seq<char>>::empty());
        assert(out@ + skill_items(skills.deep_view().take(0)) =~= out@);
    }
    for i in 0..n
        invariant
            n == skills.len(),
            out@ == old(out)@ + skill_items(skills.deep_view().take(i as int)),
    {
        if i > 0 {
            push_str(out, ", ");
        }
        push_quoted(out, skills[i].as_str());
        proof {
            let sv = skills.deep_view();
            assert(sv.take(i + 1).drop_last() =~= sv.take(i as int));
            assert(sv.take(i + 1).last() == sv[i as int]);
            assert(out@ =~= old(out)@ + skill_items(sv.take(i + 1)));
        }
    }
    proof {
        assert(skills.deep_view().take(n as int) =~= skills.deep_view());
    }
}

/// Appends one skill-category constant line.
fn push_skill_table(out: &mut Vec<char>, name: &str, skills: &Vec<String>)
    ensures
        final(out)@ == old(out)@ + skill_table(name@, skills.deep_view()),
{
    push_str(out, "pub const ");
    push_str(out, name);
    push_str(out, ": &[&str] = &[");
    push_skill_items(out, skills);
    push_str(out, "];\n");
    proof {
        assert(out@ =~= old(out)@ + skill_table(name@, skills.deep_view()));
    }
}

/// Appends the highlight lines of one work-history entry.
fn push_highlight_items(out: &mut Vec<char>, hs: &Vec<String>)
    ensures
        final(out)@ == old(out)@ + highlight_items(hs.deep_view()),
{
    let n = hs.len();
    proof {
        assert(hs.deep_view().take(0) =~= Seq::<Seq<char>>::empty());
        assert(out@ + highlight_items(hs.deep_view().take(0)) =~= out@);
    }
    for i in 0..n
        invariant
            n == hs.len(),
            out@ == old(out)@ + highlight_items(hs.deep_view().take(i as int)),
    {
        push_str(out, "            ");
        push_quoted(out, hs[i].as_str());
        push_str(out, ",\n");
        proof {
            let hv = hs.deep_view();
            assert(hv.take(i + 1).drop_last() =~= hv.take(i as int));
            assert(hv.take(i + 1).last() == hv[i as int]);
            assert(out@ =~= old(out)@ + highlight_items(hv.take(i + 1)));
        }
    }
    proof {
        assert(hs.deep_view().take(n as int) =~= hs.deep_view());
    }
}

/// Appends one work-history record.
fn push_experience_entry(out: &mut Vec<char>, e: &Experience)
    ensures
        final(out)@ == old(out)@ + experience_entry(e.deep_view()),
{
    push_str(out, "    Experience {\n        company: ");
    push_quoted(out, e.company.as_str());
    push_str(out, ",\n        position: ");
    push_quoted(out, e.position.as_str());
    push_str(out, ",\n        period: ");
    push_quoted(out, e.period.as_str());
    push_str(out, ",\n        location: ");
    push_quoted(out, e.location.as_str());
    push_str(out, ",\n        highlights: &[\n");
    push_highlight_items(out, &e.highlights);
    push_str(out, "        ],\n    },\n");
    proof {
        assert(out@ =~= old(out)@ + experience_entry(e.deep_view()));
    }
}

/// Appends the work-history constant list.
fn push_experience_table(out: &mut Vec<char>, es: &Vec<Experience>)
    ensures
        final(out)@ == old(out)@ + experience_table(es.deep_view()),
{
    push_str(out, "pub const EXPERIENCE: &[Experience] = &[\n");
    let n = es.len();
    let ghost mid = out@;
    proof {
        assert(es.deep_view().take(0) =~= Seq::<ExperienceView>::empty());
        assert(mid + experience_entries(es.deep_view().take(0)) =~= mid);
    }
    for i in 0..n
        invariant
            n == es.len(),
            out@ == mid + experience_entries(es.deep_view().take(i as int)),
    {
        push_experience_entry(out, &es[i]);
        proof {
            let ev = es.deep_view();
            assert(ev.take(i + 1).drop_last() =~= ev.take(i as int));
            assert(ev.take(i + 1).last() == ev[i as int]);
            assert(out@ =~= mid + experience_entries(ev.take(i + 1)));
        }
    }
    push_str(out, "];\n\n");
    proof {
        assert(es.deep_view().take(n as int) =~= es.deep_view());
        assert(out@ =~= old(out)@ + experience_table(es.deep_view()));
    }
}

/// Appends one contact record.
fn push_contact_entry(out: &mut Vec<char>, c: &Contact)
    ensures
        final(out)@ == old(out)@ + contact_entry(c.deep_view()),
{
    push_str(out, "    Contact {\n        platform: ");
    push_quoted(out, c.platform.as_str());
    push_str(out, ",\n        url: ");
    push_quoted(out, c.url.as_str());
    push_str(out, ",\n        label: ");
    push_quoted(out, c.label.as_str());
    push_str(out, ",\n    },\n");
    proof {
        assert(out@ =~= old(out)@ + contact_entry(c.deep_view()));
    }
}

/// Appends the contact constant list.
fn push_contact_table(out: &mut Vec<char>, cs: &Vec<Contact>)
    ensures
        final(out)@ == old(out)@ + contact_table(cs.deep_view()),
{
    push_str(out, "pub const CONTACTS: &[Contact] = &[\n");
    let n = cs.len();
    let ghost mid = out@;
    proof {
        assert(cs.deep_view().take(0) =~= Seq::<ContactView>::empty());
        assert(mid + contact_entries(cs.deep_view().take(0)) =~= mid);
    }
    for i in 0..n
        invariant
            n == cs.len(),
            out@ == mid + contact_entries(cs.deep_view().take(i as int)),
    {
        push_contact_entry(out, &cs[i]);
        proof {
            let cv = cs.deep_view();
            assert(cv.take(i + 1).drop_last() =~= cv.take(i as int));
            assert(cv.take(i + 1).last() == cv[i as int]);
            assert(out@ =~= mid + contact_entries(cv.take(i + 1)));
        }
    }
    push_str(out, "];\n");
    proof {
        assert(cs.deep_view().take(n as int) =~= cs.deep_view());
        assert(out@ =~= old(out)@ + contact_table(cs.deep_view()));
    }
}

/// Produces the whole constant-table source for `doc`.
pub fn generate_constant_table(doc: &SourceDocument) -> (r: String)
    ensures
        r@ == constant_table(doc.deep_view()),
{
    let mut out: Vec<char> = Vec::new();
    push_str(&mut out, "pub struct Profile {\n    pub name: &'static str,\n    pub title: &'static str,\n    pub summary: &'static str,\n}\n\npub struct Experience {\n    pub company: &'static str,\n    pub position: &'static str,\n    pub period: &'static str,\n    pub location: &'static str,\n    pub highlights: &'static [&'static str],\n}\n\npub struct Contact {\n    pub platform: &'static str,\n    pub url: &'static str,\n    pub label: &'static str,\n}\n\n");
    push_str(&mut out, "pub const PROFILE: Profile = Profile {\n    name: ");
    push_quoted(&mut out, doc.profile.name.as_str());
    push_str(&mut out, ",\n    title: ");
    push_quoted(&mut out, doc.profile.title.as_str());
    push_str(&mut out, ",\n    summary: ");
    push_quoted(&mut out, doc.profile.summary.as_str());
    push_str(&mut out, ",\n};\n\n");
    proof {
        assert(out@ =~= record_decls() + profile_const(doc.profile.deep_view()));
    }
    push_skill_table(&mut out, "SKILLS_CLOUD", &doc.skills.cloud);
    push_skill_table(&mut out, "SKILLS_DEVOPS", &doc.skills.devops);
    push_skill_table(&mut out, "SKILLS_MONITORING", &doc.skills.monitoring);
    push_skill_table(&mut out, "SKILLS_LANGUAGES", &doc.skills.languages);
    push_skill_table(&mut out, "SKILLS_RUST", &doc.skills.domain_ecosystem);
    push_skill_table(&mut out, "SKILLS_DB", &doc.skills.databases);
    push_skill_table(&mut out, "SKILLS_SECURITY", &doc.skills.security);
    push_experience_table(&mut out, &doc.experience);
    push_contact_table(&mut out, &doc.contacts);
    proof {
        assert(out@ =~= constant_table(doc.deep_view()));
    }
    string_from_chars(&out)
}

/// Determinism of generation: equal documents give byte-identical
/// constant-table source.
pub proof fn lemma_generation_deterministic(a: SourceDocumentView, b: SourceDocumentView)
    requires
        a == b,
    ensures
        constant_table(a) == constant_table(b),
{
}

/// An empty skill category still yields a syntactically valid, empty
/// constant list, not an error and not an omitted declaration.
pub proof fn lemma_empty_skill_list(name: Seq<char>)
    ensures
        skill_table(name, Seq::<Seq<char>>::empty()) == "pub const "@ + name + ": &[&str] = &[];\n"@,
{
    reveal_strlit(": &[&str] = &[");
    reveal_strlit("];\n");
    reveal_strlit(": &[&str] = &[];\n");
    assert(skill_items(Seq::<Seq<char>>::empty()) == Seq::<char>::empty());
    assert(skill_table(name, Seq::<Seq<char>>::empty()) =~= "pub const "@ + name
        + ": &[&str] = &[];\n"@);
}

/// An empty highlight list still yields a syntactically valid, empty
/// nested collection inside its work-history record.
pub proof fn lemma_empty_highlight_list(e: ExperienceView)
    requires
        e.highlights.len() == 0,
    ensures
        experience_entry(e) == "    Experience {\n        company: "@ + quoted(e.company)
            + ",\n        position: "@ + quoted(e.position) + ",\n        period: "@ + quoted(
            e.period,
        ) + ",\n        location: "@ + quoted(e.location)
            + ",\n        highlights: &[\n        ],\n    },\n"@,
{
    reveal_strlit(",\n        highlights: &[\n");
    reveal_strlit("        ],\n    },\n");
    reveal_strlit(",\n        highlights: &[\n        ],\n    },\n");
    assert(highlight_items(e.highlights) == Seq::<char>::empty());
    assert(experience_entry(e) =~= "    Experience {\n        company: "@ + quoted(e.company)
        + ",\n        position: "@ + quoted(e.position) + ",\n        period: "@ + quoted(e.period)
        + ",\n        location: "@ + quoted(e.location)
        + ",\n        highlights: &[\n        ],\n    },\n"@);
}

} // verus!
