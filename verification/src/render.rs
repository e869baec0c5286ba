//! Generation of the typeset markup document.
//!
//! The markup concatenates a page-setup preamble, a centered name and
//! title header, the summary paragraph, the seven skill categories under
//! fixed labels, the work history in document order and the contact
//! channels.  Every user-authored string passes through the escaping
//! engine; only the hyperlink targets stay verbatim, since they must
//! remain valid addresses.

use vstd::prelude::*;
use crate::escape::{escape_markup_seq, push_escaped};
use crate::model::{
    SourceDocument,
    SourceDocumentView,
    ProfileView,
    SkillCategoriesView,
    ExperienceView,
    ContactView,
    Experience,
    Contact,
};
use crate::text::{push_str, string_from_chars};

verus! {

/// Page setup: margins, base font, link styling.
pub open spec fn page_preamble() -> Seq<char> {
    "#set page(margin: 1.5cm)\n#set text(font: \"Liberation Sans\", size: 9pt)\n#show link: it => underline(text(fill: rgb(\"#0066cc\"), it))\n\n"@
}

/// Centered name and title, then the summary paragraph.
pub open spec fn header_section(p: ProfileView) -> Seq<char> {
    "#align(center)[#text(size: 18pt, weight: \"bold\")["@ + escape_markup_seq(p.name) + "]]\n"@
        + "#align(center)[#text(size: 11pt)["@ + escape_markup_seq(p.title) + "]]\n\n"@
        + escape_markup_seq(p.summary) + "\n\n"@
}

/// The escaped skills of one category, comma-joined in list order.
pub open spec fn joined_skills(skills: Seq<Seq<char>>) -> Seq<char>
    decreases skills.len(),
{
    if skills.len() == 0 {
        Seq::<char>::empty()
    } else {
        joined_skills(skills.drop_last()) + (if skills.len() == 1 {
            Seq::<char>::empty()
        } else {
            ", "@
        }) + escape_markup_seq(skills.last())
    }
}

/// One labelled skill-category line.
pub open spec fn skill_line(label: Seq<char>, skills: Seq<Seq<char>>) -> Seq<char> {
    "*"@ + label + ":* "@ + joined_skills(skills) + "\n\n"@
}

/// The competencies section: seven categories under fixed labels.
pub open spec fn competencies_section(sk: SkillCategoriesView) -> Seq<char> {
    "#text(size: 12pt, weight: \"bold\")[CORE COMPETENCIES]\n\n"@ + skill_line(
        "Cloud & Infrastructure"@,
        sk.cloud,
    ) + skill_line("DevOps & Automation"@, sk.devops) + skill_line(
        "Monitoring & Observability"@,
        sk.monitoring,
    ) + skill_line("Programming Languages"@, sk.languages) + skill_line(
        "Rust Ecosystem"@,
        sk.domain_ecosystem,
    ) + skill_line("Databases & Messaging"@, sk.databases) + skill_line("Security"@, sk.security)
}

/// The bullet lines for one entry's highlights, in list order.
pub open spec fn highlight_bullets(hs: Seq<Seq<char>>) -> Seq<char>
    decreases hs.len(),
{
    if hs.len() == 0 {
        Seq::<char>::empty()
    } else {
        highlight_bullets(hs.drop_last()) + "- "@ + escape_markup_seq(hs.last()) + "\n"@
    }
}

/// One work-history block: bold header, italic period and location,
/// bulleted highlights.
pub open spec fn experience_block(e: ExperienceView) -> Seq<char> {
    "#text(size: 10pt, weight: \"bold\")["@ + escape_markup_seq(e.company) + " \u{2014} "@
        + escape_markup_seq(e.position) + "]\n"@ + "#text(style: \"italic\")["@
        + escape_markup_seq(e.period) + " | "@ + escape_markup_seq(e.location) + "]\n\n"@
        + highlight_bullets(e.highlights) + "\n"@
}

/// All work-history blocks, in document order.
pub open spec fn experience_blocks(es: Seq<ExperienceView>) -> Seq<char>
    decreases es.len(),
{
    if es.len() == 0 {
        Seq::<char>::empty()
    } else {
        experience_blocks(es.drop_last()) + experience_block(es.last())
    }
}

/// The work-history section.
pub open spec fn experience_section(es: Seq<ExperienceView>) -> Seq<char> {
    "#text(size: 12pt, weight: \"bold\")[PROFESSIONAL EXPERIENCE]\n\n"@ + experience_blocks(es)
}

/// One contact line: escaped platform and label around a verbatim
/// hyperlink target.
pub open spec fn contact_line(c: ContactView) -> Seq<char> {
    escape_markup_seq(c.platform) + ": #link(\""@ + c.url + "\")["@ + escape_markup_seq(c.label)
        + "]\n\n"@
}

/// All contact lines, in document order.
pub open spec fn contact_lines(cs: Seq<ContactView>) -> Seq<char>
    decreases cs.len(),
{
    if cs.len() == 0 {
        Seq::<char>::empty()
    } else {
        contact_lines(cs.drop_last()) + contact_line(cs.last())
    }
}

/// The contact section.
pub open spec fn contact_section(cs: Seq<ContactView>) -> Seq<char> {
    "#text(size: 12pt, weight: \"bold\")[CONTACT]\n\n"@ + contact_lines(cs)
}

/// The whole markup document for one source document.
pub open spec fn markup_document(d: SourceDocumentView) -> Seq<char> {
    page_preamble() + header_section(d.profile) + competencies_section(d.skills)
        + experience_section(d.experience) + contact_section(d.contacts)
}

/// Appends the escaped, comma-joined skills of one category.
fn push_joined_skills(out: &mut Vec<char>, skills: &Vec<String>)
    ensures
        final(out)@ == old(out)@ + joined_skills(skills.deep_view()),
{
    let n = skills.len();
    proof {
        assert(skills.deep_view().take(0) =~= Seq::<Seq<char>>::empty());
        assert(out@ + joined_skills(skills.deep_view().take(0)) =~= out@);
    }
    for i in 0..n
        invariant
            n == skills.len(),
            out@ == old(out)@ + joined_skills(skills.deep_view().take(i as int)),
    {
        if i > 0 {
            push_str(out, ", ");
        }
        push_escaped(out, skills[i].as_str());
        proof {
            let sv = skills.deep_view();
            assert(sv.take(i + 1).drop_last() =~= sv.take(i as int));
            assert(sv.take(i + 1).last() == sv[i as int]);
            assert(out@ =~= old(out)@ + joined_skills(sv.take(i + 1)));
        }
    }
    proof {
        assert(skills.deep_view().take(n as int) =~= skills.deep_view());
    }
}

/// Appends one labelled skill-category line.
fn push_skill_line(out: &mut Vec<char>, label: &str, skills: &Vec<String>)
    ensures
        final(out)@ == old(out)@ + skill_line(label@, skills.deep_view()),
{
    push_str(out, "*");
    push_str(out, label);
    push_str(out, ":* ");
    push_joined_skills(out, skills);
    push_str(out, "\n\n");
    proof {
        assert(out@ =~= old(out)@ + skill_line(label@, skills.deep_view()));
    }
}

/// Appends one work-history block.
fn push_experience_block(out: &mut Vec<char>, e: &Experience)
    ensures
        final(out)@ == old(out)@ + experience_block(e.deep_view()),
{
    push_str(out, "#text(size: 10pt, weight: \"bold\")[");
    push_escaped(out, e.company.as_str());
    push_str(out, " \u{2014} ");
    push_escaped(out, e.position.as_str());
    push_str(out, "]\n");
    push_str(out, "#text(style: \"italic\")[");
    push_escaped(out, e.period.as_str());
    push_str(out, " | ");
    push_escaped(out, e.location.as_str());
    push_str(out, "]\n\n");
    let n = e.highlights.len();
    let ghost mid = out@;
    proof {
        assert(e.highlights.deep_view().take(0) =~= Seq::<Seq<char>>::empty());
        assert(mid + highlight_bullets(e.highlights.deep_view().take(0)) =~= mid);
    }
    for i in 0..n
        invariant
            n == e.highlights.len(),
            out@ == mid + highlight_bullets(e.highlights.deep_view().take(i as int)),
    {
        push_str(out, "- ");
        push_escaped(out, e.highlights[i].as_str());
        push_str(out, "\n");
        proof {
            let hv = e.highlights.deep_view();
            assert(hv.take(i + 1).drop_last() =~= hv.take(i as int));
            assert(hv.take(i + 1).last() == hv[i as int]);
            assert(out@ =~= mid + highlight_bullets(hv.take(i + 1)));
        }
    }
    push_str(out, "\n");
    proof {
        assert(e.highlights.deep_view().take(n as int) =~= e.highlights.deep_view());
        assert(out@ =~= old(out)@ + experience_block(e.deep_view()));
    }
}

/// Appends one contact line.
fn push_contact_line(out: &mut Vec<char>, c: &Contact)
    ensures
        final(out)@ == old(out)@ + contact_line(c.deep_view()),
{
    push_escaped(out, c.platform.as_str());
    push_str(out, ": #link(\"");
    push_str(out, c.url.as_str());
    push_str(out, "\")[");
    push_escaped(out, c.label.as_str());
    push_str(out, "]\n\n");
    proof {
        assert(out@ =~= old(out)@ + contact_line(c.deep_view()));
    }
}

/// Produces the whole markup document for `doc`.
pub fn render_markup(doc: &SourceDocument) -> (r: String)
    ensures
        r@ == markup_document(doc.deep_view()),
{
    let mut out: Vec<char> = Vec::new();
    push_str(
        &mut out,
        "#set page(margin: 1.5cm)\n#set text(font: \"Liberation Sans\", size: 9pt)\n#show link: it => underline(text(fill: rgb(\"#0066cc\"), it))\n\n",
    );
    push_str(&mut out, "#align(center)[#text(size: 18pt, weight: \"bold\")[");
    push_escaped(&mut out, doc.profile.name.as_str());
    push_str(&mut out, "]]\n");
    push_str(&mut out, "#align(center)[#text(size: 11pt)[");
    push_escaped(&mut out, doc.profile.title.as_str());
    push_str(&mut out, "]]\n\n");
    push_escaped(&mut out, doc.profile.summary.as_str());
    push_str(&mut out, "\n\n");
    proof {
        assert(out@ =~= page_preamble() + header_section(doc.profile.deep_view()));
    }
    push_str(&mut out, "#text(size: 12pt, weight: \"bold\")[CORE COMPETENCIES]\n\n");
    push_skill_line(&mut out, "Cloud & Infrastructure", &doc.skills.cloud);
    push_skill_line(&mut out, "DevOps & Automation", &doc.skills.devops);
    push_skill_line(&mut out, "Monitoring & Observability", &doc.skills.monitoring);
    push_skill_line(&mut out, "Programming Languages", &doc.skills.languages);
    push_skill_line(&mut out, "Rust Ecosystem", &doc.skills.domain_ecosystem);
    push_skill_line(&mut out, "Databases & Messaging", &doc.skills.databases);
    push_skill_line(&mut out, "Security", &doc.skills.security);
    proof {
        assert(out@ =~= page_preamble() + header_section(doc.profile.deep_view())
            + competencies_section(doc.skills.deep_view()));
    }
    push_str(&mut out, "#text(size: 12pt, weight: \"bold\")[PROFESSIONAL EXPERIENCE]\n\n");
    let ghost before_exps = out@;
    let n = doc.experience.len();
    proof {
        assert(doc.experience.deep_view().take(0) =~= Seq::<ExperienceView>::empty());
        assert(before_exps + experience_blocks(doc.experience.deep_view().take(0))
            =~= before_exps);
    }
    for i in 0..n
        invariant
            n == doc.experience.len(),
            out@ == before_exps + experience_blocks(doc.experience.deep_view().take(i as int)),
    {
        push_experience_block(&mut out, &doc.experience[i]);
        proof {
            let ev = doc.experience.deep_view();
            assert(ev.take(i + 1).drop_last() =~= ev.take(i as int));
            assert(ev.take(i + 1).last() == ev[i as int]);
            assert(out@ =~= before_exps + experience_blocks(ev.take(i + 1)));
        }
    }
    proof {
        assert(doc.experience.deep_view().take(n as int) =~= doc.experience.deep_view());
    }
    push_str(&mut out, "#text(size: 12pt, weight: \"bold\")[CONTACT]\n\n");
    let ghost before_contacts = out@;
    let m = doc.contacts.len();
    proof {
        assert(doc.contacts.deep_view().take(0) =~= Seq::<ContactView>::empty());
        assert(before_contacts + contact_lines(doc.contacts.deep_view().take(0))
            =~= before_contacts);
    }
    for i in 0..m
        invariant
            m == doc.contacts.len(),
            out@ == before_contacts + contact_lines(doc.contacts.deep_view().take(i as int)),
    {
        push_contact_line(&mut out, &doc.contacts[i]);
        proof {
            let cv = doc.contacts.deep_view();
            assert(cv.take(i + 1).drop_last() =~= cv.take(i as int));
            assert(cv.take(i + 1).last() == cv[i as int]);
            assert(out@ =~= before_contacts + contact_lines(cv.take(i + 1)));
        }
    }
    proof {
        assert(doc.contacts.deep_view().take(m as int) =~= doc.contacts.deep_view());
        assert(out@ =~= markup_document(doc.deep_view()));
    }
    string_from_chars(&out)
}

} // verus!
