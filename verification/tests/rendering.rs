use resume_compiler::model::{Contact, Experience, Profile, SkillCategories, SourceDocument};
use resume_compiler::render::render_markup;

fn strings(items: &[&str]) -> Vec<String> {
    items.iter().map(|s| s.to_string()).collect()
}

fn end_to_end_document() -> SourceDocument {
    SourceDocument {
        profile: Profile {
            name: "Jane Roe".to_string(),
            title: "Engineer".to_string(),
            summary: "Builds things.".to_string(),
        },
        skills: SkillCategories {
            cloud: vec![],
            devops: vec![],
            monitoring: vec![],
            languages: vec![],
            domain_ecosystem: vec![],
            databases: vec![],
            security: strings(&["TLS", "OAuth"]),
        },
        experience: vec![
            Experience {
                company: "Acme".to_string(),
                position: "SRE".to_string(),
                period: "2020-2023".to_string(),
                location: "Remote".to_string(),
                highlights: strings(&["Cut p99 latency 40%"]),
            },
        ],
        contacts: vec![
            Contact {
                platform: "Email".to_string(),
                url: "mailto:jane@example.com".to_string(),
                label: "jane@example.com".to_string(),
            },
        ],
    }
}

#[test]
fn end_to_end_markup() {
    let doc = end_to_end_document();
    let markup = render_markup(&doc);
    let mut expected = String::new();
    expected.push_str("#set page(margin: 1.5cm)\n");
    expected.push_str("#set text(font: \"Liberation Sans\", size: 9pt)\n");
    expected.push_str("#show link: it => underline(text(fill: rgb(\"#0066cc\"), it))\n\n");
    expected.push_str("#align(center)[#text(size: 18pt, weight: \"bold\")[Jane Roe]]\n");
    expected.push_str("#align(center)[#text(size: 11pt)[Engineer]]\n\n");
    expected.push_str("Builds things.\n\n");
    expected.push_str("#text(size: 12pt, weight: \"bold\")[CORE COMPETENCIES]\n\n");
    expected.push_str("*Cloud & Infrastructure:* \n\n");
    expected.push_str("*DevOps & Automation:* \n\n");
    expected.push_str("*Monitoring & Observability:* \n\n");
    expected.push_str("*Programming Languages:* \n\n");
    expected.push_str("*Rust Ecosystem:* \n\n");
    expected.push_str("*Databases & Messaging:* \n\n");
    expected.push_str("*Security:* TLS, OAuth\n\n");
    expected.push_str("#text(size: 12pt, weight: \"bold\")[PROFESSIONAL EXPERIENCE]\n\n");
    expected.push_str("#text(size: 10pt, weight: \"bold\")[Acme \u{2014} SRE]\n");
    expected.push_str("#text(style: \"italic\")[2020-2023 | Remote]\n\n");
    expected.push_str("- Cut p99 latency 40%\n\n");
    expected.push_str("#text(size: 12pt, weight: \"bold\")[CONTACT]\n\n");
    expected.push_str("Email: #link(\"mailto:jane@example.com\")[jane\\@example.com]\n\n");
    assert_eq!(markup, expected);
}

#[test]
fn escapes_user_text_but_not_urls() {
    let mut doc = end_to_end_document();
    doc.profile.summary = "Ships #fast [always]".to_string();
    doc.contacts[0].url = "https://example.com/#anchor".to_string();
    doc.contacts[0].label = "site#1".to_string();
    let markup = render_markup(&doc);
    assert!(markup.contains("Ships \\#fast \\[always\\]\n\n"));
    assert!(markup.contains("#link(\"https://example.com/#anchor\")[site\\#1]"));
}

#[test]
fn renders_highlights_as_bullets_in_order() {
    let mut doc = end_to_end_document();
    doc.experience[0].highlights = strings(&["first", "second", "third"]);
    let markup = render_markup(&doc);
    assert!(markup.contains("- first\n- second\n- third\n\n"));
}

#[test]
fn renders_skill_lists_comma_joined_in_order() {
    let mut doc = end_to_end_document();
    doc.skills.cloud = strings(&["A", "B", "C"]);
    let markup = render_markup(&doc);
    assert!(markup.contains("*Cloud & Infrastructure:* A, B, C\n\n"));
}
