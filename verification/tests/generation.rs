use resume_compiler::model::{Contact, Experience, Profile, SkillCategories, SourceDocument};
use resume_compiler::tables::generate_constant_table;

fn strings(items: &[&str]) -> Vec<String> {
    items.iter().map(|s| s.to_string()).collect()
}

fn end_to_end_document() -> SourceDocument {
    SourceDocument {
        profile: Profile {
            name: "Jane Roe".to_string(),
            title: "Engineer".to_string(),
            summary: "Builds things.".to_string(),
        },
        skills: SkillCategories {
            cloud: vec![],
            devops: vec![],
            monitoring: vec![],
            languages: vec![],
            domain_ecosystem: vec![],
            databases: vec![],
            security: strings(&["TLS", "OAuth"]),
        },
        experience: vec![
            Experience {
                company: "Acme".to_string(),
                position: "SRE".to_string(),
                period: "2020-2023".to_string(),
                location: "Remote".to_string(),
                highlights: strings(&["Cut p99 latency 40%"]),
            },
        ],
        contacts: vec![
            Contact {
                platform: "Email".to_string(),
                url: "mailto:jane@example.com".to_string(),
                label: "jane@example.com".to_string(),
            },
        ],
    }
}

#[test]
fn generation_is_deterministic() {
    let doc = end_to_end_document();
    let first = generate_constant_table(&doc);
    let second = generate_constant_table(&doc);
    assert_eq!(first, second);
}

#[test]
fn preserves_skill_list_order() {
    let mut doc = end_to_end_document();
    doc.skills.cloud = strings(&["A", "B", "C"]);
    let table = generate_constant_table(&doc);
    assert!(table.contains("pub const SKILLS_CLOUD: &[&str] = &[\"A\", \"B\", \"C\"];\n"));
}

#[test]
fn empty_lists_emit_valid_empty_collections() {
    let mut doc = end_to_end_document();
    doc.skills.security = vec![];
    doc.experience[0].highlights = vec![];
    let table = generate_constant_table(&doc);
    assert!(table.contains("pub const SKILLS_SECURITY: &[&str] = &[];\n"));
    assert!(table.contains("        highlights: &[\n        ],\n"));
}

#[test]
fn end_to_end_constant_table() {
    let doc = end_to_end_document();
    let table = generate_constant_table(&doc);
    let mut expected = String::new();
    expected.push_str("pub struct Profile {\n");
    expected.push_str("    pub name: &'static str,\n");
    expected.push_str("    pub title: &'static str,\n");
    expected.push_str("    pub summary: &'static str,\n");
    expected.push_str("}\n\n");
    expected.push_str("pub struct Experience {\n");
    expected.push_str("    pub company: &'static str,\n");
    expected.push_str("    pub position: &'static str,\n");
    expected.push_str("    pub period: &'static str,\n");
    expected.push_str("    pub location: &'static str,\n");
    expected.push_str("    pub highlights: &'static [&'static str],\n");
    expected.push_str("}\n\n");
    expected.push_str("pub struct Contact {\n");
    expected.push_str("    pub platform: &'static str,\n");
    expected.push_str("    pub url: &'static str,\n");
    expected.push_str("    pub label: &'static str,\n");
    expected.push_str("}\n\n");
    expected.push_str("pub const PROFILE: Profile = Profile {\n");
    expected.push_str("    name: \"Jane Roe\",\n");
    expected.push_str("    title: \"Engineer\",\n");
    expected.push_str("    summary: \"Builds things.\",\n");
    expected.push_str("};\n\n");
    expected.push_str("pub const SKILLS_CLOUD: &[&str] = &[];\n");
    expected.push_str("pub const SKILLS_DEVOPS: &[&str] = &[];\n");
    expected.push_str("pub const SKILLS_MONITORING: &[&str] = &[];\n");
    expected.push_str("pub const SKILLS_LANGUAGES: &[&str] = &[];\n");
    expected.push_str("pub const SKILLS_RUST: &[&str] = &[];\n");
    expected.push_str("pub const SKILLS_DB: &[&str] = &[];\n");
    expected.push_str("pub const SKILLS_SECURITY: &[&str] = &[\"TLS\", \"OAuth\"];\n");
    expected.push_str("pub const EXPERIENCE: &[Experience] = &[\n");
    expected.push_str("    Experience {\n");
    expected.push_str("        company: \"Acme\",\n");
    expected.push_str("        position: \"SRE\",\n");
    expected.push_str("        period: \"2020-2023\",\n");
    expected.push_str("        location: \"Remote\",\n");
    expected.push_str("        highlights: &[\n");
    expected.push_str("            \"Cut p99 latency 40%\",\n");
    expected.push_str("        ],\n");
    expected.push_str("    },\n");
    expected.push_str("];\n\n");
    expected.push_str("pub const CONTACTS: &[Contact] = &[\n");
    expected.push_str("    Contact {\n");
    expected.push_str("        platform: \"Email\",\n");
    expected.push_str("        url: \"mailto:jane@example.com\",\n");
    expected.push_str("        label: \"jane@example.com\",\n");
    expected.push_str("    },\n");
    expected.push_str("];\n");
    assert_eq!(table, expected);
}

#[test]
fn quotes_and_escapes_embedded_strings() {
    let mut doc = end_to_end_document();
    doc.profile.summary = "Writes \"solid\" code\nand docs".to_string();
    let table = generate_constant_table(&doc);
    assert!(table.contains("    summary: \"Writes \\\"solid\\\" code\\nand docs\",\n"));
}

#[test]
fn preserves_experience_and_contact_order() {
    let mut doc = end_to_end_document();
    doc.experience.push(Experience {
        company: "Beta".to_string(),
        position: "Dev".to_string(),
        period: "2018-2020".to_string(),
        location: "Berlin".to_string(),
        highlights: vec![],
    });
    doc.contacts.push(Contact {
        platform: "Phone".to_string(),
        url: "tel:+1".to_string(),
        label: "+1".to_string(),
    });
    let table = generate_constant_table(&doc);
    let acme = table.find("company: \"Acme\"").unwrap();
    let beta = table.find("company: \"Beta\"").unwrap();
    assert!(acme < beta);
    let email = table.find("platform: \"Email\"").unwrap();
    let phone = table.find("platform: \"Phone\"").unwrap();
    assert!(email < phone);
}
