use resume_compiler::card::{contact_icon, download_filename};
use resume_compiler::model::{Contact, Experience, Profile, SkillCategories, SourceDocument};
use resume_compiler::pipeline::plan_build;

fn strings(items: &[&str]) -> Vec<String> {
    items.iter().map(|s| s.to_string()).collect()
}

fn document() -> SourceDocument {
    SourceDocument {
        profile: Profile {
            name: "Jane Roe".to_string(),
            title: "Engineer".to_string(),
            summary: "Builds things.".to_string(),
        },
        skills: SkillCategories {
            cloud: strings(&["A", "B", "C"]),
            devops: vec![],
            monitoring: vec![],
            languages: vec![],
            domain_ecosystem: vec![],
            databases: vec![],
            security: strings(&["TLS", "OAuth"]),
        },
        experience: vec![
            Experience {
                company: "Acme".to_string(),
                position: "SRE".to_string(),
                period: "2020-2023".to_string(),
                location: "Remote".to_string(),
                highlights: strings(&["Cut p99 latency 40%"]),
            },
        ],
        contacts: vec![
            Contact {
                platform: "Email".to_string(),
                url: "mailto:jane@example.com".to_string(),
                label: "jane@example.com".to_string(),
            },
        ],
    }
}

#[test]
fn one_build_derives_all_three_artifacts() {
    let doc = document();
    let plan = plan_build(&doc, Some("1.2.3"), Some("abc1234\n"), None);
    assert!(plan.constant_table.contains("pub const SKILLS_CLOUD: &[&str] = &[\"A\", \"B\", \"C\"];\n"));
    assert_eq!(plan.provenance.version, "1.2.3");
    assert_eq!(plan.provenance.revision, "abc1234");
    assert_eq!(plan.provenance.timestamp, "abc1234");
    assert!(plan.provenance_write);
    assert!(plan.markup.contains("- Cut p99 latency 40%\n"));
    assert!(plan.markup.contains("#link(\"mailto:jane@example.com\")[jane\\@example.com]"));
}

#[test]
fn unchanged_provenance_is_not_rewritten() {
    let doc = document();
    let first = plan_build(&doc, Some("1.2.3"), Some("abc1234"), None);
    let second = plan_build(
        &doc,
        Some("1.2.3"),
        Some("abc1234"),
        Some(first.provenance_source.as_str()),
    );
    assert!(!second.provenance_write);
    assert_eq!(first.provenance_source, second.provenance_source);
    let changed = plan_build(
        &doc,
        Some("1.2.3"),
        Some("def5678"),
        Some(first.provenance_source.as_str()),
    );
    assert!(changed.provenance_write);
}

#[test]
fn missing_tool_output_degrades_to_the_sentinel() {
    let doc = document();
    let plan = plan_build(&doc, None, None, None);
    assert_eq!(plan.provenance.version, "unknown");
    assert_eq!(plan.provenance.revision, "dev");
    assert!(plan.provenance_source.contains("pub const BUILD_COMMIT: &str = \"dev\";\n"));
}

#[test]
fn picks_contact_icons_by_platform() {
    let mut c = Contact {
        platform: "Email".to_string(),
        url: "mailto:j@example.com".to_string(),
        label: "mail".to_string(),
    };
    assert_eq!(contact_icon(&c), "\u{1F4E9}");
    c.platform = "Phone".to_string();
    assert_eq!(contact_icon(&c), "\u{260E}");
    c.platform = "LinkedIn".to_string();
    assert_eq!(contact_icon(&c), "in");
    c.platform = "Schedule".to_string();
    assert_eq!(contact_icon(&c), "\u{1F4C5}");
    c.platform = "Carrier pigeon".to_string();
    assert_eq!(contact_icon(&c), "\u{1F517}");
}

#[test]
fn suggests_an_underscored_download_filename() {
    assert_eq!(download_filename("Jane Roe"), "Jane_Roe_CV.pdf");
    assert_eq!(download_filename("Ada"), "Ada_CV.pdf");
    assert_eq!(download_filename(""), "_CV.pdf");
}
