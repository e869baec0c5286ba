//! The immutable in-memory model of the structured source document.
//!
//! The document is parsed once per build, outside the library, and handed
//! in as plain values; no stage mutates it.  Every type has a deep view
//! over `Seq<char>` so the generation stages can state their output as a
//! function of the document's mathematical value.

use vstd::prelude::*;

verus! {

/// Display identity of the document's subject: all three are taken
/// verbatim into the generated artifacts.
pub struct Profile {
    pub name: String,
    pub title: String,
    pub summary: String,
}

pub ghost struct ProfileView {
    pub name: Seq<char>,
    pub title: Seq<char>,
    pub summary: Seq<char>,
}

impl DeepView for Profile {
    type V = ProfileView;

    open spec fn deep_view(&self) -> ProfileView {
        ProfileView {
            name: self.name@,
            title: self.title@,
            summary: self.summary@,
        }
    }
}

/// Seven named ordered skill lists; category identity is fixed by the
/// field name and list order is display order, preserved end-to-end.
pub struct SkillCategories {
    pub cloud: Vec<String>,
    pub devops: Vec<String>,
    pub monitoring: Vec<String>,
    pub languages: Vec<String>,
    pub domain_ecosystem: Vec<String>,
    pub databases: Vec<String>,
    pub security: Vec<String>,
}

pub ghost struct SkillCategoriesView {
    pub cloud: Seq<Seq<char>>,
    pub devops: Seq<Seq<char>>,
    pub monitoring: Seq<Seq<char>>,
    pub languages: Seq<Seq<char>>,
    pub domain_ecosystem: Seq<Seq<char>>,
    pub databases: Seq<Seq<char>>,
    pub security: Seq<Seq<char>>,
}

impl DeepView for SkillCategories {
    type V = SkillCategoriesView;

    open spec fn deep_view(&self) -> SkillCategoriesView {
        SkillCategoriesView {
            cloud: self.cloud.deep_view(),
            devops: self.devops.deep_view(),
            monitoring: self.monitoring.deep_view(),
            languages: self.languages.deep_view(),
            domain_ecosystem: self.domain_ecosystem.deep_view(),
            databases: self.databases.deep_view(),
            security: self.security.deep_view(),
        }
    }
}

/// One work-history entry; entries arrive already ordered and are never
/// re-sorted.
pub struct Experience {
    pub company: String,
    pub position: String,
    pub period: String,
    pub location: String,
    pub highlights: Vec<String>,
}

pub ghost struct ExperienceView {
    pub company: Seq<char>,
    pub position: Seq<char>,
    pub period: Seq<char>,
    pub location: Seq<char>,
    pub highlights: Seq<Seq<char>>,
}

impl DeepView for Experience {
    type V = ExperienceView;

    open spec fn deep_view(&self) -> ExperienceView {
        ExperienceView {
            company: self.company@,
            position: self.position@,
            period: self.period@,
            location: self.location@,
            highlights: self.highlights.deep_view(),
        }
    }
}

/// One contact channel; the url must stay a valid address and is the one
/// string never escaped by the rendering stage.
pub struct Contact {
    pub platform: String,
    pub url: String,
    pub label: String,
}

pub ghost struct ContactView {
    pub platform: Seq<char>,
    pub url: Seq<char>,
    pub label: Seq<char>,
}

impl DeepView for Contact {
    type V = ContactView;

    open spec fn deep_view(&self) -> ContactView {
        ContactView {
            platform: self.platform@,
            url: self.url@,
            label: self.label@,
        }
    }
}

/// The root of the model: the four required sections of the source
/// document.
pub struct SourceDocument {
    pub profile: Profile,
    pub skills: SkillCategories,
    pub experience: Vec<Experience>,
    pub contacts: Vec<Contact>,
}

pub ghost struct SourceDocumentView {
    pub profile: ProfileView,
    pub skills: SkillCategoriesView,
    pub experience: Seq<ExperienceView>,
    pub contacts: Seq<ContactView>,
}

impl DeepView for SourceDocument {
    type V = SourceDocumentView;

    open spec fn deep_view(&self) -> SourceDocumentView {
        SourceDocumentView {
            profile: self.profile.deep_view(),
            skills: self.skills.deep_view(),
            experience: self.experience.deep_view(),
            contacts: self.contacts.deep_view(),
        }
    }
}

} // verus!
