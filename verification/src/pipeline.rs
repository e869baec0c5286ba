//! The build pipeline: one document in, three artifacts out.
//!
//! The surrounding program loads the document, queries the environment
//! and the version-control tool, and hands everything in as plain
//! values; this stage derives the constant tables, the provenance
//! source with its change-gated write decision, and the typeset markup.
//! The three derivations share only read access to the immutable
//! document, so their order is immaterial, and none of them can fail.

use vstd::prelude::*;
use crate::model::SourceDocument;
use crate::provenance::{
    BuildProvenance,
    compute_provenance,
    generate_provenance_source,
    needs_write,
    provenance_source,
    provenance_wf,
    revision_spec,
    version_spec,
    write_needed,
};
use crate::render::{markup_document, render_markup};
use crate::tables::{constant_table, generate_constant_table};

verus! {

/// Everything one build derives before touching the disk.
pub struct BuildArtifacts {
    /// The constant-table source, written unconditionally.
    pub constant_table: String,
    /// This build's provenance value.
    pub provenance: BuildProvenance,
    /// The provenance source text.
    pub provenance_source: String,
    /// Whether the provenance source differs from the persisted bytes
    /// and must therefore be written.
    pub provenance_write: bool,
    /// The typeset markup document.
    pub markup: String,
}

/// Derives all three artifact families for one build from the document,
/// the environment's optional release version, the version-control
/// tool's optional output, and the persisted provenance bytes, if any.
pub fn plan_build(
    doc: &SourceDocument,
    release_version: Option<&str>,
    tool_output: Option<&str>,
    persisted_provenance: Option<&str>,
) -> (b: BuildArtifacts)
    ensures
        b.constant_table@ == constant_table(doc.deep_view()),
        b.provenance.deep_view().version == version_spec(release_version.deep_view()),
        b.provenance.deep_view().revision == revision_spec(tool_output.deep_view()),
        provenance_wf(b.provenance.deep_view()),
        b.provenance_source@ == provenance_source(b.provenance.deep_view()),
        b.provenance_write == write_needed(
            persisted_provenance.deep_view(),
            b.provenance_source@,
        ),
        b.markup@ == markup_document(doc.deep_view()),
{
    let constant_table = generate_constant_table(doc);
    let provenance = compute_provenance(release_version, tool_output);
    let provenance_text = generate_provenance_source(&provenance);
    let provenance_write = needs_write(persisted_provenance, provenance_text.as_str());
    let markup = render_markup(doc);
    BuildArtifacts {
        constant_table,
        provenance,
        provenance_source: provenance_text,
        provenance_write,
        markup,
    }
}

} // verus!
