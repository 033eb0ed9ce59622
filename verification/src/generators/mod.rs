//! The generators of document content: one for each kind of specification,
//! each expanding its own template against the request's data.

pub mod ieee830;
pub mod iso29148_conops;
pub mod iso29148_srs;
pub mod iso29148_stakrs;
pub mod iso29148_syrs;
pub mod security_report;

pub use ieee830::IEEE830Generator;
pub use iso29148_conops::ISO29148ConOpsGenerator;
pub use iso29148_srs::ISO29148SRSGenerator;
pub use iso29148_stakrs::ISO29148StakRSGenerator;
pub use iso29148_syrs::ISO29148SyRSGenerator;
pub use security_report::SecurityReportGenerator;

use vstd::prelude::*;
use vstd::string::*;
use crate::error::DocumentError;
use crate::json::{
    entry_views,
    object_entries,
    object_from_entries,
    spec_object,
    spec_object_entries,
};
use crate::models::SpecificationType;
use crate::template::{expand_template, expansion_of, is_content_of};
use crate::text::concat3;

verus! {

/// A generator of document content: it expands its own template against the
/// request's data and the document's metadata.
pub trait Generator {
    /// The name of the template that the generator expands.
    spec fn template_text(&self) -> Seq<char>;

    /// The name of the template that the generator expands.
    fn template_name(&self) -> (name: &'static str)
        ensures
            name@ == self.template_text(),
    ;

    /// Generates the document's content from the source of the generator's
    /// template: the expanded text, a template error for a source that does
    /// not compile, or a rendering error for an expansion that fails.
    fn generate(
        &self,
        template_source: &str,
        data: &serde_json::Value,
        metadata: &serde_json::Value,
    ) -> (content: Result<String, DocumentError>)
        ensures
            is_content_of(
                expansion_of(self.template_text(), template_source@, context_of(*metadata, *data)),
                content,
            ),
    ;
}

/// The generator of one kind of document, whichever it is.
#[derive(Debug)]
pub enum AnyGenerator {
    IEEE830(IEEE830Generator),
    StakeholderRequirements(ISO29148StakRSGenerator),
    SystemRequirements(ISO29148SyRSGenerator),
    SoftwareRequirements(ISO29148SRSGenerator),
    ConceptOfOperations(ISO29148ConOpsGenerator),
    SecurityReport(SecurityReportGenerator),
}

/// The name of the template from which a kind of document is generated, if
/// the kind has a generator.
pub open spec fn template_of(spec_type: SpecificationType) -> Option<Seq<char>> {
    match spec_type {
        SpecificationType::IEEE830DRD => Some("ieee830_srs"@),
        SpecificationType::IEEE830SRS => Some("ieee830_srs"@),
        SpecificationType::ISO29148StakeholderRequirements => Some("iso29148_stakrs"@),
        SpecificationType::ISO29148SystemRequirements => Some("iso29148_syrs"@),
        SpecificationType::ISO29148SoftwareRequirements => Some("iso29148_srs"@),
        SpecificationType::ISO29148ConceptOfOperations => Some("iso29148_conops"@),
        SpecificationType::SecurityScanReport => Some("security_report"@),
        _ => None,
    }
}

/// Where the template of a name is kept.
pub open spec fn template_path_text(name: Seq<char>) -> Seq<char> {
    "./templates/"@ + name + ".md.hbs"@
}

/// Where the template of a name is kept.
pub fn template_path(name: &str) -> (path: String)
    ensures
        path@ == template_path_text(name@),
{
    concat3("./templates/", name, ".md.hbs")
}

/// The entries of a template's context, in the order in which they are set:
/// the metadata under `metadata`, the data under `data`, and then, if the data
/// is an object, each of its own entries at the top level.
pub open spec fn context_entries_of(
    metadata: serde_json::Value,
    data: serde_json::Value,
    data_entries: Option<Seq<(Seq<char>, serde_json::Value)>>,
) -> Seq<(Seq<char>, serde_json::Value)> {
    let named = seq![("metadata"@, metadata), ("data"@, data)];
    match data_entries {
        Some(own) => named + own,
        None => named,
    }
}

/// The context against which a generator expands its template: the object
/// made of the metadata, the data and, if the data is an object, its own
/// entries, in that order.
pub open spec fn context_of(metadata: serde_json::Value, data: serde_json::Value) -> serde_json::Value {
    spec_object(context_entries_of(metadata, data, spec_object_entries(data)))
}

/// Lays out the entries of a template's context.
pub fn context_entries(
    metadata: serde_json::Value,
    data: serde_json::Value,
    data_entries: Option<Vec<(String, serde_json::Value)>>,
) -> (entries: Vec<(String, serde_json::Value)>)
    ensures
        entry_views(entries@) == context_entries_of(
            metadata,
            data,
            match data_entries {
                Some(own) => Some(entry_views(own@)),
                None => None,
            },
        ),
{
    let mut entries: Vec<(String, serde_json::Value)> = Vec::new();
    entries.push((String::from_str("metadata"), metadata));
    entries.push((String::from_str("data"), data));
    let ghost named = entry_views(entries@);
    assert(named =~= seq![("metadata"@, metadata), ("data"@, data)]);
    match data_entries {
        Some(own) => {
            let mut own = own;
            let ghost all = own@;
            entries.append(&mut own);
            assert(entry_views(entries@) =~= named + entry_views(all));
        },
        None => {},
    }
    entries
}

/// Expands the template of the given name and source against the context made
/// of the metadata and the data. A source that does not compile gives a
/// template error and an expansion that fails a rendering error, each with the
/// text of its cause.
pub fn render_named(
    name: &str,
    source: &str,
    data: &serde_json::Value,
    metadata: &serde_json::Value,
) -> (content: Result<String, DocumentError>)
    ensures
        is_content_of(expansion_of(name@, source@, context_of(*metadata, *data)), content),
{
    let own = object_entries(data);
    let entries = context_entries(metadata.clone(), data.clone(), own);
    let context = object_from_entries(entries);
    expand_template(name, source, &context)
}

impl Generator for AnyGenerator {
    open spec fn template_text(&self) -> Seq<char> {
        match self {
            AnyGenerator::IEEE830(g) => g.template_text(),
            AnyGenerator::StakeholderRequirements(g) => g.template_text(),
            AnyGenerator::SystemRequirements(g) => g.template_text(),
            AnyGenerator::SoftwareRequirements(g) => g.template_text(),
            AnyGenerator::ConceptOfOperations(g) => g.template_text(),
            AnyGenerator::SecurityReport(g) => g.template_text(),
        }
    }

    fn template_name(&self) -> (name: &'static str) {
        match self {
            AnyGenerator::IEEE830(g) => g.template_name(),
            AnyGenerator::StakeholderRequirements(g) => g.template_name(),
            AnyGenerator::SystemRequirements(g) => g.template_name(),
            AnyGenerator::SoftwareRequirements(g) => g.template_name(),
            AnyGenerator::ConceptOfOperations(g) => g.template_name(),
            AnyGenerator::SecurityReport(g) => g.template_name(),
        }
    }

    fn generate(
        &self,
        template_source: &str,
        data: &serde_json::Value,
        metadata: &serde_json::Value,
    ) -> (content: Result<String, DocumentError>) {
        render_named(self.template_name(), template_source, data, metadata)
    }
}

/// The generator of a kind of document. The military-standard specification
/// and the audit and test reports have none.
pub fn create_generator(spec_type: &SpecificationType) -> (created: Result<
    AnyGenerator,
    DocumentError,
>)
    ensures
        match created {
            Ok(generator) => template_of(*spec_type) == Some(generator.template_text()),
            Err(e) => {
                &&& template_of(*spec_type).is_none()
                &&& e matches DocumentError::InvalidSpecificationType(name)
                &&& name@ == spec_type.variant_text()
            },
        },
{
    match spec_type {
        SpecificationType::IEEE830DRD => Ok(AnyGenerator::IEEE830(IEEE830Generator::new())),
        SpecificationType::IEEE830SRS => Ok(AnyGenerator::IEEE830(IEEE830Generator::new())),
        SpecificationType::ISO29148StakeholderRequirements => Ok(
            AnyGenerator::StakeholderRequirements(ISO29148StakRSGenerator::new()),
        ),
        SpecificationType::ISO29148SystemRequirements => Ok(
            AnyGenerator::SystemRequirements(ISO29148SyRSGenerator::new()),
        ),
        SpecificationType::ISO29148SoftwareRequirements => Ok(
            AnyGenerator::SoftwareRequirements(ISO29148SRSGenerator::new()),
        ),
        SpecificationType::ISO29148ConceptOfOperations => Ok(
            AnyGenerator::ConceptOfOperations(ISO29148ConOpsGenerator::new()),
        ),
        SpecificationType::SecurityScanReport => Ok(
            AnyGenerator::SecurityReport(SecurityReportGenerator::new()),
        ),
        _ => Err(
            DocumentError::InvalidSpecificationType(String::from_str(spec_type.variant_name())),
        ),
    }
}

} // verus!
