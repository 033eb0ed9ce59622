//! Requests, document metadata and outcome events of the embedded-document
//! flow.

use vstd::prelude::*;
use vstd::string::*;
use crate::clock::Timestamp;

verus! {

/// The output formats a document can be asked for in.
#[derive(Debug, Clone, Copy, PartialEq, Eq, Structural)]
pub enum DocumentFormat {
    PDF,
    Markdown,
    HTML,
}

impl DocumentFormat {
    /// The MIME type of documents of the format.
    pub open spec fn mime_type_text(self) -> Seq<char> {
        match self {
            DocumentFormat::PDF => "application/pdf"@,
            DocumentFormat::Markdown => "text/markdown"@,
            DocumentFormat::HTML => "text/html"@,
        }
    }

    /// The file extension of documents of the format.
    pub open spec fn extension_text(self) -> Seq<char> {
        match self {
            DocumentFormat::PDF => "pdf"@,
            DocumentFormat::Markdown => "md"@,
            DocumentFormat::HTML => "html"@,
        }
    }

    /// The name of the format as it is written in messages.
    pub open spec fn name_text(self) -> Seq<char> {
        match self {
            DocumentFormat::PDF => "PDF"@,
            DocumentFormat::Markdown => "Markdown"@,
            DocumentFormat::HTML => "HTML"@,
        }
    }

    pub fn mime_type(&self) -> (text: &'static str)
        ensures
            text@ == self.mime_type_text(),
    {
        match self {
            DocumentFormat::PDF => "application/pdf",
            DocumentFormat::Markdown => "text/markdown",
            DocumentFormat::HTML => "text/html",
        }
    }

    pub fn extension(&self) -> (text: &'static str)
        ensures
            text@ == self.extension_text(),
    {
        match self {
            DocumentFormat::PDF => "pdf",
            DocumentFormat::Markdown => "md",
            DocumentFormat::HTML => "html",
        }
    }
}

/// The kinds of specification and report that can be asked for.
#[derive(Debug, Clone, Copy, PartialEq, Eq, Structural)]
pub enum SpecificationType {
    IEEE830DRD,
    IEEE830SRS,
    MilStd498SRS,
    ISO29148StakeholderRequirements,
    ISO29148SystemRequirements,
    ISO29148SoftwareRequirements,
    ISO29148ConceptOfOperations,
    SecurityScanReport,
    ComplianceAuditReport,
    TestExecutionReport,
}

impl SpecificationType {
    /// The name under which the kind travels in a request.
    pub open spec fn wire_text(self) -> Seq<char> {
        match self {
            SpecificationType::IEEE830DRD => "ieee830_drd"@,
            SpecificationType::IEEE830SRS => "ieee830_srs"@,
            SpecificationType::MilStd498SRS => "milstd498_srs"@,
            SpecificationType::ISO29148StakeholderRequirements => "iso29148_stakeholder_requirements"@,
            SpecificationType::ISO29148SystemRequirements => "iso29148_system_requirements"@,
            SpecificationType::ISO29148SoftwareRequirements => "iso29148_software_requirements"@,
            SpecificationType::ISO29148ConceptOfOperations => "iso29148_concept_of_operations"@,
            SpecificationType::SecurityScanReport => "security_scan_report"@,
            SpecificationType::ComplianceAuditReport => "compliance_audit_report"@,
            SpecificationType::TestExecutionReport => "test_execution_report"@,
        }
    }

    /// The name of the variant itself, as it is written in diagnostics.
    pub open spec fn variant_text(self) -> Seq<char> {
        match self {
            SpecificationType::IEEE830DRD => "IEEE830DRD"@,
            SpecificationType::IEEE830SRS => "IEEE830SRS"@,
            SpecificationType::MilStd498SRS => "MilStd498SRS"@,
            SpecificationType::ISO29148StakeholderRequirements => "ISO29148StakeholderRequirements"@,
            SpecificationType::ISO29148SystemRequirements => "ISO29148SystemRequirements"@,
            SpecificationType::ISO29148SoftwareRequirements => "ISO29148SoftwareRequirements"@,
            SpecificationType::ISO29148ConceptOfOperations => "ISO29148ConceptOfOperations"@,
            SpecificationType::SecurityScanReport => "SecurityScanReport"@,
            SpecificationType::ComplianceAuditReport => "ComplianceAuditReport"@,
            SpecificationType::TestExecutionReport => "TestExecutionReport"@,
        }
    }

    pub fn wire_name(&self) -> (text: &'static str)
        ensures
            text@ == self.wire_text(),
    {
        match self {
            SpecificationType::IEEE830DRD => "ieee830_drd",
            SpecificationType::IEEE830SRS => "ieee830_srs",
            SpecificationType::MilStd498SRS => "milstd498_srs",
            SpecificationType::ISO29148StakeholderRequirements => "iso29148_stakeholder_requirements",
            SpecificationType::ISO29148SystemRequirements => "iso29148_system_requirements",
            SpecificationType::ISO29148SoftwareRequirements => "iso29148_software_requirements",
            SpecificationType::ISO29148ConceptOfOperations => "iso29148_concept_of_operations",
            SpecificationType::SecurityScanReport => "security_scan_report",
            SpecificationType::ComplianceAuditReport => "compliance_audit_report",
            SpecificationType::TestExecutionReport => "test_execution_report",
        }
    }

    pub fn variant_name(&self) -> (text: &'static str)
        ensures
            text@ == self.variant_text(),
    {
        match self {
            SpecificationType::IEEE830DRD => "IEEE830DRD",
            SpecificationType::IEEE830SRS => "IEEE830SRS",
            SpecificationType::MilStd498SRS => "MilStd498SRS",
            SpecificationType::ISO29148StakeholderRequirements => "ISO29148StakeholderRequirements",
            SpecificationType::ISO29148SystemRequirements => "ISO29148SystemRequirements",
            SpecificationType::ISO29148SoftwareRequirements => "ISO29148SoftwareRequirements",
            SpecificationType::ISO29148ConceptOfOperations => "ISO29148ConceptOfOperations",
            SpecificationType::SecurityScanReport => "SecurityScanReport",
            SpecificationType::ComplianceAuditReport => "ComplianceAuditReport",
            SpecificationType::TestExecutionReport => "TestExecutionReport",
        }
    }
}

/// A request for one document in one or more formats.
#[derive(Debug, Clone)]
pub struct DocumentGenerationRequest {
    pub specification_type: SpecificationType,
    pub output_formats: Vec<DocumentFormat>,
    pub data: serde_json::Value,
    pub metadata: DocumentMetadata,
}

/// What a document says of itself.
#[derive(Debug, Clone)]
pub struct DocumentMetadata {
    pub title: String,
    pub project_name: String,
    pub version: String,
    pub author: String,
    pub organization: String,
    pub classification: Option<String>,
    pub distribution_statement: Option<String>,
    pub generated_date: Timestamp,
}

/// One rendered document, embedded as base64 text.
#[derive(Debug, Clone)]
pub struct GeneratedDocument {
    pub format: DocumentFormat,
    pub content_base64: String,
    pub filename: String,
    pub mime_type: String,
    pub size_bytes: usize,
}

/// The outcome event of a request: its documents, or why there are none.
#[derive(Debug, Clone)]
pub struct DocumentGenerationResponse {
    pub request_id: String,
    pub status: String,
    pub documents: Vec<GeneratedDocument>,
    pub error: Option<String>,
    pub generated_at: Timestamp,
}

impl DocumentGenerationResponse {
    /// Whether the event reports success with the given documents.
    pub open spec fn is_success(self, request_id: Seq<char>, documents: Seq<GeneratedDocument>) -> bool {
        &&& self.request_id@ == request_id
        &&& self.status@ == "success"@
        &&& self.documents@ == documents
        &&& self.error.is_none()
    }

    /// Whether the event reports the given error, without any document.
    pub open spec fn is_error(self, request_id: Seq<char>, error: Seq<char>) -> bool {
        &&& self.request_id@ == request_id
        &&& self.status@ == "error"@
        &&& self.documents@.len() == 0
        &&& self.error.is_some()
        &&& self.error.unwrap()@ == error
    }

    /// The success event of a request, generated at the given time.
    pub fn success_at(
        request_id: String,
        documents: Vec<GeneratedDocument>,
        generated_at: Timestamp,
    ) -> (response: DocumentGenerationResponse)
        ensures
            response.is_success(request_id@, documents@),
            response.generated_at == generated_at,
    {
        DocumentGenerationResponse {
            request_id,
            status: String::from_str("success"),
            documents,
            error: None,
            generated_at,
        }
    }

    /// The error event of a request, generated at the given time.
    pub fn error_at(request_id: String, error: String, generated_at: Timestamp) -> (response:
        DocumentGenerationResponse)
        ensures
            response.is_error(request_id@, error@),
            response.generated_at == generated_at,
    {
        DocumentGenerationResponse {
            request_id,
            status: String::from_str("error"),
            documents: Vec::new(),
            error: Some(error),
            generated_at,
        }
    }

    /// The success event of a request, generated now.
    pub fn success(request_id: String, documents: Vec<GeneratedDocument>) -> (response:
        DocumentGenerationResponse)
        ensures
            response.is_success(request_id@, documents@),
    {
        Self::success_at(request_id, documents, Timestamp::now())
    }

    /// The error event of a request, generated now.
    pub fn error(request_id: String, error: String) -> (response: DocumentGenerationResponse)
        ensures
            response.is_error(request_id@, error@),
    {
        Self::error_at(request_id, error, Timestamp::now())
    }
}

/// The two kinds of event cannot be told for one another: no event is both a
/// success and an error.
pub proof fn lemma_outcome_is_one_kind(
    response: DocumentGenerationResponse,
    request_id: Seq<char>,
    documents: Seq<GeneratedDocument>,
    error: Seq<char>,
)
    ensures
        !(response.is_success(request_id, documents) && response.is_error(request_id, error)),
{
}

} // verus!
