//! The service's error taxonomy and its wire form.

use vstd::prelude::*;
use vstd::string::*;
use crate::text::concat2;

verus! {

/// What can go wrong while a document is produced. Each variant carries the
/// text of its cause.
#[derive(Debug, Clone)]
pub enum DocumentError {
    TemplateError(String),
    RenderError(String),
    IoError(String),
    PandocError(String),
    SerializationError(String),
    InvalidFormat(String),
    InvalidSpecificationType(String),
    MissingField(String),
    TemplateNotFound(String),
    PubSubError(String),
    Base64Error(String),
    InvalidData(String),
    GenerationFailed(String),
}

/// The wire form of an error: its message and a machine-readable tag.
#[derive(Debug, Clone)]
pub struct ErrorResponse {
    pub error: String,
    pub error_type: String,
}

impl DocumentError {
    /// The text of the cause.
    pub open spec fn detail(self) -> Seq<char> {
        match self {
            DocumentError::TemplateError(d) => d@,
            DocumentError::RenderError(d) => d@,
            DocumentError::IoError(d) => d@,
            DocumentError::PandocError(d) => d@,
            DocumentError::SerializationError(d) => d@,
            DocumentError::InvalidFormat(d) => d@,
            DocumentError::InvalidSpecificationType(d) => d@,
            DocumentError::MissingField(d) => d@,
            DocumentError::TemplateNotFound(d) => d@,
            DocumentError::PubSubError(d) => d@,
            DocumentError::Base64Error(d) => d@,
            DocumentError::InvalidData(d) => d@,
            DocumentError::GenerationFailed(d) => d@,
        }
    }

    /// What the message of each variant begins with.
    pub open spec fn prefix(self) -> Seq<char> {
        match self {
            DocumentError::TemplateError(_) => "Template error: "@,
            DocumentError::RenderError(_) => "Rendering error: "@,
            DocumentError::IoError(_) => "IO error: "@,
            DocumentError::PandocError(_) => "Pandoc error: "@,
            DocumentError::SerializationError(_) => "Serialization error: "@,
            DocumentError::InvalidFormat(_) => "Invalid document format: "@,
            DocumentError::InvalidSpecificationType(_) => "Invalid specification type: "@,
            DocumentError::MissingField(_) => "Missing required field: "@,
            DocumentError::TemplateNotFound(_) => "Template not found: "@,
            DocumentError::PubSubError(_) => "Pub/Sub error: "@,
            DocumentError::Base64Error(_) => "Base64 encoding error: "@,
            DocumentError::InvalidData(_) => "Invalid data: "@,
            DocumentError::GenerationFailed(_) => "Generation failed: "@,
        }
    }

    /// The machine-readable tag of each variant.
    pub open spec fn kind(self) -> Seq<char> {
        match self {
            DocumentError::TemplateError(_) => "template_error"@,
            DocumentError::RenderError(_) => "render_error"@,
            DocumentError::IoError(_) => "io_error"@,
            DocumentError::PandocError(_) => "pandoc_error"@,
            DocumentError::SerializationError(_) => "serialization_error"@,
            DocumentError::InvalidFormat(_) => "invalid_format"@,
            DocumentError::InvalidSpecificationType(_) => "invalid_specification_type"@,
            DocumentError::MissingField(_) => "missing_field"@,
            DocumentError::TemplateNotFound(_) => "template_not_found"@,
            DocumentError::PubSubError(_) => "pubsub_error"@,
            DocumentError::Base64Error(_) => "base64_error"@,
            DocumentError::InvalidData(_) => "invalid_data"@,
            DocumentError::GenerationFailed(_) => "generation_failed"@,
        }
    }

    /// The human-readable message: the variant's prefix, then the cause.
    pub open spec fn message(self) -> Seq<char> {
        self.prefix() + self.detail()
    }

    /// The human-readable message.
    pub fn to_string(&self) -> (text: String)
        ensures
            text@ == self.message(),
    {
        match self {
            DocumentError::TemplateError(d) => concat2("Template error: ", d.as_str()),
            DocumentError::RenderError(d) => concat2("Rendering error: ", d.as_str()),
            DocumentError::IoError(d) => concat2("IO error: ", d.as_str()),
            DocumentError::PandocError(d) => concat2("Pandoc error: ", d.as_str()),
            DocumentError::SerializationError(d) => concat2("Serialization error: ", d.as_str()),
            DocumentError::InvalidFormat(d) => concat2("Invalid document format: ", d.as_str()),
            DocumentError::InvalidSpecificationType(d) => concat2(
                "Invalid specification type: ",
                d.as_str(),
            ),
            DocumentError::MissingField(d) => concat2("Missing required field: ", d.as_str()),
            DocumentError::TemplateNotFound(d) => concat2("Template not found: ", d.as_str()),
            DocumentError::PubSubError(d) => concat2("Pub/Sub error: ", d.as_str()),
            DocumentError::Base64Error(d) => concat2("Base64 encoding error: ", d.as_str()),
            DocumentError::InvalidData(d) => concat2("Invalid data: ", d.as_str()),
            DocumentError::GenerationFailed(d) => concat2("Generation failed: ", d.as_str()),
        }
    }

    /// The machine-readable tag.
    pub fn error_type(&self) -> (tag: String)
        ensures
            tag@ == self.kind(),
    {
        let tag = match self {
            DocumentError::TemplateError(_) => "template_error",
            DocumentError::RenderError(_) => "render_error",
            DocumentError::IoError(_) => "io_error",
            DocumentError::PandocError(_) => "pandoc_error",
            DocumentError::SerializationError(_) => "serialization_error",
            DocumentError::InvalidFormat(_) => "invalid_format",
            DocumentError::InvalidSpecificationType(_) => "invalid_specification_type",
            DocumentError::MissingField(_) => "missing_field",
            DocumentError::TemplateNotFound(_) => "template_not_found",
            DocumentError::PubSubError(_) => "pubsub_error",
            DocumentError::Base64Error(_) => "base64_error",
            DocumentError::InvalidData(_) => "invalid_data",
            DocumentError::GenerationFailed(_) => "generation_failed",
        };
        String::from_str(tag)
    }

    /// The wire form: the message and the tag of the variant.
    pub fn to_error_response(&self) -> (response: ErrorResponse)
        ensures
            response.error@ == self.message(),
            response.error_type@ == self.kind(),
    {
        ErrorResponse { error: self.to_string(), error_type: self.error_type() }
    }
}

} // verus!
