//! The generation pipeline: create record, resolve template, render, upload,
//! persist artifacts, mark complete. The pipeline decides; whoever runs it
//! carries out each action and hands back what came of it.

use vstd::prelude::*;
use vstd::string::*;
use crate::checksum::checksum_text;
use crate::clock::{spec_format_utc, spec_rfc3339_utc, stamp_pattern, Timestamp};
use crate::gcs::{
    upload_failure_message,
    upload_failure_text,
    DocumentStorage,
    PendingUpload,
    RenderedFile,
    UploadRequest,
    UploadResult,
};
use crate::ident::Uuid;
use crate::models::DocumentFormat;
use crate::persistence::{
    lemma_status_write_keeps_consistency,
    opt_metadata_view,
    CreateArtifactInput,
    CreateDocumentInput,
    DocumentArtifact,
    DocumentTemplate,
    GeneratedDocument,
    GeneratedDocumentView,
    GenerationMetadata,
};
use crate::status::JobStatus;
use crate::text::{
    chain_message,
    chained,
    clone_strings,
    concat2,
    is_alphanumeric,
    opt_text,
    push_char,
    spec_is_alphanumeric,
    str_eq,
    texts,
};

verus! {

/// Inbound message payload for document generation requests.
#[derive(Debug, Clone)]
pub struct DocumentGenerationRequest {
    pub tenant_id: Uuid,
    pub project_id: i64,
    pub template_id: Option<i64>,
    pub correlation_id: Option<Uuid>,
    pub title: String,
    pub document_type: String,
    pub requested_formats: Vec<String>,
    pub input_params: serde_json::Value,
    pub requested_by: i64,
}

/// The formats a template can be rendered into.
#[derive(Clone, Copy, Debug, PartialEq, Eq, Structural)]
pub enum RenderTarget {
    Pdf,
    Html,
    Markdown,
}

impl RenderTarget {
    /// The format tag that selects this target.
    pub open spec fn tag(self) -> Seq<char> {
        match self {
            RenderTarget::Pdf => "pdf"@,
            RenderTarget::Html => "html"@,
            RenderTarget::Markdown => "markdown"@,
        }
    }

    /// The target that a format tag selects, if the tag is supported.
    pub open spec fn of_tag(tag: Seq<char>) -> Option<RenderTarget> {
        if tag == "pdf"@ {
            Some(RenderTarget::Pdf)
        } else if tag == "html"@ {
            Some(RenderTarget::Html)
        } else if tag == "markdown"@ {
            Some(RenderTarget::Markdown)
        } else {
            None
        }
    }

    /// The MIME content type of files of this target.
    pub open spec fn content_type_text(self) -> Seq<char> {
        match self {
            RenderTarget::Pdf => "application/pdf"@,
            RenderTarget::Html => "text/html; charset=utf-8"@,
            RenderTarget::Markdown => "text/markdown; charset=utf-8"@,
        }
    }

    /// The file extension of files of this target.
    pub open spec fn extension_text(self) -> Seq<char> {
        match self {
            RenderTarget::Pdf => "pdf"@,
            RenderTarget::Html => "html"@,
            RenderTarget::Markdown => "md"@,
        }
    }

    /// The target that a format tag selects; `None` for an unsupported tag.
    pub fn parse(tag: &str) -> (target: Option<RenderTarget>)
        ensures
            target == RenderTarget::of_tag(tag@),
    {
        if str_eq(tag, "pdf") {
            Some(RenderTarget::Pdf)
        } else if str_eq(tag, "html") {
            Some(RenderTarget::Html)
        } else if str_eq(tag, "markdown") {
            Some(RenderTarget::Markdown)
        } else {
            None
        }
    }

    /// The document format that the target is rendered as.
    pub open spec fn format(self) -> DocumentFormat {
        match self {
            RenderTarget::Pdf => DocumentFormat::PDF,
            RenderTarget::Html => DocumentFormat::HTML,
            RenderTarget::Markdown => DocumentFormat::Markdown,
        }
    }

    /// The document format that the target is rendered as.
    pub fn document_format(&self) -> (format: DocumentFormat)
        ensures
            format == self.format(),
            format.extension_text() == self.extension_text(),
    {
        match self {
            RenderTarget::Pdf => DocumentFormat::PDF,
            RenderTarget::Html => DocumentFormat::HTML,
            RenderTarget::Markdown => DocumentFormat::Markdown,
        }
    }

    pub fn content_type(&self) -> (text: &'static str)
        ensures
            text@ == self.content_type_text(),
    {
        match self {
            RenderTarget::Pdf => "application/pdf",
            RenderTarget::Html => "text/html; charset=utf-8",
            RenderTarget::Markdown => "text/markdown; charset=utf-8",
        }
    }

    pub fn extension(&self) -> (text: &'static str)
        ensures
            text@ == self.extension_text(),
    {
        match self {
            RenderTarget::Pdf => "pdf",
            RenderTarget::Html => "html",
            RenderTarget::Markdown => "md",
        }
    }
}

/// A target is selected by its own tag.
pub proof fn lemma_tag_selects_target(target: RenderTarget)
    ensures
        RenderTarget::of_tag(target.tag()) == Some(target),
{
    reveal_strlit("pdf");
    reveal_strlit("html");
    reveal_strlit("markdown");
    match target {
        RenderTarget::Pdf => {},
        RenderTarget::Html => {
            assert("html"@.len() != "pdf"@.len());
        },
        RenderTarget::Markdown => {
            assert("markdown"@.len() != "pdf"@.len());
            assert("markdown"@.len() != "html"@.len());
        },
    }
}

/// The characters a file name keeps from a title: letters, digits, the hyphen
/// and the underscore.
pub open spec fn is_name_safe(c: char) -> bool {
    spec_is_alphanumeric(c) || c == '-' || c == '_'
}

/// A title with every character that a file name does not keep replaced by an
/// underscore.
pub open spec fn sanitized(title: Seq<char>) -> Seq<char> {
    Seq::new(
        title.len(),
        |i: int|
            if is_name_safe(title[i]) {
                title[i]
            } else {
                '_'
            },
    )
}

/// The name of a rendered file: the sanitized title, the stamp of the time of
/// rendering and the extension.
pub open spec fn file_name_text(title: Seq<char>, stamp: Seq<char>, extension: Seq<char>) -> Seq<
    char,
> {
    sanitized(title) + "_"@ + stamp + "."@ + extension
}

/// Replaces every character of the title that a file name does not keep by an
/// underscore.
pub fn sanitize_title(title: &str) -> (name: String)
    ensures
        name@ == sanitized(title@),
        name@.len() == title@.len(),
        forall|i: int| 0 <= i < name@.len() ==> is_name_safe(#[trigger] name@[i]),
        forall|i: int|
            0 <= i < title@.len() && is_name_safe(#[trigger] title@[i]) ==> name@[i] == title@[i],
        forall|i: int|
            0 <= i < title@.len() && !is_name_safe(#[trigger] title@[i]) ==> name@[i] == '_',
{
    let mut name = String::new();
    let n = title.unicode_len();
    let mut i: usize = 0;
    while i < n
        invariant
            n == title@.len(),
            i <= n,
            name@ == sanitized(title@.subrange(0, i as int)),
        decreases n - i,
    {
        let c = title.get_char(i);
        let kept = if is_alphanumeric(c) || c == '-' || c == '_' {
            c
        } else {
            '_'
        };
        push_char(&mut name, kept);
        assert(name@ =~= sanitized(title@.subrange(0, i + 1)));
        i += 1;
    }
    assert(title@.subrange(0, n as int) =~= title@);
    name
}

/// A sanitized title is as long as the title, made only of characters that a
/// file name keeps, and differs from the title only where the title had
/// another character, which became an underscore. Sanitizing again changes
/// nothing.
pub proof fn lemma_sanitized_is_safe(title: Seq<char>)
    ensures
        sanitized(title).len() == title.len(),
        forall|i: int| 0 <= i < title.len() ==> is_name_safe(#[trigger] sanitized(title)[i]),
        forall|i: int|
            0 <= i < title.len() ==> (#[trigger] sanitized(title)[i]) == (if is_name_safe(
                title[i],
            ) {
                title[i]
            } else {
                '_'
            }),
        sanitized(sanitized(title)) == sanitized(title),
{
    assert(sanitized(sanitized(title)) =~= sanitized(title));
}

/// The name under which a rendering of `title` into a file of the given
/// extension is stored.
pub fn rendered_file_name(title: &str, stamp: &str, extension: &str) -> (name: String)
    ensures
        name@ == file_name_text(title@, stamp@, extension@),
{
    let mut name = sanitize_title(title);
    name.append("_");
    name.append(stamp);
    name.append(".");
    name.append(extension);
    name
}

/// The sum of the recorded sizes of a list of uploads.
pub open spec fn total_size(uploads: Seq<UploadResult>) -> int
    decreases uploads.len(),
{
    if uploads.len() == 0 {
        0
    } else {
        total_size(uploads.drop_last()) + uploads.last().file_size
    }
}

/// The formats of a list of uploads.
pub open spec fn upload_formats(uploads: Seq<UploadResult>) -> Seq<Seq<char>> {
    uploads.map_values(|u: UploadResult| u.format@)
}

/// A size as it is reported: itself, or the nearest bound of what can be
/// recorded.
pub open spec fn reported_size(total: int) -> i64 {
    if total > i64::MAX {
        i64::MAX
    } else if total < i64::MIN {
        i64::MIN
    } else {
        total as i64
    }
}

/// The sum of the recorded sizes stays within `len` times the largest size.
proof fn lemma_total_size_bounds(uploads: Seq<UploadResult>)
    ensures
        -(uploads.len() * 0x8000_0000_0000_0000) <= total_size(uploads) <= uploads.len()
            * 0x8000_0000_0000_0000,
    decreases uploads.len(),
{
    if uploads.len() > 0 {
        lemma_total_size_bounds(uploads.drop_last());
        assert((uploads.len() - 1) * 0x8000_0000_0000_0000 + 0x8000_0000_0000_0000
            == uploads.len() * 0x8000_0000_0000_0000) by (nonlinear_arith);
    }
}

/// The generation metadata of a job whose uploads are `uploads`, completed at
/// `now`.
pub fn generation_metadata(uploads: &Vec<UploadResult>, now: &Timestamp) -> (metadata:
    GenerationMetadata)
    ensures
        metadata.rendering_engine@ == "pandoc-xelatex"@,
        metadata.template_engine@ == "handlebars"@,
        texts(metadata.formats_generated@) == upload_formats(uploads@),
        metadata.total_size_bytes == reported_size(total_size(uploads@)),
        metadata.completed_at@ == spec_rfc3339_utc(now.spec_secs(), now.spec_nanos()),
{
    let mut formats: Vec<String> = Vec::new();
    let mut total: i128 = 0;
    let mut i: usize = 0;
    while i < uploads.len()
        invariant
            i <= uploads@.len(),
            texts(formats@) == upload_formats(uploads@.subrange(0, i as int)),
            total == total_size(uploads@.subrange(0, i as int)),
        decreases uploads@.len() - i,
    {
        proof {
            lemma_total_size_bounds(uploads@.subrange(0, i as int));
            assert(i * 0x8000_0000_0000_0000 <= 0xffff_ffff_ffff_ffff * 0x8000_0000_0000_0000)
                by (nonlinear_arith)
                requires
                    0 <= i <= 0xffff_ffff_ffff_ffff,
            ;
            assert(uploads@.subrange(0, i + 1).drop_last() =~= uploads@.subrange(0, i as int));
        }
        let ghost seen = formats@;
        formats.push(uploads[i].format.clone());
        total = total + (uploads[i].file_size as i128);
        proof {
            assert(texts(formats@) =~= texts(seen).push(uploads@[i as int].format@));
            assert(upload_formats(uploads@.subrange(0, i + 1)) =~= upload_formats(
                uploads@.subrange(0, i as int),
            ).push(uploads@[i as int].format@));
        }
        i += 1;
    }
    assert(uploads@.subrange(0, i as int) =~= uploads@);
    let total_size_bytes: i64 = if total > 0x7fff_ffff_ffff_ffff {
        i64::MAX
    } else if total < -0x8000_0000_0000_0000 {
        i64::MIN
    } else {
        total as i64
    };
    GenerationMetadata {
        rendering_engine: String::from_str("pandoc-xelatex"),
        template_engine: String::from_str("handlebars"),
        formats_generated: formats,
        total_size_bytes,
        completed_at: now.to_rfc3339(),
    }
}

/// Why a pipeline run ended without a final job record.
#[derive(Debug, Clone)]
pub enum PipelineError {
    /// The job record could not be created.
    CreateFailed(String),
    /// A status could not be written.
    StatusUpdateFailed(String),
    /// The template could not be looked up.
    TemplateLookupFailed(String),
    /// The metadata of an uploaded file could not be recorded.
    ArtifactPersistFailed { format: String, cause: String },
    /// An event arrived that does not answer the action that was last asked for.
    UnexpectedEvent,
}

impl PipelineError {
    /// The human-readable message: the context, then the cause.
    pub open spec fn message(self) -> Seq<char> {
        match self {
            PipelineError::CreateFailed(cause) => chained(
                "Failed to create document record"@,
                cause@,
            ),
            PipelineError::StatusUpdateFailed(cause) => cause@,
            PipelineError::TemplateLookupFailed(cause) => cause@,
            PipelineError::ArtifactPersistFailed { format, cause } => chained(
                "Failed to persist artifact metadata for "@ + format@,
                cause@,
            ),
            PipelineError::UnexpectedEvent => "Unexpected pipeline event"@,
        }
    }

    /// The human-readable message.
    pub fn to_string(&self) -> (text: String)
        ensures
            text@ == self.message(),
    {
        match self {
            PipelineError::CreateFailed(cause) => chain_message(
                "Failed to create document record",
                cause.as_str(),
            ),
            PipelineError::StatusUpdateFailed(cause) => cause.clone(),
            PipelineError::TemplateLookupFailed(cause) => cause.clone(),
            PipelineError::ArtifactPersistFailed { format, cause } => {
                let context = concat2("Failed to persist artifact metadata for ", format.as_str());
                chain_message(context.as_str(), cause.as_str())
            },
            PipelineError::UnexpectedEvent => String::from_str("Unexpected pipeline event"),
        }
    }
}

/// Where a run stands: which action it has asked for and awaits the outcome of.
#[derive(Clone, Copy, Debug, PartialEq, Eq, Structural)]
pub enum PipelineStage {
    /// Awaits the creation of the job record.
    Creating,
    /// Awaits the write of `Processing`.
    MarkingProcessing,
    /// Awaits the template.
    ResolvingTemplate,
    /// Awaits the write of `Rendering`.
    MarkingRendering,
    /// Awaits the rendering of the next format.
    Rendering,
    /// Awaits the write of `Uploading`.
    MarkingUploading,
    /// Awaits the upload of the next file.
    Uploading,
    /// Awaits the recording of the next artifact.
    Persisting,
    /// Awaits the write of `Completed`.
    MarkingCompleted,
    /// Awaits the write of `Failed`.
    MarkingFailed,
    /// The run has ended.
    Finished,
}

impl PipelineStage {
    /// The status whose write the stage awaits, if it awaits one.
    pub open spec fn writing(self) -> Option<JobStatus> {
        match self {
            PipelineStage::MarkingProcessing => Some(JobStatus::Processing),
            PipelineStage::MarkingRendering => Some(JobStatus::Rendering),
            PipelineStage::MarkingUploading => Some(JobStatus::Uploading),
            PipelineStage::MarkingCompleted => Some(JobStatus::Completed),
            PipelineStage::MarkingFailed => Some(JobStatus::Failed),
            _ => None,
        }
    }
}

/// What the pipeline asks to be done next.
#[derive(Debug)]
pub enum PipelineAction {
    /// Create the job record, queued.
    CreateDocument(CreateDocumentInput),
    /// Write a status to the job record.
    UpdateStatus {
        tenant_id: Uuid,
        document_id: i64,
        status: JobStatus,
        error_message: Option<String>,
        generation_metadata: Option<GenerationMetadata>,
    },
    /// Look the template up by its id.
    GetTemplate { tenant_id: Uuid, template_id: i64 },
    /// Look up the default template of a document type and format.
    GetTemplateByType { tenant_id: Uuid, template_type: String, format: String },
    /// Render the template against the input into one format.
    Render {
        format: String,
        target: RenderTarget,
        template_content: String,
        input_params: serde_json::Value,
        title: String,
    },
    /// Upload one rendered file.
    Upload(UploadRequest),
    /// Record the metadata of one uploaded file.
    CreateArtifact(CreateArtifactInput),
    /// Nothing more: the run has ended with this result.
    Finish(Result<GeneratedDocument, PipelineError>),
}

/// What came of the action the pipeline last asked for.
#[derive(Debug)]
pub enum PipelineEvent {
    DocumentCreated(Result<GeneratedDocument, String>),
    StatusUpdated(Result<GeneratedDocument, String>),
    TemplateFetched(Result<Option<DocumentTemplate>, String>),
    Rendered { outcome: Result<Vec<u8>, String>, duration_ms: i32 },
    Uploaded(Result<(), String>),
    ArtifactCreated(Result<DocumentArtifact, String>),
}

/// Orchestrates: create record, render, upload, persist artifacts, mark complete.
#[derive(Debug, Clone)]
pub struct DocumentPipeline {
    pub storage: DocumentStorage,
}

/// One run of the pipeline on one request.
#[derive(Debug, Clone)]
pub struct PipelineRun {
    pub request: DocumentGenerationRequest,
    pub storage: DocumentStorage,
    pub stage: PipelineStage,
    /// The id of the job record, once it has been created.
    pub document_id: i64,
    /// The status that was last written to the job record.
    pub status: JobStatus,
    pub template_content: String,
    /// The files rendered so far, in the order of the requested formats.
    pub rendered: Vec<RenderedFile>,
    /// What to record of the upload that is under way.
    pub pending: Option<UploadResult>,
    /// What is recorded of the uploads that succeeded, in the files' order.
    pub uploaded: Vec<UploadResult>,
    /// How many artifacts have been recorded.
    pub persisted: usize,
}

/// The message of a job that failed while rendering.
pub open spec fn rendering_failed_text(cause: Seq<char>) -> Seq<char> {
    "Rendering failed: "@ + cause
}

/// The message of a job that failed while uploading.
pub open spec fn upload_failed_text(cause: Seq<char>) -> Seq<char> {
    "GCS upload failed: "@ + cause
}

/// The cause given for a format tag that selects no target.
pub open spec fn unsupported_format_text(tag: Seq<char>) -> Seq<char> {
    "Unsupported format: "@ + tag
}

/// The message of a job whose template was not found.
pub open spec fn template_missing_text(explicit: bool) -> Seq<char> {
    if explicit {
        "Requested template not found"@
    } else {
        "No default template found for document type"@
    }
}

impl PipelineRun {
    /// The request, the storage and the job's id are those of `pre`.
    pub open spec fn same_job(self, pre: PipelineRun) -> bool {
        &&& self.request == pre.request
        &&& self.storage == pre.storage
        &&& self.document_id == pre.document_id
    }

    /// The template and all that has been rendered, uploaded and recorded are
    /// those of `pre`.
    pub open spec fn same_progress(self, pre: PipelineRun) -> bool {
        &&& self.template_content@ == pre.template_content@
        &&& self.rendered@ == pre.rendered@
        &&& self.pending == pre.pending
        &&& self.uploaded@ == pre.uploaded@
        &&& self.persisted == pre.persisted
    }

    /// The action writes `status` to the job's record, with the given error
    /// message and without generation metadata.
    pub open spec fn writes_status(
        self,
        action: PipelineAction,
        status: JobStatus,
        message: Option<Seq<char>>,
    ) -> bool {
        match action {
            PipelineAction::UpdateStatus {
                tenant_id,
                document_id,
                status: written,
                error_message,
                generation_metadata,
            } => {
                &&& tenant_id == self.request.tenant_id
                &&& document_id == self.document_id
                &&& written == status
                &&& opt_text(error_message) == message
                &&& generation_metadata.is_none()
            },
            _ => false,
        }
    }

    /// The action writes `Completed` to the job's record, with the generation
    /// metadata of the uploads at time `now` and without an error message.
    pub open spec fn writes_completed(self, action: PipelineAction, now: Timestamp) -> bool {
        match action {
            PipelineAction::UpdateStatus {
                tenant_id,
                document_id,
                status: written,
                error_message,
                generation_metadata,
            } => {
                &&& tenant_id == self.request.tenant_id
                &&& document_id == self.document_id
                &&& written == JobStatus::Completed
                &&& error_message.is_none()
                &&& generation_metadata.is_some()
                &&& generation_metadata.unwrap().rendering_engine@ == "pandoc-xelatex"@
                &&& generation_metadata.unwrap().template_engine@ == "handlebars"@
                &&& texts(generation_metadata.unwrap().formats_generated@) == upload_formats(
                    self.uploaded@,
                )
                &&& generation_metadata.unwrap().total_size_bytes == reported_size(
                    total_size(self.uploaded@),
                )
                &&& generation_metadata.unwrap().completed_at@ == spec_rfc3339_utc(
                    now.spec_secs(),
                    now.spec_nanos(),
                )
            },
            _ => false,
        }
    }

    /// The run of `pre` has ended without a final job record: nothing of it has
    /// changed but the stage, and the action hands out an error.
    pub open spec fn ended_with(self, pre: PipelineRun, action: PipelineAction) -> bool {
        &&& self.same_job(pre)
        &&& self.same_progress(pre)
        &&& self.status == pre.status
        &&& self.stage == PipelineStage::Finished
        &&& action matches PipelineAction::Finish(Err(_))
    }

    /// The run of `pre` goes on to write `Failed` with the given message.
    pub open spec fn fails_with(
        self,
        pre: PipelineRun,
        action: PipelineAction,
        message: Seq<char>,
    ) -> bool {
        &&& self.same_job(pre)
        &&& self.status == pre.status
        &&& self.stage == PipelineStage::MarkingFailed
        &&& self.writes_status(action, JobStatus::Failed, Some(message))
    }

    /// What follows once the files rendered so far are there: the write of
    /// `Uploading` if every requested format has been rendered, else the
    /// rendering of the next format, or the write of `Failed` if its tag selects
    /// no target.
    pub open spec fn renders_next(self, pre: PipelineRun, action: PipelineAction) -> bool {
        let done = self.rendered@.len();
        let formats = self.request.requested_formats@;
        &&& self.same_job(pre)
        &&& self.template_content@ == pre.template_content@
        &&& self.pending == pre.pending
        &&& self.uploaded@ == pre.uploaded@
        &&& self.persisted == pre.persisted
        &&& if done >= formats.len() {
            &&& self.stage == PipelineStage::MarkingUploading
            &&& self.writes_status(action, JobStatus::Uploading, None)
        } else {
            match RenderTarget::of_tag(formats[done as int]@) {
                Some(target) => {
                    &&& self.stage == PipelineStage::Rendering
                    &&& action matches PipelineAction::Render {
                        format,
                        target: wanted,
                        template_content,
                        input_params,
                        title,
                    }
                    &&& format@ == formats[done as int]@
                    &&& wanted == target
                    &&& template_content@ == self.template_content@
                    &&& input_params == self.request.input_params
                    &&& title@ == self.request.title@
                },
                None => {
                    &&& self.stage == PipelineStage::MarkingFailed
                    &&& self.writes_status(
                        action,
                        JobStatus::Failed,
                        Some(
                            rendering_failed_text(unsupported_format_text(formats[done as int]@)),
                        ),
                    )
                },
            }
        }
    }

    /// The action records the upload at position `self.persisted` as an
    /// artifact of the job.
    pub open spec fn records_artifact(self, action: PipelineAction) -> bool {
        let upload = self.uploaded@[self.persisted as int];
        &&& action matches PipelineAction::CreateArtifact(input)
        &&& input.tenant_id == self.request.tenant_id
        &&& input.document_id == self.document_id
        &&& input.format@ == upload.format@
        &&& input.file_name@ == upload.file_name@
        &&& input.gcs_path@ == upload.gcs_path@
        &&& input.file_size == upload.file_size
        &&& input.content_type@ == upload.content_type@
        &&& input.sha256_checksum@ == upload.sha256_checksum@
        &&& input.page_count == upload.page_count
        &&& input.rendering_duration_ms == Some(upload.rendering_duration_ms)
    }

    /// What follows once the artifacts recorded so far are there: the write of
    /// `Completed` if every upload has been recorded, else the recording of
    /// the next one.
    pub open spec fn persists_next(
        self,
        pre: PipelineRun,
        action: PipelineAction,
        now: Timestamp,
    ) -> bool {
        &&& self.same_job(pre)
        &&& self.template_content@ == pre.template_content@
        &&& self.rendered@ == pre.rendered@
        &&& self.pending.is_none()
        &&& if self.persisted >= self.uploaded@.len() {
            &&& self.stage == PipelineStage::MarkingCompleted
            &&& self.writes_completed(action, now)
        } else {
            &&& self.stage == PipelineStage::Persisting
            &&& self.records_artifact(action)
        }
    }

    /// What follows once the uploads made so far are there: the upload of the
    /// next rendered file, prepared for its object path with the checksum of
    /// its bytes, or, if every file has been uploaded, what `persists_next`
    /// says.
    pub open spec fn uploads_next(
        self,
        pre: PipelineRun,
        action: PipelineAction,
        now: Timestamp,
    ) -> bool {
        let done = self.uploaded@.len();
        &&& self.persisted == pre.persisted
        &&& if done >= self.rendered@.len() {
            self.persists_next(pre, action, now)
        } else {
            &&& self.same_job(pre)
            &&& self.template_content@ == pre.template_content@
            &&& self.rendered@ == pre.rendered@
            &&& self.stage == PipelineStage::Uploading
            &&& action matches PipelineAction::Upload(request)
            &&& self.pending matches Some(result)
            &&& (PendingUpload { request, result }).prepared_for(
                self.storage.bucket@,
                self.request.tenant_id,
                self.request.project_id,
                self.document_id,
                self.rendered@[done as int],
            )
        }
    }

    /// The file is the rendering of the format at position `index` of the
    /// request: it carries the given bytes and duration, the content type of
    /// the format's target and the name made of the title, the stamp of `now`
    /// and the target's extension.
    pub open spec fn is_rendering_of(
        self,
        file: RenderedFile,
        index: int,
        data: Seq<u8>,
        duration_ms: i32,
        now: Timestamp,
    ) -> bool {
        let tag = self.request.requested_formats@[index]@;
        &&& RenderTarget::of_tag(tag) matches Some(target)
        &&& file.format@ == tag
        &&& file.content_type@ == target.content_type_text()
        &&& file.file_name@ == file_name_text(
            self.request.title@,
            spec_format_utc(now.spec_secs(), now.spec_nanos(), stamp_pattern()),
            target.extension_text(),
        )
        &&& file.data@ == data
        &&& file.rendering_duration_ms == duration_ms
        &&& file.page_count.is_none()
    }

    /// The step that `advance` takes from `pre` on `event` at time `now`, to
    /// the run `self` and the action asked for next.
    pub open spec fn follows(
        self,
        pre: PipelineRun,
        event: PipelineEvent,
        now: Timestamp,
        action: PipelineAction,
    ) -> bool {
        match (pre.stage, event) {
            (PipelineStage::Creating, PipelineEvent::DocumentCreated(Ok(document))) => {
                &&& self.request == pre.request
                &&& self.storage == pre.storage
                &&& self.same_progress(pre)
                &&& self.document_id == document.id
                &&& self.status == JobStatus::Queued
                &&& self.stage == PipelineStage::MarkingProcessing
                &&& self.writes_status(action, JobStatus::Processing, None)
            },
            (PipelineStage::Creating, PipelineEvent::DocumentCreated(Err(cause))) => {
                &&& self.ended_with(pre, action)
                &&& action matches PipelineAction::Finish(Err(PipelineError::CreateFailed(c)))
                &&& c@ == cause@
            },
            (PipelineStage::MarkingProcessing, PipelineEvent::StatusUpdated(Ok(_))) => {
                &&& self.same_job(pre)
                &&& self.same_progress(pre)
                &&& self.status == JobStatus::Processing
                &&& self.stage == PipelineStage::ResolvingTemplate
                &&& match pre.request.template_id {
                    Some(id) => {
                        &&& action matches PipelineAction::GetTemplate { tenant_id, template_id }
                        &&& tenant_id == pre.request.tenant_id
                        &&& template_id == id
                    },
                    None => {
                        &&& action matches PipelineAction::GetTemplateByType {
                            tenant_id,
                            template_type,
                            format,
                        }
                        &&& tenant_id == pre.request.tenant_id
                        &&& template_type@ == pre.request.document_type@
                        &&& format@ == "pdf"@
                    },
                }
            },
            (PipelineStage::ResolvingTemplate, PipelineEvent::TemplateFetched(Ok(Some(template)))) => {
                &&& self.same_job(pre)
                &&& self.template_content@ == template.template_content@
                &&& self.rendered@ == pre.rendered@
                &&& self.pending == pre.pending
                &&& self.uploaded@ == pre.uploaded@
                &&& self.persisted == pre.persisted
                &&& self.status == pre.status
                &&& self.stage == PipelineStage::MarkingRendering
                &&& self.writes_status(action, JobStatus::Rendering, None)
            },
            (PipelineStage::ResolvingTemplate, PipelineEvent::TemplateFetched(Ok(None))) => {
                &&& self.same_progress(pre)
                &&& self.fails_with(
                    pre,
                    action,
                    template_missing_text(pre.request.template_id.is_some()),
                )
            },
            (PipelineStage::ResolvingTemplate, PipelineEvent::TemplateFetched(Err(cause))) => {
                &&& self.ended_with(pre, action)
                &&& action matches PipelineAction::Finish(
                    Err(PipelineError::TemplateLookupFailed(c)),
                )
                &&& c@ == cause@
            },
            (PipelineStage::MarkingRendering, PipelineEvent::StatusUpdated(Ok(_))) => {
                &&& self.rendered@ == pre.rendered@
                &&& self.status == JobStatus::Rendering
                &&& self.renders_next(pre, action)
            },
            (PipelineStage::Rendering, PipelineEvent::Rendered { outcome: Ok(data), duration_ms }) => {
                if pre.rendered@.len() < pre.request.requested_formats@.len() && RenderTarget::of_tag(
                    pre.request.requested_formats@[pre.rendered@.len() as int]@,
                ).is_some() {
                    &&& self.rendered@.len() == pre.rendered@.len() + 1
                    &&& self.rendered@.drop_last() == pre.rendered@
                    &&& pre.is_rendering_of(
                        self.rendered@.last(),
                        pre.rendered@.len() as int,
                        data@,
                        duration_ms,
                        now,
                    )
                    &&& self.status == pre.status
                    &&& self.renders_next(pre, action)
                } else {
                    &&& self.ended_with(pre, action)
                    &&& action matches PipelineAction::Finish(Err(PipelineError::UnexpectedEvent))
                }
            },
            (PipelineStage::Rendering, PipelineEvent::Rendered { outcome: Err(cause), duration_ms }) => {
                &&& self.same_progress(pre)
                &&& self.fails_with(pre, action, rendering_failed_text(cause@))
            },
            (PipelineStage::MarkingUploading, PipelineEvent::StatusUpdated(Ok(_))) => {
                &&& self.uploaded@ == pre.uploaded@
                &&& self.status == JobStatus::Uploading
                &&& self.uploads_next(pre, action, now)
            },
            (PipelineStage::Uploading, PipelineEvent::Uploaded(Ok(_))) => {
                match pre.pending {
                    Some(result) => {
                        &&& self.uploaded@ == pre.uploaded@.push(result)
                        &&& self.status == pre.status
                        &&& self.uploads_next(pre, action, now)
                    },
                    None => {
                        &&& self.ended_with(pre, action)
                        &&& action matches PipelineAction::Finish(
                            Err(PipelineError::UnexpectedEvent),
                        )
                    },
                }
            },
            (PipelineStage::Uploading, PipelineEvent::Uploaded(Err(cause))) => {
                match pre.pending {
                    Some(result) => {
                        &&& self.template_content@ == pre.template_content@
                        &&& self.rendered@ == pre.rendered@
                        &&& self.pending.is_none()
                        &&& self.uploaded@ == pre.uploaded@
                        &&& self.persisted == pre.persisted
                        &&& self.fails_with(
                            pre,
                            action,
                            upload_failed_text(
                                upload_failure_text(result.file_name@, result.gcs_path@, cause@),
                            ),
                        )
                    },
                    None => {
                        &&& self.ended_with(pre, action)
                        &&& action matches PipelineAction::Finish(
                            Err(PipelineError::UnexpectedEvent),
                        )
                    },
                }
            },
            (PipelineStage::Persisting, PipelineEvent::ArtifactCreated(Ok(_))) => {
                if pre.persisted < pre.uploaded@.len() {
                    &&& self.persisted == pre.persisted + 1
                    &&& self.uploaded@ == pre.uploaded@
                    &&& self.status == pre.status
                    &&& self.persists_next(pre, action, now)
                } else {
                    &&& self.ended_with(pre, action)
                    &&& action matches PipelineAction::Finish(Err(PipelineError::UnexpectedEvent))
                }
            },
            (PipelineStage::Persisting, PipelineEvent::ArtifactCreated(Err(cause))) => {
                if pre.persisted < pre.uploaded@.len() {
                    &&& self.ended_with(pre, action)
                    &&& action matches PipelineAction::Finish(
                        Err(PipelineError::ArtifactPersistFailed { format, cause: c }),
                    )
                    &&& format@ == pre.uploaded@[pre.persisted as int].format@
                    &&& c@ == cause@
                } else {
                    &&& self.ended_with(pre, action)
                    &&& action matches PipelineAction::Finish(Err(PipelineError::UnexpectedEvent))
                }
            },
            (PipelineStage::MarkingCompleted, PipelineEvent::StatusUpdated(Ok(document))) => {
                &&& self.same_job(pre)
                &&& self.same_progress(pre)
                &&& self.status == JobStatus::Completed
                &&& self.stage == PipelineStage::Finished
                &&& action == PipelineAction::Finish(Ok(document))
            },
            (PipelineStage::MarkingFailed, PipelineEvent::StatusUpdated(Ok(document))) => {
                &&& self.same_job(pre)
                &&& self.same_progress(pre)
                &&& self.status == JobStatus::Failed
                &&& self.stage == PipelineStage::Finished
                &&& action == PipelineAction::Finish(Ok(document))
            },
            (stage, PipelineEvent::StatusUpdated(Err(cause))) => {
                if stage.writing().is_some() {
                    &&& self.ended_with(pre, action)
                    &&& action matches PipelineAction::Finish(
                        Err(PipelineError::StatusUpdateFailed(c)),
                    )
                    &&& c@ == cause@
                } else {
                    &&& self.ended_with(pre, action)
                    &&& action matches PipelineAction::Finish(Err(PipelineError::UnexpectedEvent))
                }
            },
            _ => {
                &&& self.ended_with(pre, action)
                &&& action matches PipelineAction::Finish(Err(PipelineError::UnexpectedEvent))
            },
        }
    }
}

impl DocumentPipeline {
    pub fn new(storage: DocumentStorage) -> (pipeline: DocumentPipeline)
        ensures
            pipeline.storage == storage,
    {
        DocumentPipeline { storage }
    }

    /// Main entry point: begins the run of a request. The run awaits the
    /// creation of the job record, which the action asks for with the
    /// request's own values.
    pub fn process(&self, req: DocumentGenerationRequest) -> (out: (PipelineRun, PipelineAction))
        ensures
            out.0.request == req,
            out.0.storage.bucket@ == self.storage.bucket@,
            out.0.stage == PipelineStage::Creating,
            out.0.status == JobStatus::Queued,
            out.0.rendered@.len() == 0,
            out.0.uploaded@.len() == 0,
            out.0.pending.is_none(),
            out.0.persisted == 0,
            out.0.consistent(),
            out.1 matches PipelineAction::CreateDocument(input),
            ({
                let input = out.1->CreateDocument_0;
                &&& input.tenant_id == req.tenant_id
                &&& input.project_id == req.project_id
                &&& input.template_id == req.template_id
                &&& input.correlation_id == req.correlation_id
                &&& input.title@ == req.title@
                &&& input.document_type@ == req.document_type@
                &&& texts(input.requested_formats@) == texts(req.requested_formats@)
                &&& input.input_params == req.input_params
                &&& input.requested_by == req.requested_by
            }),
    {
        let input = CreateDocumentInput {
            tenant_id: req.tenant_id,
            project_id: req.project_id,
            template_id: req.template_id,
            correlation_id: req.correlation_id,
            title: req.title.clone(),
            document_type: req.document_type.clone(),
            requested_formats: clone_strings(&req.requested_formats),
            input_params: req.input_params.clone(),
            requested_by: req.requested_by,
        };
        let run = PipelineRun {
            request: req,
            storage: DocumentStorage { bucket: self.storage.bucket.clone() },
            stage: PipelineStage::Creating,
            document_id: 0,
            status: JobStatus::Queued,
            template_content: String::new(),
            rendered: Vec::new(),
            pending: None,
            uploaded: Vec::new(),
            persisted: 0,
        };
        (run, PipelineAction::CreateDocument(input))
    }
}

impl PipelineRun {
    /// What holds of every run that began with `process` and went on by
    /// `advance`: the status last written fits the stage, nothing is uploaded
    /// before everything is rendered, nothing is recorded before everything is
    /// uploaded, and a run that writes `Failed` has recorded no artifact.
    pub open spec fn consistent(self) -> bool {
        let formats = self.request.requested_formats@.len();
        let rendered = self.rendered@.len();
        let uploaded = self.uploaded@.len();
        &&& rendered <= formats
        &&& uploaded <= rendered
        &&& self.persisted <= uploaded
        &&& uploaded > 0 ==> rendered == formats
        &&& self.persisted > 0 ==> uploaded == rendered
        &&& match self.stage {
            PipelineStage::Creating => self.status == JobStatus::Queued && rendered == 0,
            PipelineStage::MarkingProcessing => self.status == JobStatus::Queued && rendered == 0,
            PipelineStage::ResolvingTemplate => self.status == JobStatus::Processing && rendered
                == 0,
            PipelineStage::MarkingRendering => self.status == JobStatus::Processing && rendered
                == 0,
            PipelineStage::Rendering => self.status == JobStatus::Rendering && rendered < formats
                && uploaded == 0,
            PipelineStage::MarkingUploading => self.status == JobStatus::Rendering && rendered
                == formats && uploaded == 0,
            PipelineStage::Uploading => self.status == JobStatus::Uploading && rendered == formats
                && uploaded < rendered && self.pending.is_some() && self.persisted == 0,
            PipelineStage::Persisting => self.status == JobStatus::Uploading && uploaded
                == rendered && rendered == formats && self.persisted < uploaded,
            PipelineStage::MarkingCompleted => self.status == JobStatus::Uploading && uploaded
                == rendered && rendered == formats && self.persisted == uploaded,
            PipelineStage::MarkingFailed => (self.status == JobStatus::Processing || self.status
                == JobStatus::Rendering || self.status == JobStatus::Uploading) && self.persisted
                == 0,
            PipelineStage::Finished => self.status == JobStatus::Failed ==> self.persisted == 0,
        }
    }

    fn end(self, error: PipelineError) -> (out: (PipelineRun, PipelineAction))
        ensures
            out.0.ended_with(self, out.1),
            out.1 == PipelineAction::Finish(Err(error)),
    {
        let mut run = self;
        run.stage = PipelineStage::Finished;
        (run, PipelineAction::Finish(Err(error)))
    }

    fn status_write(&self, status: JobStatus, error_message: Option<String>) -> (action:
        PipelineAction)
        ensures
            self.writes_status(action, status, opt_text(error_message)),
    {
        PipelineAction::UpdateStatus {
            tenant_id: self.request.tenant_id,
            document_id: self.document_id,
            status,
            error_message,
            generation_metadata: None,
        }
    }

    fn fail(self, message: String) -> (out: (PipelineRun, PipelineAction))
        ensures
            out.0.fails_with(self, out.1, message@),
            out.0.same_progress(self),
    {
        let mut run = self;
        run.stage = PipelineStage::MarkingFailed;
        let action = run.status_write(JobStatus::Failed, Some(message));
        (run, action)
    }

    fn render_next(self) -> (out: (PipelineRun, PipelineAction))
        ensures
            out.0.rendered@ == self.rendered@,
            out.0.status == self.status,
            out.0.renders_next(self, out.1),
    {
        let mut run = self;
        let done = run.rendered.len();
        if done >= run.request.requested_formats.len() {
            run.stage = PipelineStage::MarkingUploading;
            let action = run.status_write(JobStatus::Uploading, None);
            (run, action)
        } else {
            let format = run.request.requested_formats[done].clone();
            match RenderTarget::parse(format.as_str()) {
                Some(target) => {
                    run.stage = PipelineStage::Rendering;
                    let action = PipelineAction::Render {
                        format,
                        target,
                        template_content: run.template_content.clone(),
                        input_params: run.request.input_params.clone(),
                        title: run.request.title.clone(),
                    };
                    (run, action)
                },
                None => {
                    let cause = concat2("Unsupported format: ", format.as_str());
                    let message = concat2("Rendering failed: ", cause.as_str());
                    run.fail(message)
                },
            }
        }
    }

    fn persist_next(self, now: Timestamp) -> (out: (PipelineRun, PipelineAction))
        ensures
            out.0.persisted == self.persisted,
            out.0.uploaded@ == self.uploaded@,
            out.0.status == self.status,
            out.0.persists_next(self, out.1, now),
    {
        let mut run = self;
        run.pending = None;
        if run.persisted >= run.uploaded.len() {
            run.stage = PipelineStage::MarkingCompleted;
            let metadata = generation_metadata(&run.uploaded, &now);
            let action = PipelineAction::UpdateStatus {
                tenant_id: run.request.tenant_id,
                document_id: run.document_id,
                status: JobStatus::Completed,
                error_message: None,
                generation_metadata: Some(metadata),
            };
            (run, action)
        } else {
            run.stage = PipelineStage::Persisting;
            let upload = &run.uploaded[run.persisted];
            let action = PipelineAction::CreateArtifact(
                CreateArtifactInput {
                    tenant_id: run.request.tenant_id,
                    document_id: run.document_id,
                    format: upload.format.clone(),
                    file_name: upload.file_name.clone(),
                    gcs_path: upload.gcs_path.clone(),
                    file_size: upload.file_size,
                    content_type: upload.content_type.clone(),
                    sha256_checksum: upload.sha256_checksum.clone(),
                    page_count: upload.page_count,
                    rendering_duration_ms: Some(upload.rendering_duration_ms),
                },
            );
            (run, action)
        }
    }

    fn upload_next(self, now: Timestamp) -> (out: (PipelineRun, PipelineAction))
        ensures
            out.0.uploaded@ == self.uploaded@,
            out.0.status == self.status,
            out.0.uploads_next(self, out.1, now),
    {
        let done = self.uploaded.len();
        if done >= self.rendered.len() {
            self.persist_next(now)
        } else {
            let mut run = self;
            let prepared = run.storage.upload_artifact(
                run.request.tenant_id,
                run.request.project_id,
                run.document_id,
                &run.rendered[done],
            );
            run.stage = PipelineStage::Uploading;
            run.pending = Some(prepared.result);
            (run, PipelineAction::Upload(prepared.request))
        }
    }

    /// Takes the next step of the run: given what came of the action that was
    /// last asked for, and the current time, decides what to ask for next.
    pub fn advance(self, event: PipelineEvent, now: Timestamp) -> (out: (
        PipelineRun,
        PipelineAction,
    ))
        ensures
            out.0.follows(self, event, now, out.1),
    {
        match self.stage {
            PipelineStage::Creating => match event {
                PipelineEvent::DocumentCreated(Ok(document)) => {
                    let mut run = self;
                    run.document_id = document.id;
                    run.status = JobStatus::Queued;
                    run.stage = PipelineStage::MarkingProcessing;
                    let action = run.status_write(JobStatus::Processing, None);
                    (run, action)
                },
                PipelineEvent::DocumentCreated(Err(cause)) => self.end(
                    PipelineError::CreateFailed(cause),
                ),
                _ => self.end(PipelineError::UnexpectedEvent),
            },
            PipelineStage::MarkingProcessing => match event {
                PipelineEvent::StatusUpdated(Ok(_)) => {
                    let mut run = self;
                    run.status = JobStatus::Processing;
                    run.stage = PipelineStage::ResolvingTemplate;
                    let action = match run.request.template_id {
                        Some(template_id) => PipelineAction::GetTemplate {
                            tenant_id: run.request.tenant_id,
                            template_id,
                        },
                        None => PipelineAction::GetTemplateByType {
                            tenant_id: run.request.tenant_id,
                            template_type: run.request.document_type.clone(),
                            format: String::from_str("pdf"),
                        },
                    };
                    (run, action)
                },
                PipelineEvent::StatusUpdated(Err(cause)) => self.end(
                    PipelineError::StatusUpdateFailed(cause),
                ),
                _ => self.end(PipelineError::UnexpectedEvent),
            },
            PipelineStage::ResolvingTemplate => match event {
                PipelineEvent::TemplateFetched(Ok(Some(template))) => {
                    let mut run = self;
                    run.template_content = template.template_content;
                    run.stage = PipelineStage::MarkingRendering;
                    let action = run.status_write(JobStatus::Rendering, None);
                    (run, action)
                },
                PipelineEvent::TemplateFetched(Ok(None)) => {
                    let message = if self.request.template_id.is_some() {
                        String::from_str("Requested template not found")
                    } else {
                        String::from_str("No default template found for document type")
                    };
                    self.fail(message)
                },
                PipelineEvent::TemplateFetched(Err(cause)) => self.end(
                    PipelineError::TemplateLookupFailed(cause),
                ),
                _ => self.end(PipelineError::UnexpectedEvent),
            },
            PipelineStage::MarkingRendering => match event {
                PipelineEvent::StatusUpdated(Ok(_)) => {
                    let mut run = self;
                    run.status = JobStatus::Rendering;
                    run.render_next()
                },
                PipelineEvent::StatusUpdated(Err(cause)) => self.end(
                    PipelineError::StatusUpdateFailed(cause),
                ),
                _ => self.end(PipelineError::UnexpectedEvent),
            },
            PipelineStage::Rendering => match event {
                PipelineEvent::Rendered { outcome: Ok(data), duration_ms } => {
                    let index = self.rendered.len();
                    if index >= self.request.requested_formats.len() {
                        return self.end(PipelineError::UnexpectedEvent);
                    }
                    match RenderTarget::parse(self.request.requested_formats[index].as_str()) {
                        Some(target) => {
                            let stamp = now.file_stamp();
                            let file = RenderedFile {
                                format: self.request.requested_formats[index].clone(),
                                content_type: String::from_str(target.content_type()),
                                file_name: rendered_file_name(
                                    self.request.title.as_str(),
                                    stamp.as_str(),
                                    target.extension(),
                                ),
                                data,
                                rendering_duration_ms: duration_ms,
                                page_count: None,
                            };
                            let mut run = self;
                            run.rendered.push(file);
                            assert(run.rendered@.drop_last() =~= self.rendered@);
                            let out = run.render_next();
                            out
                        },
                        None => self.end(PipelineError::UnexpectedEvent),
                    }
                },
                PipelineEvent::Rendered { outcome: Err(cause), duration_ms } => {
                    let message = concat2("Rendering failed: ", cause.as_str());
                    self.fail(message)
                },
                _ => self.end(PipelineError::UnexpectedEvent),
            },
            PipelineStage::MarkingUploading => match event {
                PipelineEvent::StatusUpdated(Ok(_)) => {
                    let mut run = self;
                    run.status = JobStatus::Uploading;
                    run.upload_next(now)
                },
                PipelineEvent::StatusUpdated(Err(cause)) => self.end(
                    PipelineError::StatusUpdateFailed(cause),
                ),
                _ => self.end(PipelineError::UnexpectedEvent),
            },
            PipelineStage::Uploading => match event {
                PipelineEvent::Uploaded(Ok(_)) => {
                    let mut run = self;
                    match run.pending.take() {
                        Some(result) => {
                            run.uploaded.push(result);
                            run.upload_next(now)
                        },
                        None => run.end(PipelineError::UnexpectedEvent),
                    }
                },
                PipelineEvent::Uploaded(Err(cause)) => {
                    let mut run = self;
                    match run.pending.take() {
                        Some(result) => {
                            let failure = upload_failure_message(
                                result.file_name.as_str(),
                                result.gcs_path.as_str(),
                                cause.as_str(),
                            );
                            let message = concat2("GCS upload failed: ", failure.as_str());
                            run.fail(message)
                        },
                        None => run.end(PipelineError::UnexpectedEvent),
                    }
                },
                _ => self.end(PipelineError::UnexpectedEvent),
            },
            PipelineStage::Persisting => match event {
                PipelineEvent::ArtifactCreated(Ok(_)) => {
                    if self.persisted < self.uploaded.len() {
                        let mut run = self;
                        run.persisted = run.persisted + 1;
                        run.persist_next(now)
                    } else {
                        self.end(PipelineError::UnexpectedEvent)
                    }
                },
                PipelineEvent::ArtifactCreated(Err(cause)) => {
                    if self.persisted < self.uploaded.len() {
                        let format = self.uploaded[self.persisted].format.clone();
                        self.end(PipelineError::ArtifactPersistFailed { format, cause })
                    } else {
                        self.end(PipelineError::UnexpectedEvent)
                    }
                },
                _ => self.end(PipelineError::UnexpectedEvent),
            },
            PipelineStage::MarkingCompleted => match event {
                PipelineEvent::StatusUpdated(Ok(document)) => {
                    let mut run = self;
                    run.status = JobStatus::Completed;
                    run.stage = PipelineStage::Finished;
                    (run, PipelineAction::Finish(Ok(document)))
                },
                PipelineEvent::StatusUpdated(Err(cause)) => self.end(
                    PipelineError::StatusUpdateFailed(cause),
                ),
                _ => self.end(PipelineError::UnexpectedEvent),
            },
            PipelineStage::MarkingFailed => match event {
                PipelineEvent::StatusUpdated(Ok(document)) => {
                    let mut run = self;
                    run.status = JobStatus::Failed;
                    run.stage = PipelineStage::Finished;
                    (run, PipelineAction::Finish(Ok(document)))
                },
                PipelineEvent::StatusUpdated(Err(cause)) => self.end(
                    PipelineError::StatusUpdateFailed(cause),
                ),
                _ => self.end(PipelineError::UnexpectedEvent),
            },
            PipelineStage::Finished => self.end(PipelineError::UnexpectedEvent),
        }
    }
}

/// Whether the inbound message of a run that ended may be acknowledged. A
/// job that completed and a job that failed are both handled outcomes and
/// are acknowledged; a run that ended without a final job record is not, so
/// that the broker delivers the message again.
pub open spec fn is_handled(result: Result<GeneratedDocument, PipelineError>) -> bool {
    result.is_ok()
}

/// Decides whether the inbound message of a run that ended is acknowledged.
pub fn acknowledges(result: &Result<GeneratedDocument, PipelineError>) -> (yes: bool)
    ensures
        yes == is_handled(*result),
{
    match result {
        Ok(_) => true,
        Err(_) => false,
    }
}

/// A step keeps a run consistent.
pub proof fn lemma_step_keeps_consistency(
    pre: PipelineRun,
    event: PipelineEvent,
    now: Timestamp,
    post: PipelineRun,
    action: PipelineAction,
)
    requires
        pre.consistent(),
        post.follows(pre, event, now, action),
    ensures
        post.consistent(),
{
}

/// Status writes follow the lifecycle. Every status that a step asks to write
/// is a move that the job may make from the status last written, and comes
/// with an error message exactly when it is `Failed`. The status last written
/// changes only when a write is acknowledged, and then to the status whose
/// write was awaited. A run that has ended stays ended and asks for no write.
pub proof fn lemma_status_writes_follow_lifecycle(
    pre: PipelineRun,
    event: PipelineEvent,
    now: Timestamp,
    post: PipelineRun,
    action: PipelineAction,
)
    requires
        pre.consistent(),
        post.follows(pre, event, now, action),
    ensures
        action matches PipelineAction::UpdateStatus { status, error_message, .. } ==> {
            &&& post.status.can_transition_to(status)
            &&& post.stage.writing() == Some(status)
            &&& error_message.is_some() <==> status == JobStatus::Failed
        },
        !(action is UpdateStatus) ==> post.stage.writing().is_none(),
        post.status != pre.status ==> {
            &&& pre.stage.writing() == Some(post.status)
            &&& event matches PipelineEvent::StatusUpdated(Ok(_))
            &&& pre.status.can_transition_to(post.status)
        },
        pre.stage == PipelineStage::Finished ==> post.stage == PipelineStage::Finished && (
        action matches PipelineAction::Finish(Err(_))),
        action is Finish <==> post.stage == PipelineStage::Finished,
{
}

/// All or nothing. A step asks to record an artifact only when every requested
/// format has been rendered and every rendered file uploaded; a run that asks
/// to write `Failed`, or that has ended with a failed job, has recorded no
/// artifact; and a run that asks to write `Completed` has recorded one
/// artifact for every requested format.
pub proof fn lemma_artifacts_all_or_nothing(
    pre: PipelineRun,
    event: PipelineEvent,
    now: Timestamp,
    post: PipelineRun,
    action: PipelineAction,
)
    requires
        pre.consistent(),
        post.follows(pre, event, now, action),
    ensures
        action is CreateArtifact ==> {
            &&& post.rendered@.len() == post.request.requested_formats@.len()
            &&& post.uploaded@.len() == post.rendered@.len()
            &&& post.persisted < post.uploaded@.len()
            &&& post.records_artifact(action)
        },
        post.stage == PipelineStage::MarkingFailed ==> post.persisted == 0,
        post.status == JobStatus::Failed ==> post.persisted == 0,
        post.stage == PipelineStage::MarkingCompleted ==> post.persisted
            == post.request.requested_formats@.len() && post.writes_completed(action, now),
        post.persisted == pre.persisted || (post.persisted == pre.persisted + 1 && (
        event matches PipelineEvent::ArtifactCreated(Ok(_)))),
{
    lemma_step_keeps_consistency(pre, event, now, post, action);
}

/// The checksum that is recorded of an upload is the checksum of the exact
/// bytes that the upload request carries, and those are the bytes of the
/// rendered file.
pub proof fn lemma_upload_carries_checksum_of_bytes(
    pre: PipelineRun,
    event: PipelineEvent,
    now: Timestamp,
    post: PipelineRun,
    action: PipelineAction,
)
    requires
        pre.consistent(),
        post.follows(pre, event, now, action),
    ensures
        action matches PipelineAction::Upload(request) ==> {
            &&& post.pending.is_some()
            &&& post.uploaded@.len() < post.rendered@.len()
            &&& request.data@ == post.rendered@[post.uploaded@.len() as int].data@
            &&& post.pending.unwrap().sha256_checksum@ == checksum_text(request.data@)
            &&& post.pending.unwrap().gcs_path@ == request.object_name@
        },
{
}

/// The job record stays consistent under the pipeline's writes. If the record
/// is consistent and holds the status that the run last wrote, then the
/// record after the write that a step asks for is consistent again: it has a
/// start time exactly if work has begun, a completion time exactly if it has
/// ended and an error message exactly if it failed.
pub proof fn lemma_pipeline_writes_keep_record_consistent(
    pre: PipelineRun,
    event: PipelineEvent,
    now: Timestamp,
    post: PipelineRun,
    action: PipelineAction,
    record: GeneratedDocumentView,
    written_at: Timestamp,
)
    requires
        pre.consistent(),
        post.follows(pre, event, now, action),
        record.lifecycle_consistent(),
        record.status == post.status,
    ensures
        action matches PipelineAction::UpdateStatus {
            status,
            error_message,
            generation_metadata,
            ..
        } ==> {
            let written = record.with_status(
                status,
                opt_text(error_message),
                opt_metadata_view(generation_metadata),
                written_at,
            );
            &&& written.lifecycle_consistent()
            &&& written.status == status
            &&& record.status.can_transition_to(written.status)
        },
{
    lemma_status_writes_follow_lifecycle(pre, event, now, post, action);
    match action {
        PipelineAction::UpdateStatus { status, error_message, generation_metadata, .. } => {
            lemma_status_write_keeps_consistency(
                record,
                status,
                opt_text(error_message),
                opt_metadata_view(generation_metadata),
                written_at,
            );
        },
        _ => {},
    }
}

} // verus!
