//! The document record store: generation jobs, their artifacts and the
//! templates they are rendered from, partitioned by tenant.

use vstd::prelude::*;
use crate::clock::Timestamp;
use crate::ident::Uuid;
use crate::status::JobStatus;
use vstd::seq_lib::{to_multiset_build, to_multiset_insert};
use crate::text::{
    clone_opt_string,
    clone_strings,
    lemma_text_le_total,
    lemma_text_le_transitive,
    opt_str_matches,
    opt_text,
    str_eq,
    text_le,
    text_not_after,
    texts,
};

verus! {

// ============================================================
// Models
// ============================================================
/// What is known of a finished generation: the engines used, the formats
/// produced, their total size and when the job completed.
#[derive(Debug, Clone)]
pub struct GenerationMetadata {
    pub rendering_engine: String,
    pub template_engine: String,
    pub formats_generated: Vec<String>,
    pub total_size_bytes: i64,
    pub completed_at: String,
}

pub struct GenerationMetadataView {
    pub rendering_engine: Seq<char>,
    pub template_engine: Seq<char>,
    pub formats_generated: Seq<Seq<char>>,
    pub total_size_bytes: i64,
    pub completed_at: Seq<char>,
}

impl View for GenerationMetadata {
    type V = GenerationMetadataView;

    open spec fn view(&self) -> GenerationMetadataView {
        GenerationMetadataView {
            rendering_engine: self.rendering_engine@,
            template_engine: self.template_engine@,
            formats_generated: texts(self.formats_generated@),
            total_size_bytes: self.total_size_bytes,
            completed_at: self.completed_at@,
        }
    }
}

/// The view of optional generation metadata.
pub open spec fn opt_metadata_view(item: Option<GenerationMetadata>) -> Option<
    GenerationMetadataView,
> {
    match item {
        Some(m) => Some(m@),
        None => None,
    }
}

impl GenerationMetadata {
    /// A copy with the same contents.
    pub fn duplicate(&self) -> (copy: GenerationMetadata)
        ensures
            copy@ == self@,
    {
        GenerationMetadata {
            rendering_engine: self.rendering_engine.clone(),
            template_engine: self.template_engine.clone(),
            formats_generated: clone_strings(&self.formats_generated),
            total_size_bytes: self.total_size_bytes,
            completed_at: self.completed_at.clone(),
        }
    }
}

/// One requested document and how far its generation has come.
#[derive(Debug, Clone)]
pub struct GeneratedDocument {
    pub id: i64,
    pub tenant_id: Uuid,
    pub project_id: i64,
    pub template_id: Option<i64>,
    pub correlation_id: Option<Uuid>,
    pub title: String,
    pub document_type: String,
    pub status: JobStatus,
    pub requested_formats: Vec<String>,
    pub input_params: serde_json::Value,
    pub generation_metadata: Option<GenerationMetadata>,
    pub error_message: Option<String>,
    pub requested_by: i64,
    pub started_at: Option<Timestamp>,
    pub completed_at: Option<Timestamp>,
    pub created_at: Timestamp,
    pub updated_at: Timestamp,
}

pub struct GeneratedDocumentView {
    pub id: i64,
    pub tenant_id: Uuid,
    pub project_id: i64,
    pub template_id: Option<i64>,
    pub correlation_id: Option<Uuid>,
    pub title: Seq<char>,
    pub document_type: Seq<char>,
    pub status: JobStatus,
    pub requested_formats: Seq<Seq<char>>,
    pub input_params: serde_json::Value,
    pub generation_metadata: Option<GenerationMetadataView>,
    pub error_message: Option<Seq<char>>,
    pub requested_by: i64,
    pub started_at: Option<Timestamp>,
    pub completed_at: Option<Timestamp>,
    pub created_at: Timestamp,
    pub updated_at: Timestamp,
}

impl View for GeneratedDocument {
    type V = GeneratedDocumentView;

    open spec fn view(&self) -> GeneratedDocumentView {
        GeneratedDocumentView {
            id: self.id,
            tenant_id: self.tenant_id,
            project_id: self.project_id,
            template_id: self.template_id,
            correlation_id: self.correlation_id,
            title: self.title@,
            document_type: self.document_type@,
            status: self.status,
            requested_formats: texts(self.requested_formats@),
            input_params: self.input_params,
            generation_metadata: opt_metadata_view(self.generation_metadata),
            error_message: opt_text(self.error_message),
            requested_by: self.requested_by,
            started_at: self.started_at,
            completed_at: self.completed_at,
            created_at: self.created_at,
            updated_at: self.updated_at,
        }
    }
}

impl GeneratedDocumentView {
    /// The timestamps and the error message agree with the status: the job has
    /// a start time exactly when work on it has begun, a completion time
    /// exactly when it has ended, and an error message exactly when it failed.
    pub open spec fn lifecycle_consistent(self) -> bool {
        &&& self.started_at.is_some() <==> self.status.has_started()
        &&& self.completed_at.is_some() <==> self.status.is_terminal()
        &&& self.error_message.is_some() <==> self.status == JobStatus::Failed
    }

    /// The record after a status write at time `now`. The start time is
    /// overwritten only by the move to `Processing`, the completion time only
    /// by a move to a terminal status; the error message and the generation
    /// metadata are overwritten only by a value that is supplied.
    pub open spec fn with_status(
        self,
        status: JobStatus,
        error_message: Option<Seq<char>>,
        generation_metadata: Option<GenerationMetadataView>,
        now: Timestamp,
    ) -> GeneratedDocumentView {
        GeneratedDocumentView {
            status,
            error_message: if error_message.is_some() {
                error_message
            } else {
                self.error_message
            },
            generation_metadata: if generation_metadata.is_some() {
                generation_metadata
            } else {
                self.generation_metadata
            },
            started_at: if status == JobStatus::Processing {
                Some(now)
            } else {
                self.started_at
            },
            completed_at: if status.is_terminal() {
                Some(now)
            } else {
                self.completed_at
            },
            ..self
        }
    }
}

impl GeneratedDocument {
    /// A copy with the same contents.
    pub fn duplicate(&self) -> (copy: GeneratedDocument)
        ensures
            copy@ == self@,
    {
        GeneratedDocument {
            id: self.id,
            tenant_id: self.tenant_id,
            project_id: self.project_id,
            template_id: self.template_id,
            correlation_id: self.correlation_id,
            title: self.title.clone(),
            document_type: self.document_type.clone(),
            status: self.status,
            requested_formats: clone_strings(&self.requested_formats),
            input_params: self.input_params.clone(),
            generation_metadata: match &self.generation_metadata {
                Some(m) => Some(m.duplicate()),
                None => None,
            },
            error_message: clone_opt_string(&self.error_message),
            requested_by: self.requested_by,
            started_at: self.started_at,
            completed_at: self.completed_at,
            created_at: self.created_at,
            updated_at: self.updated_at,
        }
    }

    /// Applies a status write at time `now` to the record.
    pub fn apply_status(
        &mut self,
        status: JobStatus,
        error_message: Option<String>,
        generation_metadata: Option<GenerationMetadata>,
        now: Timestamp,
    )
        ensures
            final(self)@ == old(self)@.with_status(
                status,
                opt_text(error_message),
                opt_metadata_view(generation_metadata),
                now,
            ),
    {
        self.status = status;
        if error_message.is_some() {
            self.error_message = error_message;
        }
        if generation_metadata.is_some() {
            self.generation_metadata = generation_metadata;
        }
        match status {
            JobStatus::Processing => {
                self.started_at = Some(now);
            },
            JobStatus::Completed => {
                self.completed_at = Some(now);
            },
            JobStatus::Failed => {
                self.completed_at = Some(now);
            },
            _ => {},
        }
    }
}

/// The start and completion times that a write of `status` at time `now`
/// sets: a start time only for the move to `Processing`, a completion time
/// only for a move to a terminal status. What is `None` leaves the time of
/// the record as it is.
pub open spec fn times_written(status: JobStatus, now: Timestamp) -> (
    Option<Timestamp>,
    Option<Timestamp>,
) {
    (
        if status == JobStatus::Processing {
            Some(now)
        } else {
            None
        },
        if status.is_terminal() {
            Some(now)
        } else {
            None
        },
    )
}

/// The start and completion times that a write of `status` at time `now`
/// sets.
pub fn status_write_times(status: JobStatus, now: Timestamp) -> (times: (
    Option<Timestamp>,
    Option<Timestamp>,
))
    ensures
        times == times_written(status, now),
{
    let started_at = match status {
        JobStatus::Processing => Some(now),
        _ => None,
    };
    let completed_at = if status.terminal() {
        Some(now)
    } else {
        None
    };
    (started_at, completed_at)
}

/// The times of a record after a status write are those that the write sets,
/// and where it sets none, those the record had.
pub proof fn lemma_with_status_sets_written_times(
    record: GeneratedDocumentView,
    status: JobStatus,
    error_message: Option<Seq<char>>,
    generation_metadata: Option<GenerationMetadataView>,
    now: Timestamp,
)
    ensures
        ({
            let written = record.with_status(status, error_message, generation_metadata, now);
            let times = times_written(status, now);
            &&& written.started_at == if times.0.is_some() {
                times.0
            } else {
                record.started_at
            }
            &&& written.completed_at == if times.1.is_some() {
                times.1
            } else {
                record.completed_at
            }
        }),
{
}

/// A freshly queued record is consistent, and a status write keeps a record
/// consistent when it is one of the moves a job may make and brings an error
/// message exactly when the job fails.
pub proof fn lemma_status_write_keeps_consistency(
    record: GeneratedDocumentView,
    status: JobStatus,
    error_message: Option<Seq<char>>,
    generation_metadata: Option<GenerationMetadataView>,
    now: Timestamp,
)
    requires
        record.lifecycle_consistent(),
        record.status.can_transition_to(status),
        error_message.is_some() <==> status == JobStatus::Failed,
    ensures
        record.with_status(status, error_message, generation_metadata, now).lifecycle_consistent(),
{
}

/// One rendered file of a job, as recorded after its upload.
#[derive(Debug, Clone)]
pub struct DocumentArtifact {
    pub id: i64,
    pub tenant_id: Uuid,
    pub document_id: i64,
    pub format: String,
    pub file_name: String,
    pub gcs_path: String,
    pub file_size: i64,
    pub content_type: String,
    pub sha256_checksum: String,
    pub page_count: Option<i32>,
    pub rendering_duration_ms: Option<i32>,
    pub created_at: Timestamp,
}

pub struct DocumentArtifactView {
    pub id: i64,
    pub tenant_id: Uuid,
    pub document_id: i64,
    pub format: Seq<char>,
    pub file_name: Seq<char>,
    pub gcs_path: Seq<char>,
    pub file_size: i64,
    pub content_type: Seq<char>,
    pub sha256_checksum: Seq<char>,
    pub page_count: Option<i32>,
    pub rendering_duration_ms: Option<i32>,
    pub created_at: Timestamp,
}

impl View for DocumentArtifact {
    type V = DocumentArtifactView;

    open spec fn view(&self) -> DocumentArtifactView {
        DocumentArtifactView {
            id: self.id,
            tenant_id: self.tenant_id,
            document_id: self.document_id,
            format: self.format@,
            file_name: self.file_name@,
            gcs_path: self.gcs_path@,
            file_size: self.file_size,
            content_type: self.content_type@,
            sha256_checksum: self.sha256_checksum@,
            page_count: self.page_count,
            rendering_duration_ms: self.rendering_duration_ms,
            created_at: self.created_at,
        }
    }
}

impl DocumentArtifact {
    /// A copy with the same contents.
    pub fn duplicate(&self) -> (copy: DocumentArtifact)
        ensures
            copy@ == self@,
    {
        DocumentArtifact {
            id: self.id,
            tenant_id: self.tenant_id,
            document_id: self.document_id,
            format: self.format.clone(),
            file_name: self.file_name.clone(),
            gcs_path: self.gcs_path.clone(),
            file_size: self.file_size,
            content_type: self.content_type.clone(),
            sha256_checksum: self.sha256_checksum.clone(),
            page_count: self.page_count,
            rendering_duration_ms: self.rendering_duration_ms,
            created_at: self.created_at,
        }
    }
}

/// A named, versioned markup template for one document type and format.
#[derive(Debug, Clone)]
pub struct DocumentTemplate {
    pub id: i64,
    pub tenant_id: Uuid,
    pub name: String,
    pub description: Option<String>,
    pub template_type: String,
    pub format: String,
    pub template_content: String,
    pub schema_version: String,
    pub is_system: bool,
    pub is_active: bool,
    pub created_by: i64,
    pub created_at: Timestamp,
    pub updated_at: Timestamp,
}

pub struct DocumentTemplateView {
    pub id: i64,
    pub tenant_id: Uuid,
    pub name: Seq<char>,
    pub description: Option<Seq<char>>,
    pub template_type: Seq<char>,
    pub format: Seq<char>,
    pub template_content: Seq<char>,
    pub schema_version: Seq<char>,
    pub is_system: bool,
    pub is_active: bool,
    pub created_by: i64,
    pub created_at: Timestamp,
    pub updated_at: Timestamp,
}

impl View for DocumentTemplate {
    type V = DocumentTemplateView;

    open spec fn view(&self) -> DocumentTemplateView {
        DocumentTemplateView {
            id: self.id,
            tenant_id: self.tenant_id,
            name: self.name@,
            description: opt_text(self.description),
            template_type: self.template_type@,
            format: self.format@,
            template_content: self.template_content@,
            schema_version: self.schema_version@,
            is_system: self.is_system,
            is_active: self.is_active,
            created_by: self.created_by,
            created_at: self.created_at,
            updated_at: self.updated_at,
        }
    }
}

impl DocumentTemplateView {
    /// Whether `self` is preferred to `other` as a default template: the one
    /// that was updated later, a system template and a tenant's own alike.
    pub open spec fn preferred_to(self, other: DocumentTemplateView) -> bool {
        self.updated_at.is_after(other.updated_at)
    }

    /// An active template of the tenant for the document type and format.
    pub open spec fn is_default_for(
        self,
        tenant_id: Uuid,
        template_type: Seq<char>,
        format: Seq<char>,
    ) -> bool {
        self.tenant_id == tenant_id && self.is_active && self.template_type == template_type
            && self.format == format
    }
}

impl DocumentTemplate {
    /// A copy with the same contents.
    pub fn duplicate(&self) -> (copy: DocumentTemplate)
        ensures
            copy@ == self@,
    {
        DocumentTemplate {
            id: self.id,
            tenant_id: self.tenant_id,
            name: self.name.clone(),
            description: clone_opt_string(&self.description),
            template_type: self.template_type.clone(),
            format: self.format.clone(),
            template_content: self.template_content.clone(),
            schema_version: self.schema_version.clone(),
            is_system: self.is_system,
            is_active: self.is_active,
            created_by: self.created_by,
            created_at: self.created_at,
            updated_at: self.updated_at,
        }
    }

    fn beats(&self, other: &DocumentTemplate) -> (better: bool)
        ensures
            better == self@.preferred_to(other@),
    {
        self.updated_at.later_than(&other.updated_at)
    }
}

// ============================================================
// Input structs
// ============================================================
/// What is needed to queue a new generation job.
#[derive(Debug, Clone)]
pub struct CreateDocumentInput {
    pub tenant_id: Uuid,
    pub project_id: i64,
    pub template_id: Option<i64>,
    pub correlation_id: Option<Uuid>,
    pub title: String,
    pub document_type: String,
    pub requested_formats: Vec<String>,
    pub input_params: serde_json::Value,
    pub requested_by: i64,
}

/// What is recorded of one uploaded file.
#[derive(Debug, Clone)]
pub struct CreateArtifactInput {
    pub tenant_id: Uuid,
    pub document_id: i64,
    pub format: String,
    pub file_name: String,
    pub gcs_path: String,
    pub file_size: i64,
    pub content_type: String,
    pub sha256_checksum: String,
    pub page_count: Option<i32>,
    pub rendering_duration_ms: Option<i32>,
}

impl CreateDocumentInput {
    /// The record that queuing this input at time `now` under `id` creates.
    pub open spec fn queued_record(self, id: i64, now: Timestamp) -> GeneratedDocumentView {
        GeneratedDocumentView {
            id,
            tenant_id: self.tenant_id,
            project_id: self.project_id,
            template_id: self.template_id,
            correlation_id: self.correlation_id,
            title: self.title@,
            document_type: self.document_type@,
            status: JobStatus::Queued,
            requested_formats: texts(self.requested_formats@),
            input_params: self.input_params,
            generation_metadata: None,
            error_message: None,
            requested_by: self.requested_by,
            started_at: None,
            completed_at: None,
            created_at: now,
            updated_at: now,
        }
    }
}

impl CreateArtifactInput {
    /// The artifact row that recording this input at time `now` under `id`
    /// creates.
    pub open spec fn recorded(self, id: i64, now: Timestamp) -> DocumentArtifactView {
        DocumentArtifactView {
            id,
            tenant_id: self.tenant_id,
            document_id: self.document_id,
            format: self.format@,
            file_name: self.file_name@,
            gcs_path: self.gcs_path@,
            file_size: self.file_size,
            content_type: self.content_type@,
            sha256_checksum: self.sha256_checksum@,
            page_count: self.page_count,
            rendering_duration_ms: self.rendering_duration_ms,
            created_at: now,
        }
    }
}

/// A freshly queued record is consistent.
pub proof fn lemma_queued_record_consistent(input: CreateDocumentInput, id: i64, now: Timestamp)
    ensures
        input.queued_record(id, now).lifecycle_consistent(),
        input.queued_record(id, now).status == JobStatus::Queued,
{
}

// ============================================================
// Store
// ============================================================
/// Why a store operation did not give a row.
#[derive(Clone, Copy, Debug, PartialEq, Eq, Structural)]
pub enum StoreError {
    /// No row of the tenant has the id that was asked for.
    RowNotFound,
    /// No further id can be given out.
    IdsExhausted,
    /// A page was asked for with a negative limit or offset.
    InvalidPage,
    /// The status asked for is no move that the job may make from the status
    /// it has.
    InvalidTransition,
    /// The tenant has no job record with the id that an artifact names.
    MissingDocument,
}

/// The views of a table of job records.
pub open spec fn document_views(rows: Seq<GeneratedDocument>) -> Seq<GeneratedDocumentView> {
    rows.map_values(|d: GeneratedDocument| d@)
}

/// The views of a table of artifacts.
pub open spec fn artifact_views(rows: Seq<DocumentArtifact>) -> Seq<DocumentArtifactView> {
    rows.map_values(|a: DocumentArtifact| a@)
}

/// The views of a table of templates.
pub open spec fn template_views(rows: Seq<DocumentTemplate>) -> Seq<DocumentTemplateView> {
    rows.map_values(|t: DocumentTemplate| t@)
}

/// Later records never come before earlier ones.
pub open spec fn newest_first(rows: Seq<GeneratedDocumentView>) -> bool {
    forall|a: int, b: int|
        0 <= a < b < rows.len() ==> !(#[trigger] rows[b]).created_at.is_after(
            (#[trigger] rows[a]).created_at,
        )
}

/// Whether a record belongs to the tenant and passes the filters that are set.
pub open spec fn document_matches(
    row: GeneratedDocumentView,
    tenant_id: Uuid,
    project_id: Option<i64>,
    document_type: Option<Seq<char>>,
    status: Option<JobStatus>,
) -> bool {
    &&& row.tenant_id == tenant_id
    &&& project_id.is_none() || row.project_id == project_id.unwrap()
    &&& document_type.is_none() || row.document_type == document_type.unwrap()
    &&& status.is_none() || row.status == status.unwrap()
}

/// The records of a table that belong to the tenant and pass the filters, in
/// the table's order.
pub open spec fn select_documents(
    rows: Seq<GeneratedDocumentView>,
    tenant_id: Uuid,
    project_id: Option<i64>,
    document_type: Option<Seq<char>>,
    status: Option<JobStatus>,
) -> Seq<GeneratedDocumentView>
    decreases rows.len(),
{
    if rows.len() == 0 {
        Seq::empty()
    } else {
        let rest = select_documents(rows.drop_last(), tenant_id, project_id, document_type, status);
        if document_matches(rows.last(), tenant_id, project_id, document_type, status) {
            rest.push(rows.last())
        } else {
            rest
        }
    }
}

/// The artifacts of a table that belong to the tenant and the job, in the
/// table's order.
pub open spec fn select_artifacts(
    rows: Seq<DocumentArtifactView>,
    tenant_id: Uuid,
    document_id: i64,
) -> Seq<DocumentArtifactView>
    decreases rows.len(),
{
    if rows.len() == 0 {
        Seq::empty()
    } else {
        let rest = select_artifacts(rows.drop_last(), tenant_id, document_id);
        if rows.last().tenant_id == tenant_id && rows.last().document_id == document_id {
            rest.push(rows.last())
        } else {
            rest
        }
    }
}

/// The artifacts of a table that do not belong to both the tenant and the job,
/// in the table's order.
pub open spec fn reject_artifacts(
    rows: Seq<DocumentArtifactView>,
    tenant_id: Uuid,
    document_id: i64,
) -> Seq<DocumentArtifactView>
    decreases rows.len(),
{
    if rows.len() == 0 {
        Seq::empty()
    } else {
        let rest = reject_artifacts(rows.drop_last(), tenant_id, document_id);
        if rows.last().tenant_id == tenant_id && rows.last().document_id == document_id {
            rest
        } else {
            rest.push(rows.last())
        }
    }
}

/// No artifact has a format that comes after the format of a later one.
pub open spec fn ordered_by_format(rows: Seq<DocumentArtifactView>) -> bool {
    forall|a: int, b: int|
        0 <= a < b < rows.len() ==> text_le((#[trigger] rows[a]).format, (#[trigger] rows[b]).format)
}

/// The object paths of a list of artifacts.
pub open spec fn artifact_paths(rows: Seq<DocumentArtifactView>) -> Seq<Seq<char>> {
    rows.map_values(|a: DocumentArtifactView| a.gcs_path)
}

/// The part of a list that a page with the given limit and offset shows.
pub open spec fn page_of<T>(rows: Seq<T>, limit: int, offset: int) -> Seq<T>
    recommends
        0 <= limit,
        0 <= offset,
{
    let lo = if offset > rows.len() {
        rows.len() as int
    } else {
        offset
    };
    let hi = if lo + limit > rows.len() {
        rows.len() as int
    } else {
        lo + limit
    };
    rows.subrange(lo, hi)
}

/// Whether the tenant has a job record with the id.
pub open spec fn has_document(rows: Seq<GeneratedDocumentView>, tenant_id: Uuid, id: i64) -> bool {
    exists|i: int| 0 <= i < rows.len() && (#[trigger] rows[i]).id == id && rows[i].tenant_id == tenant_id
}

/// Every artifact belongs to a job record of its own tenant that is there.
pub open spec fn artifacts_have_documents(
    artifacts: Seq<DocumentArtifactView>,
    documents: Seq<GeneratedDocumentView>,
) -> bool {
    forall|k: int|
        0 <= k < artifacts.len() ==> has_document(
            documents,
            (#[trigger] artifacts[k]).tenant_id,
            artifacts[k].document_id,
        )
}

/// A record that is there stays there when another is added.
pub proof fn lemma_insert_keeps_documents(
    rows: Seq<GeneratedDocumentView>,
    p: int,
    row: GeneratedDocumentView,
    tenant_id: Uuid,
    id: i64,
)
    requires
        0 <= p <= rows.len(),
        has_document(rows, tenant_id, id),
    ensures
        has_document(rows.insert(p, row), tenant_id, id),
{
    let i = choose|i: int| 0 <= i < rows.len() && (#[trigger] rows[i]).id == id && rows[i].tenant_id == tenant_id;
    let after = rows.insert(p, row);
    if i < p {
        assert(after[i] == rows[i]);
    } else {
        assert(after[i + 1] == rows[i]);
    }
}

/// A record that is there stays there when a record is rewritten under its
/// own id and tenant.
pub proof fn lemma_update_keeps_documents(
    rows: Seq<GeneratedDocumentView>,
    i: int,
    row: GeneratedDocumentView,
    tenant_id: Uuid,
    id: i64,
)
    requires
        0 <= i < rows.len(),
        row.id == rows[i].id,
        row.tenant_id == rows[i].tenant_id,
        has_document(rows, tenant_id, id),
    ensures
        has_document(rows.update(i, row), tenant_id, id),
{
    let j = choose|j: int| 0 <= j < rows.len() && (#[trigger] rows[j]).id == id && rows[j].tenant_id == tenant_id;
    let after = rows.update(i, row);
    assert(after[j].id == id && after[j].tenant_id == tenant_id);
}

/// A record that is there stays there when another record is deleted.
pub proof fn lemma_remove_keeps_documents(
    rows: Seq<GeneratedDocumentView>,
    i: int,
    tenant_id: Uuid,
    id: i64,
)
    requires
        0 <= i < rows.len(),
        !(rows[i].id == id && rows[i].tenant_id == tenant_id),
        has_document(rows, tenant_id, id),
    ensures
        has_document(rows.remove(i), tenant_id, id),
{
    let j = choose|j: int| 0 <= j < rows.len() && (#[trigger] rows[j]).id == id && rows[j].tenant_id == tenant_id;
    let after = rows.remove(i);
    if j < i {
        assert(after[j] == rows[j]);
    } else {
        assert(after[j - 1] == rows[j]);
    }
}

/// Where no artifact of a tenant's job is there, deleting them changes
/// nothing.
pub proof fn lemma_reject_without_selection(
    rows: Seq<DocumentArtifactView>,
    tenant_id: Uuid,
    document_id: i64,
)
    requires
        select_artifacts(rows, tenant_id, document_id).len() == 0,
    ensures
        reject_artifacts(rows, tenant_id, document_id) == rows,
    decreases rows.len(),
{
    if rows.len() > 0 {
        let front = rows.drop_last();
        lemma_reject_without_selection(front, tenant_id, document_id);
        assert(front.push(rows.last()) =~= rows);
    } else {
        assert(reject_artifacts(rows, tenant_id, document_id) =~= rows);
    }
}

/// Rows of other tenants are the same before and after: a job record of
/// another tenant is in the table afterwards exactly if it was there before.
pub open spec fn foreign_documents_kept(
    before: Seq<GeneratedDocumentView>,
    after: Seq<GeneratedDocumentView>,
    tenant_id: Uuid,
) -> bool {
    forall|row: GeneratedDocumentView|
        row.tenant_id != tenant_id ==> (before.contains(row) <==> after.contains(row))
}

/// Rows of other tenants are the same before and after: an artifact of another
/// tenant is in the table afterwards exactly if it was there before.
pub open spec fn foreign_artifacts_kept(
    before: Seq<DocumentArtifactView>,
    after: Seq<DocumentArtifactView>,
    tenant_id: Uuid,
) -> bool {
    forall|row: DocumentArtifactView|
        row.tenant_id != tenant_id ==> (before.contains(row) <==> after.contains(row))
}

/// Adding a record of one tenant leaves the records of all other tenants as
/// they were.
pub proof fn lemma_insert_keeps_foreign_documents(
    before: Seq<GeneratedDocumentView>,
    p: int,
    row: GeneratedDocumentView,
)
    requires
        0 <= p <= before.len(),
    ensures
        foreign_documents_kept(before, before.insert(p, row), row.tenant_id),
{
    let after = before.insert(p, row);
    assert forall|r: GeneratedDocumentView| r.tenant_id != row.tenant_id implies (before.contains(
        r,
    ) <==> after.contains(r)) by {
        if before.contains(r) {
            let k = choose|k: int| 0 <= k < before.len() && before[k] == r;
            if k < p {
                assert(after[k] == r);
            } else {
                assert(after[k + 1] == r);
            }
        }
        if after.contains(r) {
            let k = choose|k: int| 0 <= k < after.len() && after[k] == r;
            if k < p {
                assert(before[k] == r);
            } else if k > p {
                assert(before[k - 1] == r);
            }
        }
    }
}

/// Rewriting a record of one tenant leaves the records of all other tenants as
/// they were.
pub proof fn lemma_update_keeps_foreign_documents(
    before: Seq<GeneratedDocumentView>,
    i: int,
    row: GeneratedDocumentView,
)
    requires
        0 <= i < before.len(),
        before[i].tenant_id == row.tenant_id,
    ensures
        foreign_documents_kept(before, before.update(i, row), row.tenant_id),
{
    let after = before.update(i, row);
    assert forall|r: GeneratedDocumentView| r.tenant_id != row.tenant_id implies (before.contains(
        r,
    ) <==> after.contains(r)) by {
        if before.contains(r) {
            let k = choose|k: int| 0 <= k < before.len() && before[k] == r;
            assert(after[k] == r);
        }
        if after.contains(r) {
            let k = choose|k: int| 0 <= k < after.len() && after[k] == r;
            assert(before[k] == r);
        }
    }
}

/// Deleting a record of one tenant leaves the records of all other tenants as
/// they were.
pub proof fn lemma_remove_keeps_foreign_documents(before: Seq<GeneratedDocumentView>, i: int)
    requires
        0 <= i < before.len(),
    ensures
        foreign_documents_kept(before, before.remove(i), before[i].tenant_id),
{
    let after = before.remove(i);
    assert forall|r: GeneratedDocumentView| r.tenant_id != before[i].tenant_id implies (
    before.contains(r) <==> after.contains(r)) by {
        if before.contains(r) {
            let k = choose|k: int| 0 <= k < before.len() && before[k] == r;
            if k < i {
                assert(after[k] == r);
            } else {
                assert(after[k - 1] == r);
            }
        }
        if after.contains(r) {
            let k = choose|k: int| 0 <= k < after.len() && after[k] == r;
            if k < i {
                assert(before[k] == r);
            } else {
                assert(before[k + 1] == r);
            }
        }
    }
}

/// Every selected record is a record of the table, belongs to the tenant and
/// passes the filters; and every such record of the table is selected.
pub proof fn lemma_selected_documents(
    rows: Seq<GeneratedDocumentView>,
    tenant_id: Uuid,
    project_id: Option<i64>,
    document_type: Option<Seq<char>>,
    status: Option<JobStatus>,
)
    ensures
        forall|row: GeneratedDocumentView|
            #![trigger select_documents(rows, tenant_id, project_id, document_type, status).contains(row)]
            #![trigger rows.contains(row)]
            select_documents(rows, tenant_id, project_id, document_type, status).contains(row)
                <==> rows.contains(row) && document_matches(
                row,
                tenant_id,
                project_id,
                document_type,
                status,
            ),
    decreases rows.len(),
{
    let selected = select_documents(rows, tenant_id, project_id, document_type, status);
    if rows.len() == 0 {
        assert forall|row: GeneratedDocumentView| selected.contains(row) <==> rows.contains(row)
            && document_matches(row, tenant_id, project_id, document_type, status) by {}
    } else {
        let front = rows.drop_last();
        let rest = select_documents(front, tenant_id, project_id, document_type, status);
        lemma_selected_documents(front, tenant_id, project_id, document_type, status);
        assert forall|row: GeneratedDocumentView| selected.contains(row) <==> rows.contains(row)
            && document_matches(row, tenant_id, project_id, document_type, status) by {
            let m = document_matches(row, tenant_id, project_id, document_type, status);
            if selected.contains(row) {
                let k = choose|k: int| 0 <= k < selected.len() && selected[k] == row;
                if k < rest.len() {
                    assert(rest[k] == row);
                    assert(rest.contains(row));
                    let j = choose|j: int| 0 <= j < front.len() && front[j] == row;
                    assert(rows[j] == row);
                } else {
                    assert(rows[rows.len() - 1] == row);
                }
            }
            if rows.contains(row) && m {
                let j = choose|j: int| 0 <= j < rows.len() && rows[j] == row;
                if j < front.len() {
                    assert(front[j] == row);
                    assert(front.contains(row));
                    let k = choose|k: int| 0 <= k < rest.len() && rest[k] == row;
                    assert(selected[k] == row);
                } else {
                    assert(selected[selected.len() - 1] == row);
                }
            }
        }
    }
}

/// Every selected artifact is an artifact of the table that belongs to the
/// tenant and the job; and every such artifact of the table is selected.
pub proof fn lemma_selected_artifacts(
    rows: Seq<DocumentArtifactView>,
    tenant_id: Uuid,
    document_id: i64,
)
    ensures
        forall|row: DocumentArtifactView|
            #![trigger select_artifacts(rows, tenant_id, document_id).contains(row)]
            #![trigger rows.contains(row)]
            select_artifacts(rows, tenant_id, document_id).contains(row) <==> rows.contains(row)
                && row.tenant_id == tenant_id && row.document_id == document_id,
    decreases rows.len(),
{
    let selected = select_artifacts(rows, tenant_id, document_id);
    if rows.len() == 0 {
        assert forall|row: DocumentArtifactView| selected.contains(row) <==> rows.contains(row)
            && row.tenant_id == tenant_id && row.document_id == document_id by {}
    } else {
        let front = rows.drop_last();
        let rest = select_artifacts(front, tenant_id, document_id);
        lemma_selected_artifacts(front, tenant_id, document_id);
        assert forall|row: DocumentArtifactView| selected.contains(row) <==> rows.contains(row)
            && row.tenant_id == tenant_id && row.document_id == document_id by {
            if selected.contains(row) {
                let k = choose|k: int| 0 <= k < selected.len() && selected[k] == row;
                if k < rest.len() {
                    assert(rest[k] == row);
                    assert(rest.contains(row));
                    let j = choose|j: int| 0 <= j < front.len() && front[j] == row;
                    assert(rows[j] == row);
                } else {
                    assert(rows[rows.len() - 1] == row);
                }
            }
            if rows.contains(row) && row.tenant_id == tenant_id && row.document_id == document_id {
                let j = choose|j: int| 0 <= j < rows.len() && rows[j] == row;
                if j < front.len() {
                    assert(front[j] == row);
                    assert(front.contains(row));
                    let k = choose|k: int| 0 <= k < rest.len() && rest[k] == row;
                    assert(selected[k] == row);
                } else {
                    assert(selected[selected.len() - 1] == row);
                }
            }
        }
    }
}

/// What is left after the artifacts of a tenant's job are deleted: the
/// artifacts of the table that do not belong to both the tenant and the job.
/// The artifacts of all other tenants stay.
pub proof fn lemma_rejected_artifacts(
    rows: Seq<DocumentArtifactView>,
    tenant_id: Uuid,
    document_id: i64,
)
    ensures
        forall|row: DocumentArtifactView|
            #![trigger reject_artifacts(rows, tenant_id, document_id).contains(row)]
            #![trigger rows.contains(row)]
            reject_artifacts(rows, tenant_id, document_id).contains(row) <==> rows.contains(row)
                && !(row.tenant_id == tenant_id && row.document_id == document_id),
        foreign_artifacts_kept(rows, reject_artifacts(rows, tenant_id, document_id), tenant_id),
    decreases rows.len(),
{
    let kept = reject_artifacts(rows, tenant_id, document_id);
    if rows.len() == 0 {
        assert forall|row: DocumentArtifactView| kept.contains(row) <==> rows.contains(row) && !(
        row.tenant_id == tenant_id && row.document_id == document_id) by {}
    } else {
        let front = rows.drop_last();
        let rest = reject_artifacts(front, tenant_id, document_id);
        lemma_rejected_artifacts(front, tenant_id, document_id);
        assert forall|row: DocumentArtifactView| kept.contains(row) <==> rows.contains(row) && !(
        row.tenant_id == tenant_id && row.document_id == document_id) by {
            if kept.contains(row) {
                let k = choose|k: int| 0 <= k < kept.len() && kept[k] == row;
                if k < rest.len() {
                    assert(rest[k] == row);
                    assert(rest.contains(row));
                    let j = choose|j: int| 0 <= j < front.len() && front[j] == row;
                    assert(rows[j] == row);
                } else {
                    assert(rows[rows.len() - 1] == row);
                }
            }
            if rows.contains(row) && !(row.tenant_id == tenant_id && row.document_id
                == document_id) {
                let j = choose|j: int| 0 <= j < rows.len() && rows[j] == row;
                if j < front.len() {
                    assert(front[j] == row);
                    assert(front.contains(row));
                    let k = choose|k: int| 0 <= k < rest.len() && rest[k] == row;
                    assert(kept[k] == row);
                } else {
                    assert(kept[kept.len() - 1] == row);
                }
            }
        }
    }
}

/// Once the artifacts of a tenant's job are deleted, none is left to select.
pub proof fn lemma_nothing_selected_after_reject(
    rows: Seq<DocumentArtifactView>,
    tenant_id: Uuid,
    document_id: i64,
)
    ensures
        select_artifacts(reject_artifacts(rows, tenant_id, document_id), tenant_id, document_id).len()
            == 0,
    decreases rows.len(),
{
    if rows.len() > 0 {
        lemma_nothing_selected_after_reject(rows.drop_last(), tenant_id, document_id);
        let rest = reject_artifacts(rows.drop_last(), tenant_id, document_id);
        if !(rows.last().tenant_id == tenant_id && rows.last().document_id == document_id) {
            assert(rest.push(rows.last()).drop_last() =~= rest);
        }
    }
}

/// Recording an artifact of one tenant leaves the artifacts of all other
/// tenants as they were.
pub proof fn lemma_push_keeps_foreign_artifacts(
    before: Seq<DocumentArtifactView>,
    row: DocumentArtifactView,
)
    ensures
        foreign_artifacts_kept(before, before.push(row), row.tenant_id),
{
    let after = before.push(row);
    assert forall|r: DocumentArtifactView| r.tenant_id != row.tenant_id implies (before.contains(r)
        <==> after.contains(r)) by {
        if before.contains(r) {
            let k = choose|k: int| 0 <= k < before.len() && before[k] == r;
            assert(after[k] == r);
        }
        if after.contains(r) {
            let k = choose|k: int| 0 <= k < after.len() && after[k] == r;
            assert(before[k] == r);
        }
    }
}

/// A selection from records that stand newest first stands newest first, and
/// so does every page of it.
pub proof fn lemma_selection_newest_first(
    rows: Seq<GeneratedDocumentView>,
    tenant_id: Uuid,
    project_id: Option<i64>,
    document_type: Option<Seq<char>>,
    status: Option<JobStatus>,
    limit: int,
    offset: int,
)
    requires
        newest_first(rows),
        0 <= limit,
        0 <= offset,
    ensures
        newest_first(select_documents(rows, tenant_id, project_id, document_type, status)),
        newest_first(
            page_of(
                select_documents(rows, tenant_id, project_id, document_type, status),
                limit,
                offset,
            ),
        ),
    decreases rows.len(),
{
    let selected = select_documents(rows, tenant_id, project_id, document_type, status);
    if rows.len() > 0 {
        let front = rows.drop_last();
        let rest = select_documents(front, tenant_id, project_id, document_type, status);
        assert(newest_first(front)) by {
            assert forall|a: int, b: int| 0 <= a < b < front.len() implies !(
            #[trigger] front[b]).created_at.is_after((#[trigger] front[a]).created_at) by {
                assert(front[a] == rows[a] && front[b] == rows[b]);
            }
        }
        lemma_selection_newest_first(front, tenant_id, project_id, document_type, status, 0, 0);
        lemma_selected_documents(front, tenant_id, project_id, document_type, status);
        assert forall|a: int, b: int| 0 <= a < b < selected.len() implies !(
        #[trigger] selected[b]).created_at.is_after((#[trigger] selected[a]).created_at) by {
            if b < rest.len() {
                assert(rest[a] == selected[a] && rest[b] == selected[b]);
            } else {
                assert(rest[a] == selected[a]);
                assert(rest.contains(rest[a]));
                assert(front.contains(rest[a]));
                let j = choose|j: int| 0 <= j < front.len() && front[j] == rest[a];
                assert(rows[j] == selected[a]);
                assert(rows[rows.len() - 1] == selected[b]);
            }
        }
    }
    let page = page_of(selected, limit, offset);
    let lo = if offset > selected.len() {
        selected.len() as int
    } else {
        offset
    };
    assert forall|a: int, b: int| 0 <= a < b < page.len() implies !(
    #[trigger] page[b]).created_at.is_after((#[trigger] page[a]).created_at) by {
        assert(page[a] == selected[lo + a] && page[b] == selected[lo + b]);
    }
}

/// The tenant-partitioned store of job records, artifacts and templates. Every
/// operation first sets the tenant context of the session and then sees and
/// changes only rows of that tenant.
pub struct DocumentDb {
    documents: Vec<GeneratedDocument>,
    artifacts: Vec<DocumentArtifact>,
    templates: Vec<DocumentTemplate>,
    next_document_id: i64,
    next_artifact_id: i64,
    session_tenant: Option<Uuid>,
}

impl DocumentDb {
    /// The job records, newest first.
    pub closed spec fn document_rows(&self) -> Seq<GeneratedDocumentView> {
        document_views(self.documents@)
    }

    /// The artifacts, in the order in which they were recorded.
    pub closed spec fn artifact_rows(&self) -> Seq<DocumentArtifactView> {
        artifact_views(self.artifacts@)
    }

    /// The templates, in the order in which they were added.
    pub closed spec fn template_rows(&self) -> Seq<DocumentTemplateView> {
        template_views(self.templates@)
    }

    /// The tenant whose context the session holds.
    pub closed spec fn session_tenant(&self) -> Option<Uuid> {
        self.session_tenant
    }

    /// The id that the next job record gets.
    pub closed spec fn next_document_id(&self) -> i64 {
        self.next_document_id
    }

    /// The id that the next artifact gets.
    pub closed spec fn next_artifact_id(&self) -> i64 {
        self.next_artifact_id
    }

    /// Ids are positive, below the next id to give out and used once; job
    /// records stand newest first, artifacts in the order of their ids; and
    /// every artifact belongs to a job record of its own tenant that is there.
    pub open spec fn wf(&self) -> bool {
        &&& 1 <= self.next_document_id()
        &&& 1 <= self.next_artifact_id()
        &&& self.document_rows().len() < self.next_document_id()
        &&& self.artifact_rows().len() < self.next_artifact_id()
        &&& forall|i: int|
            0 <= i < self.document_rows().len() ==> 1 <= (#[trigger] self.document_rows()[i]).id
                < self.next_document_id()
        &&& forall|i: int, j: int|
            0 <= i < j < self.document_rows().len() ==> (#[trigger] self.document_rows()[i]).id
                != (#[trigger] self.document_rows()[j]).id
        &&& forall|i: int|
            0 <= i < self.artifact_rows().len() ==> 1 <= (#[trigger] self.artifact_rows()[i]).id
                < self.next_artifact_id()
        &&& forall|i: int, j: int|
            0 <= i < j < self.artifact_rows().len() ==> (#[trigger] self.artifact_rows()[i]).id < (
            #[trigger] self.artifact_rows()[j]).id
        &&& newest_first(self.document_rows())
        &&& artifacts_have_documents(self.artifact_rows(), self.document_rows())
    }

    /// An empty store.
    pub fn new() -> (db: DocumentDb)
        ensures
            db.wf(),
            db.document_rows().len() == 0,
            db.artifact_rows().len() == 0,
            db.template_rows().len() == 0,
            db.session_tenant().is_none(),
            db.next_document_id() == 1,
            db.next_artifact_id() == 1,
    {
        DocumentDb {
            documents: Vec::new(),
            artifacts: Vec::new(),
            templates: Vec::new(),
            next_document_id: 1,
            next_artifact_id: 1,
            session_tenant: None,
        }
    }

    /// Sets the tenant context of the session. The rows stay as they are.
    fn set_tenant_context(&mut self, tenant_id: Uuid)
        ensures
            final(self).session_tenant() == Some(tenant_id),
            final(self).document_rows() == old(self).document_rows(),
            final(self).artifact_rows() == old(self).artifact_rows(),
            final(self).template_rows() == old(self).template_rows(),
            final(self).next_document_id() == old(self).next_document_id(),
            final(self).next_artifact_id() == old(self).next_artifact_id(),
            final(self).documents == old(self).documents,
            final(self).artifacts == old(self).artifacts,
            final(self).templates == old(self).templates,
    {
        self.session_tenant = Some(tenant_id);
    }

    /// Whether the session may see a row of the given tenant.
    fn visible(&self, row_tenant: Uuid) -> (yes: bool)
        ensures
            yes == (self.session_tenant() == Some(row_tenant)),
    {
        match self.session_tenant {
            Some(t) => t == row_tenant,
            None => false,
        }
    }

    /// The position of the session tenant's record with the given id.
    fn find_document(&self, id: i64) -> (found: Option<usize>)
        ensures
            match found {
                Some(i) => i < self.documents@.len() && self.documents@[i as int].id == id
                    && self.session_tenant() == Some(self.documents@[i as int].tenant_id),
                None => forall|k: int|
                    0 <= k < self.documents@.len() ==> !((#[trigger] self.documents@[k]).id == id
                        && self.session_tenant() == Some(self.documents@[k].tenant_id)),
            },
    {
        let mut i: usize = 0;
        while i < self.documents.len()
            invariant
                i <= self.documents@.len(),
                forall|k: int|
                    0 <= k < i ==> !((#[trigger] self.documents@[k]).id == id
                        && self.session_tenant() == Some(self.documents@[k].tenant_id)),
            decreases self.documents@.len() - i,
        {
            if self.documents[i].id == id && self.visible(self.documents[i].tenant_id) {
                return Some(i);
            }
            i += 1;
        }
        None
    }

    /// The position of the tenant's artifact with the given id.
    fn find_artifact(&self, tenant_id: Uuid, artifact_id: i64) -> (found: Option<usize>)
        ensures
            match found {
                Some(i) => i < self.artifacts@.len() && self.artifact_rows()[i as int].id
                    == artifact_id && self.artifact_rows()[i as int].tenant_id == tenant_id,
                None => forall|k: int|
                    0 <= k < self.artifact_rows().len() ==> !((#[trigger] self.artifact_rows()[k]).id
                        == artifact_id && self.artifact_rows()[k].tenant_id == tenant_id),
            },
    {
        let ghost rows = self.artifact_rows();
        let mut i: usize = 0;
        while i < self.artifacts.len()
            invariant
                i <= self.artifacts@.len(),
                rows == artifact_views(self.artifacts@),
                forall|k: int|
                    0 <= k < i ==> !((#[trigger] rows[k]).id == artifact_id && rows[k].tenant_id
                        == tenant_id),
            decreases self.artifacts@.len() - i,
        {
            let row = &self.artifacts[i];
            assert(rows[i as int] == row@);
            if row.id == artifact_id && row.tenant_id == tenant_id {
                return Some(i);
            }
            i += 1;
        }
        None
    }

    /// The position of the tenant's active template with the given id.
    fn find_template(&self, tenant_id: Uuid, template_id: i64) -> (found: Option<usize>)
        ensures
            match found {
                Some(i) => i < self.templates@.len() && self.template_rows()[i as int].id
                    == template_id && self.template_rows()[i as int].tenant_id == tenant_id
                    && self.template_rows()[i as int].is_active,
                None => forall|k: int|
                    0 <= k < self.template_rows().len() ==> !((#[trigger] self.template_rows()[k]).id
                        == template_id && self.template_rows()[k].tenant_id == tenant_id
                        && self.template_rows()[k].is_active),
            },
    {
        let ghost rows = self.template_rows();
        let mut i: usize = 0;
        while i < self.templates.len()
            invariant
                i <= self.templates@.len(),
                rows == template_views(self.templates@),
                forall|k: int|
                    0 <= k < i ==> !((#[trigger] rows[k]).id == template_id && rows[k].tenant_id
                        == tenant_id && rows[k].is_active),
            decreases self.templates@.len() - i,
        {
            let row = &self.templates[i];
            assert(rows[i as int] == row@);
            if row.id == template_id && row.tenant_id == tenant_id && row.is_active {
                return Some(i);
            }
            i += 1;
        }
        None
    }

    // --------------------------------------------------------
    // generated_documents
    // --------------------------------------------------------
    /// Queues a new job at time `now`: the record gets the next id and the
    /// status `Queued`, and takes its place behind the records that are
    /// later than `now` and before all others, so that the records stay
    /// newest first. Fails only when the ids are used up.
    pub fn create_document(&mut self, input: &CreateDocumentInput, now: Timestamp) -> (created:
        Result<GeneratedDocument, StoreError>)
        requires
            old(self).wf(),
        ensures
            final(self).wf(),
            final(self).session_tenant() == Some(input.tenant_id),
            final(self).artifact_rows() == old(self).artifact_rows(),
            final(self).template_rows() == old(self).template_rows(),
            final(self).next_artifact_id() == old(self).next_artifact_id(),
            foreign_documents_kept(
                old(self).document_rows(),
                final(self).document_rows(),
                input.tenant_id,
            ),
            match created {
                Ok(doc) => {
                    &&& old(self).next_document_id() < i64::MAX
                    &&& doc@ == input.queued_record(old(self).next_document_id(), now)
                    &&& final(self).next_document_id() == old(self).next_document_id() + 1
                    &&& exists|p: int|
                        {
                            &&& 0 <= p <= old(self).document_rows().len()
                            &&& final(self).document_rows() == #[trigger] old(
                                self,
                            ).document_rows().insert(p, doc@)
                            &&& forall|k: int|
                                0 <= k < p ==> (#[trigger] old(
                                    self,
                                ).document_rows()[k]).created_at.is_after(now)
                            &&& p < old(self).document_rows().len() ==> !old(
                                self,
                            ).document_rows()[p].created_at.is_after(now)
                        }
                },
                Err(e) => {
                    &&& e == StoreError::IdsExhausted
                    &&& old(self).next_document_id() == i64::MAX
                    &&& final(self).document_rows() == old(self).document_rows()
                    &&& final(self).next_document_id() == old(self).next_document_id()
                },
            },
    {
        self.set_tenant_context(input.tenant_id);
        if self.next_document_id == i64::MAX {
            return Err(StoreError::IdsExhausted);
        }
        let id = self.next_document_id;
        let row = GeneratedDocument {
            id,
            tenant_id: input.tenant_id,
            project_id: input.project_id,
            template_id: input.template_id,
            correlation_id: input.correlation_id,
            title: input.title.clone(),
            document_type: input.document_type.clone(),
            status: JobStatus::Queued,
            requested_formats: clone_strings(&input.requested_formats),
            input_params: input.input_params.clone(),
            generation_metadata: None,
            error_message: None,
            requested_by: input.requested_by,
            started_at: None,
            completed_at: None,
            created_at: now,
            updated_at: now,
        };
        let created = row.duplicate();
        let mut p: usize = 0;
        while p < self.documents.len() && self.documents[p].created_at.later_than(&now)
            invariant
                p <= self.documents@.len(),
                forall|k: int|
                    0 <= k < p ==> (#[trigger] self.documents@[k]).created_at.is_after(now),
            decreases self.documents@.len() - p,
        {
            p += 1;
        }
        let ghost before = self.documents@;
        self.documents.insert(p, row);
        self.next_document_id = id + 1;
        proof {
            let after = self.documents@;
            assert(after == before.insert(p as int, row));
            assert(document_views(after) =~= document_views(before).insert(p as int, row@));
            lemma_insert_keeps_foreign_documents(document_views(before), p as int, row@);
            let artifacts = self.artifact_rows();
            assert forall|k: int| 0 <= k < artifacts.len() implies has_document(
                document_views(after),
                (#[trigger] artifacts[k]).tenant_id,
                artifacts[k].document_id,
            ) by {
                lemma_insert_keeps_documents(
                    document_views(before),
                    p as int,
                    row@,
                    artifacts[k].tenant_id,
                    artifacts[k].document_id,
                );
            }
            assert forall|k: int| 0 <= k < p implies (#[trigger] document_views(
                before,
            )[k]).created_at.is_after(now) by {
                assert(document_views(before)[k] == before[k]@);
            }
            if p < before.len() {
                assert(document_views(before)[p as int] == before[p as int]@);
            }
            assert forall|a: int, b: int| 0 <= a < b < after.len() implies !(
            #[trigger] document_views(after)[b]).created_at.is_after(
                (#[trigger] document_views(after)[a]).created_at,
            ) by {
                if b < p {
                    assert(after[a] == before[a] && after[b] == before[b]);
                    assert(document_views(before)[a] == before[a]@);
                    assert(document_views(before)[b] == before[b]@);
                } else if b == p {
                    assert(after[a] == before[a]);
                    assert(before[a].created_at.is_after(now));
                } else if a < p {
                    assert(after[a] == before[a] && after[b] == before[b - 1]);
                    assert(document_views(before)[a] == before[a]@);
                    assert(document_views(before)[b - 1] == before[b - 1]@);
                } else if a == p {
                    assert(after[b] == before[b - 1]);
                    assert(document_views(before)[p as int] == before[p as int]@);
                    assert(document_views(before)[b - 1] == before[b - 1]@);
                    assert(!before[p as int].created_at.is_after(now));
                } else {
                    assert(after[a] == before[a - 1] && after[b] == before[b - 1]);
                    assert(document_views(before)[a - 1] == before[a - 1]@);
                    assert(document_views(before)[b - 1] == before[b - 1]@);
                }
            }
            assert forall|i: int| 0 <= i < after.len() implies 1 <= (#[trigger] document_views(
                after,
            )[i]).id < id + 1 by {
                if i < p {
                    assert(document_views(before)[i] == before[i]@);
                } else if i > p {
                    assert(document_views(before)[i - 1] == before[i - 1]@);
                }
            }
            assert forall|i: int, j: int| 0 <= i < j < after.len() implies (
            #[trigger] document_views(after)[i]).id != (#[trigger] document_views(after)[j]).id by {
                let bi = if i < p {
                    i
                } else {
                    i - 1
                };
                let bj = if j < p {
                    j
                } else {
                    j - 1
                };
                if i != p {
                    assert(document_views(before)[bi] == before[bi]@);
                }
                if j != p {
                    assert(document_views(before)[bj] == before[bj]@);
                }
            }
        }
        Ok(created)
    }

    /// The tenant's record with the given id, if there is one.
    pub fn get_document(&mut self, tenant_id: Uuid, id: i64) -> (found: Option<GeneratedDocument>)
        requires
            old(self).wf(),
        ensures
            final(self).wf(),
            final(self).session_tenant() == Some(tenant_id),
            final(self).document_rows() == old(self).document_rows(),
            final(self).artifact_rows() == old(self).artifact_rows(),
            final(self).template_rows() == old(self).template_rows(),
            final(self).next_document_id() == old(self).next_document_id(),
            final(self).next_artifact_id() == old(self).next_artifact_id(),
            match found {
                Some(doc) => doc@.id == id && doc@.tenant_id == tenant_id && old(
                    self,
                ).document_rows().contains(doc@),
                None => forall|k: int|
                    0 <= k < old(self).document_rows().len() ==> !((#[trigger] old(
                        self,
                    ).document_rows()[k]).id == id && old(self).document_rows()[k].tenant_id
                        == tenant_id),
            },
    {
        self.set_tenant_context(tenant_id);
        match self.find_document(id) {
            Some(i) => {
                let doc = self.documents[i].duplicate();
                assert(self.document_rows()[i as int] == doc@);
                Some(doc)
            },
            None => {
                assert forall|k: int| 0 <= k < self.document_rows().len() implies !((
                #[trigger] self.document_rows()[k]).id == id && self.document_rows()[k].tenant_id
                    == tenant_id) by {
                    assert(self.document_rows()[k] == self.documents@[k]@);
                }
                None
            },
        }
    }

    /// Writes a new status to the tenant's record with the given id, at time
    /// `now`, and gives the record as it then stands. No other row changes.
    /// The write is made only if the status is a move that the job may make
    /// from the status it has: a status only advances, and nothing follows
    /// `Completed` or `Failed`. Fails, with every row as it was, when the
    /// tenant has no record with that id or the move is not allowed.
    pub fn update_document_status(
        &mut self,
        tenant_id: Uuid,
        id: i64,
        status: JobStatus,
        error_message: Option<&str>,
        generation_metadata: Option<&GenerationMetadata>,
        now: Timestamp,
    ) -> (updated: Result<GeneratedDocument, StoreError>)
        requires
            old(self).wf(),
        ensures
            final(self).wf(),
            final(self).session_tenant() == Some(tenant_id),
            final(self).artifact_rows() == old(self).artifact_rows(),
            final(self).template_rows() == old(self).template_rows(),
            final(self).next_document_id() == old(self).next_document_id(),
            final(self).next_artifact_id() == old(self).next_artifact_id(),
            foreign_documents_kept(
                old(self).document_rows(),
                final(self).document_rows(),
                tenant_id,
            ),
            match updated {
                Ok(doc) => exists|i: int|
                    {
                        &&& 0 <= i < old(self).document_rows().len()
                        &&& (#[trigger] old(self).document_rows()[i]).id == id
                        &&& old(self).document_rows()[i].tenant_id == tenant_id
                        &&& old(self).document_rows()[i].status.can_transition_to(status)
                        &&& doc@ == old(self).document_rows()[i].with_status(
                            status,
                            match error_message {
                                Some(m) => Some(m@),
                                None => None,
                            },
                            match generation_metadata {
                                Some(m) => Some(m@),
                                None => None,
                            },
                            now,
                        )
                        &&& final(self).document_rows() == old(self).document_rows().update(
                            i,
                            doc@,
                        )
                    },
                Err(e) => {
                    &&& final(self).document_rows() == old(self).document_rows()
                    &&& match e {
                        StoreError::RowNotFound => forall|k: int|
                            0 <= k < old(self).document_rows().len() ==> !((#[trigger] old(
                                self,
                            ).document_rows()[k]).id == id && old(
                                self,
                            ).document_rows()[k].tenant_id == tenant_id),
                        StoreError::InvalidTransition => exists|i: int|
                            {
                                &&& 0 <= i < old(self).document_rows().len()
                                &&& (#[trigger] old(self).document_rows()[i]).id == id
                                &&& old(self).document_rows()[i].tenant_id == tenant_id
                                &&& !old(self).document_rows()[i].status.can_transition_to(status)
                            },
                        _ => false,
                    }
                },
            },
    {
        self.set_tenant_context(tenant_id);
        match self.find_document(id) {
            Some(i) => {
                assert(self.document_rows()[i as int] == self.documents@[i as int]@);
                if !self.documents[i].status.may_become(status) {
                    return Err(StoreError::InvalidTransition);
                }
                let ghost before = self.documents@;
                let mut row = self.documents.remove(i);
                let message = match error_message {
                    Some(m) => Some(m.to_owned()),
                    None => None,
                };
                let metadata = match generation_metadata {
                    Some(m) => Some(m.duplicate()),
                    None => None,
                };
                row.apply_status(status, message, metadata, now);
                let doc = row.duplicate();
                self.documents.insert(i, row);
                proof {
                    let after = self.documents@;
                    assert(after =~= before.update(i as int, row));
                    assert(document_views(before)[i as int] == before[i as int]@);
                    assert(document_views(after) =~= document_views(before).update(
                        i as int,
                        doc@,
                    ));
                    lemma_update_keeps_foreign_documents(document_views(before), i as int, doc@);
                    let artifacts = self.artifact_rows();
                    assert forall|k: int| 0 <= k < artifacts.len() implies has_document(
                        document_views(after),
                        (#[trigger] artifacts[k]).tenant_id,
                        artifacts[k].document_id,
                    ) by {
                        lemma_update_keeps_documents(
                            document_views(before),
                            i as int,
                            doc@,
                            artifacts[k].tenant_id,
                            artifacts[k].document_id,
                        );
                    }
                    assert forall|a: int, b: int| 0 <= a < b < after.len() implies !(
                    #[trigger] document_views(after)[b]).created_at.is_after(
                        (#[trigger] document_views(after)[a]).created_at,
                    ) by {
                        assert(document_views(before)[a].created_at == document_views(
                            after,
                        )[a].created_at);
                        assert(document_views(before)[b].created_at == document_views(
                            after,
                        )[b].created_at);
                    }
                    assert forall|k: int| 0 <= k < after.len() implies 1 <= (
                    #[trigger] document_views(after)[k]).id < self.next_document_id by {
                        assert(document_views(before)[k].id == document_views(after)[k].id);
                    }
                    assert forall|a: int, b: int| 0 <= a < b < after.len() implies (
                    #[trigger] document_views(after)[a]).id != (#[trigger] document_views(
                        after,
                    )[b]).id by {
                        assert(document_views(before)[a].id == document_views(after)[a].id);
                        assert(document_views(before)[b].id == document_views(after)[b].id);
                    }
                }
                Ok(doc)
            },
            None => {
                assert forall|k: int| 0 <= k < self.document_rows().len() implies !((
                #[trigger] self.document_rows()[k]).id == id && self.document_rows()[k].tenant_id
                    == tenant_id) by {
                    assert(self.document_rows()[k] == self.documents@[k]@);
                }
                Err(StoreError::RowNotFound)
            },
        }
    }

    /// Deletes the tenant's record with the given id, and with it the
    /// artifacts of that job, and says whether there was a record. No other
    /// row changes.
    pub fn delete_document(&mut self, tenant_id: Uuid, id: i64) -> (deleted: bool)
        requires
            old(self).wf(),
        ensures
            final(self).wf(),
            final(self).session_tenant() == Some(tenant_id),
            final(self).artifact_rows() == reject_artifacts(
                old(self).artifact_rows(),
                tenant_id,
                id,
            ),
            foreign_artifacts_kept(
                old(self).artifact_rows(),
                final(self).artifact_rows(),
                tenant_id,
            ),
            final(self).template_rows() == old(self).template_rows(),
            final(self).next_document_id() == old(self).next_document_id(),
            final(self).next_artifact_id() == old(self).next_artifact_id(),
            foreign_documents_kept(
                old(self).document_rows(),
                final(self).document_rows(),
                tenant_id,
            ),
            deleted ==> exists|i: int|
                {
                    &&& 0 <= i < old(self).document_rows().len()
                    &&& (#[trigger] old(self).document_rows()[i]).id == id
                    &&& old(self).document_rows()[i].tenant_id == tenant_id
                    &&& final(self).document_rows() == old(self).document_rows().remove(i)
                },
            !deleted ==> {
                &&& final(self).document_rows() == old(self).document_rows()
                &&& forall|k: int|
                    0 <= k < old(self).document_rows().len() ==> !((#[trigger] old(
                        self,
                    ).document_rows()[k]).id == id && old(self).document_rows()[k].tenant_id
                        == tenant_id)
            },
    {
        let ghost artifacts_before = self.artifact_rows();
        let _ = self.delete_artifacts_for_document(tenant_id, id);
        match self.find_document(id) {
            Some(i) => {
                let ghost before = self.documents@;
                let _ = self.documents.remove(i);
                proof {
                    let after = self.documents@;
                    assert(document_views(before)[i as int] == before[i as int]@);
                    assert(document_views(after) =~= document_views(before).remove(i as int));
                    lemma_remove_keeps_foreign_documents(document_views(before), i as int);
                    lemma_rejected_artifacts(artifacts_before, tenant_id, id);
                    let artifacts = self.artifact_rows();
                    assert forall|k: int| 0 <= k < artifacts.len() implies has_document(
                        document_views(after),
                        (#[trigger] artifacts[k]).tenant_id,
                        artifacts[k].document_id,
                    ) by {
                        assert(artifacts.contains(artifacts[k]));
                        lemma_remove_keeps_documents(
                            document_views(before),
                            i as int,
                            artifacts[k].tenant_id,
                            artifacts[k].document_id,
                        );
                    }
                    assert forall|k: int| 0 <= k < after.len() implies document_views(after)[k]
                        == document_views(before)[if k < i {
                        k
                    } else {
                        k + 1
                    }] by {}
                    assert forall|a: int, b: int| 0 <= a < b < after.len() implies !(
                    #[trigger] document_views(after)[b]).created_at.is_after(
                        (#[trigger] document_views(after)[a]).created_at,
                    ) by {
                        let a0 = if a < i {
                            a
                        } else {
                            a + 1
                        };
                        let b0 = if b < i {
                            b
                        } else {
                            b + 1
                        };
                        assert(document_views(after)[a] == document_views(before)[a0]);
                        assert(document_views(after)[b] == document_views(before)[b0]);
                    }
                    assert forall|k: int| 0 <= k < after.len() implies 1 <= (
                    #[trigger] document_views(after)[k]).id < self.next_document_id by {
                        let k0 = if k < i {
                            k
                        } else {
                            k + 1
                        };
                        assert(document_views(after)[k] == document_views(before)[k0]);
                    }
                    assert forall|a: int, b: int| 0 <= a < b < after.len() implies (
                    #[trigger] document_views(after)[a]).id != (#[trigger] document_views(
                        after,
                    )[b]).id by {
                        let a0 = if a < i {
                            a
                        } else {
                            a + 1
                        };
                        let b0 = if b < i {
                            b
                        } else {
                            b + 1
                        };
                        assert(document_views(after)[a] == document_views(before)[a0]);
                        assert(document_views(after)[b] == document_views(before)[b0]);
                    }
                }
                true
            },
            None => {
                assert forall|k: int| 0 <= k < self.document_rows().len() implies !((
                #[trigger] self.document_rows()[k]).id == id && self.document_rows()[k].tenant_id
                    == tenant_id) by {
                    assert(self.document_rows()[k] == self.documents@[k]@);
                }
                false
            },
        }
    }

    /// The tenant's records that pass the filters, newest first: the page that
    /// `limit` and `offset` cut out of them, and how many pass in all. Fails
    /// when the limit or the offset is negative.
    pub fn list_documents(
        &mut self,
        tenant_id: Uuid,
        project_id: Option<i64>,
        document_type: Option<&str>,
        status: Option<JobStatus>,
        limit: i64,
        offset: i64,
    ) -> (listed: Result<(Vec<GeneratedDocument>, i64), StoreError>)
        requires
            old(self).wf(),
        ensures
            final(self).wf(),
            final(self).session_tenant() == Some(tenant_id),
            final(self).document_rows() == old(self).document_rows(),
            final(self).artifact_rows() == old(self).artifact_rows(),
            final(self).template_rows() == old(self).template_rows(),
            final(self).next_document_id() == old(self).next_document_id(),
            final(self).next_artifact_id() == old(self).next_artifact_id(),
            match listed {
                Ok((page, total)) => {
                    let selected = select_documents(
                        old(self).document_rows(),
                        tenant_id,
                        project_id,
                        match document_type {
                            Some(t) => Some(t@),
                            None => None,
                        },
                        status,
                    );
                    &&& limit >= 0 && offset >= 0
                    &&& total == selected.len()
                    &&& document_views(page@) == page_of(selected, limit as int, offset as int)
                    &&& newest_first(document_views(page@))
                    &&& forall|k: int|
                        0 <= k < page@.len() ==> (#[trigger] document_views(page@)[k]).tenant_id
                            == tenant_id && old(self).document_rows().contains(
                            document_views(page@)[k],
                        )
                },
                Err(e) => e == StoreError::InvalidPage && (limit < 0 || offset < 0),
            },
    {
        self.set_tenant_context(tenant_id);
        if limit < 0 || offset < 0 {
            return Err(StoreError::InvalidPage);
        }
        let ghost wanted_type: Option<Seq<char>> = match document_type {
            Some(t) => Some(t@),
            None => None,
        };
        let ghost rows = self.document_rows();
        let mut page: Vec<GeneratedDocument> = Vec::new();
        let mut total: i64 = 0;
        let mut i: usize = 0;
        while i < self.documents.len()
            invariant
                i <= self.documents@.len(),
                rows == document_views(self.documents@),
                self.documents@.len() < i64::MAX,
                limit >= 0,
                offset >= 0,
                wanted_type == match document_type {
                    Some(t) => Some(t@),
                    None => None,
                },
                total == select_documents(
                    rows.subrange(0, i as int),
                    tenant_id,
                    project_id,
                    wanted_type,
                    status,
                ).len(),
                total <= i,
                document_views(page@) == page_of(
                    select_documents(
                        rows.subrange(0, i as int),
                        tenant_id,
                        project_id,
                        wanted_type,
                        status,
                    ),
                    limit as int,
                    offset as int,
                ),
            decreases self.documents@.len() - i,
        {
            let row = &self.documents[i];
            let matches = row.tenant_id == tenant_id && (match project_id {
                Some(p) => row.project_id == p,
                None => true,
            }) && opt_str_matches(document_type, row.document_type.as_str()) && (match status {
                Some(s) => row.status == s,
                None => true,
            });
            proof {
                assert(rows.subrange(0, i + 1).drop_last() =~= rows.subrange(0, i as int));
                assert(rows.subrange(0, i + 1).last() == row@);
                assert(matches == document_matches(
                    row@,
                    tenant_id,
                    project_id,
                    wanted_type,
                    status,
                ));
            }
            if matches {
                let ghost before = select_documents(
                    rows.subrange(0, i as int),
                    tenant_id,
                    project_id,
                    wanted_type,
                    status,
                );
                if total >= offset && total - offset < limit {
                    let ghost shown = page@;
                    let copy = row.duplicate();
                    page.push(copy);
                    assert(document_views(page@) =~= document_views(shown).push(row@));
                    assert(before.push(row@).subrange(offset as int, total + 1)
                        =~= before.subrange(offset as int, total as int).push(row@));
                    assert(document_views(page@) =~= page_of(
                        before.push(row@),
                        limit as int,
                        offset as int,
                    ));
                } else {
                    assert(document_views(page@) =~= page_of(
                        before.push(row@),
                        limit as int,
                        offset as int,
                    ));
                }
                total += 1;
            }
            i += 1;
        }
        assert(rows.subrange(0, i as int) =~= rows);
        proof {
            let selected = select_documents(rows, tenant_id, project_id, wanted_type, status);
            lemma_selection_newest_first(
                rows,
                tenant_id,
                project_id,
                wanted_type,
                status,
                limit as int,
                offset as int,
            );
            lemma_selected_documents(rows, tenant_id, project_id, wanted_type, status);
            let shown = document_views(page@);
            let lo = if offset > selected.len() {
                selected.len() as int
            } else {
                offset as int
            };
            assert forall|k: int| 0 <= k < page@.len() implies (#[trigger] shown[k]).tenant_id
                == tenant_id && rows.contains(shown[k]) by {
                assert(shown[k] == selected[lo + k]);
                assert(selected.contains(shown[k]));
            }
        }
        Ok((page, total))
    }

    // --------------------------------------------------------
    // generated_document_artifacts
    // --------------------------------------------------------
    /// Records one uploaded file at time `now`: the artifact gets the next id
    /// and is added after the others. Fails, with every row as it was, when
    /// the tenant has no job record with the id that the artifact names, and
    /// else only when the ids are used up.
    pub fn create_artifact(&mut self, input: &CreateArtifactInput, now: Timestamp) -> (created:
        Result<DocumentArtifact, StoreError>)
        requires
            old(self).wf(),
        ensures
            final(self).wf(),
            final(self).session_tenant() == Some(input.tenant_id),
            final(self).document_rows() == old(self).document_rows(),
            final(self).template_rows() == old(self).template_rows(),
            final(self).next_document_id() == old(self).next_document_id(),
            foreign_artifacts_kept(
                old(self).artifact_rows(),
                final(self).artifact_rows(),
                input.tenant_id,
            ),
            match created {
                Ok(artifact) => {
                    &&& has_document(
                        old(self).document_rows(),
                        input.tenant_id,
                        input.document_id,
                    )
                    &&& old(self).next_artifact_id() < i64::MAX
                    &&& artifact@ == input.recorded(old(self).next_artifact_id(), now)
                    &&& final(self).next_artifact_id() == old(self).next_artifact_id() + 1
                    &&& final(self).artifact_rows() == old(self).artifact_rows().push(artifact@)
                },
                Err(e) => {
                    &&& final(self).artifact_rows() == old(self).artifact_rows()
                    &&& final(self).next_artifact_id() == old(self).next_artifact_id()
                    &&& match e {
                        StoreError::MissingDocument => !has_document(
                            old(self).document_rows(),
                            input.tenant_id,
                            input.document_id,
                        ),
                        StoreError::IdsExhausted => has_document(
                            old(self).document_rows(),
                            input.tenant_id,
                            input.document_id,
                        ) && old(self).next_artifact_id() == i64::MAX,
                        _ => false,
                    }
                },
            },
    {
        self.set_tenant_context(input.tenant_id);
        match self.find_document(input.document_id) {
            Some(i) => {
                assert(self.document_rows()[i as int] == self.documents@[i as int]@);
            },
            None => {
                assert forall|k: int| 0 <= k < self.document_rows().len() implies !((
                #[trigger] self.document_rows()[k]).id == input.document_id
                    && self.document_rows()[k].tenant_id == input.tenant_id) by {
                    assert(self.document_rows()[k] == self.documents@[k]@);
                }
                return Err(StoreError::MissingDocument);
            },
        }
        if self.next_artifact_id == i64::MAX {
            return Err(StoreError::IdsExhausted);
        }
        let id = self.next_artifact_id;
        let row = DocumentArtifact {
            id,
            tenant_id: input.tenant_id,
            document_id: input.document_id,
            format: input.format.clone(),
            file_name: input.file_name.clone(),
            gcs_path: input.gcs_path.clone(),
            file_size: input.file_size,
            content_type: input.content_type.clone(),
            sha256_checksum: input.sha256_checksum.clone(),
            page_count: input.page_count,
            rendering_duration_ms: input.rendering_duration_ms,
            created_at: now,
        };
        let created = row.duplicate();
        let ghost before = self.artifacts@;
        self.artifacts.push(row);
        self.next_artifact_id = id + 1;
        proof {
            let after = self.artifacts@;
            assert(artifact_views(after) =~= artifact_views(before).push(row@));
            lemma_push_keeps_foreign_artifacts(artifact_views(before), row@);
            let documents = self.document_rows();
            assert forall|k: int| 0 <= k < after.len() implies has_document(
                documents,
                (#[trigger] artifact_views(after)[k]).tenant_id,
                artifact_views(after)[k].document_id,
            ) by {
                if k < before.len() {
                    assert(artifact_views(before)[k] == artifact_views(after)[k]);
                }
            }
            assert forall|k: int| 0 <= k < after.len() implies 1 <= (#[trigger] artifact_views(
                after,
            )[k]).id < id + 1 by {
                if k < before.len() {
                    assert(artifact_views(before)[k] == artifact_views(after)[k]);
                }
            }
            assert forall|a: int, b: int| 0 <= a < b < after.len() implies (
            #[trigger] artifact_views(after)[a]).id < (#[trigger] artifact_views(after)[b]).id by {
                assert(artifact_views(before)[a] == artifact_views(after)[a]);
                if b < before.len() {
                    assert(artifact_views(before)[b] == artifact_views(after)[b]);
                }
            }
        }
        Ok(created)
    }

    /// The artifacts of the tenant's job, ordered by format: exactly the
    /// artifacts of the table that belong to the tenant and the job, each as
    /// often as it is there, none with a format that comes after the format
    /// of a later one.
    pub fn list_artifacts(&mut self, tenant_id: Uuid, document_id: i64) -> (listed: Vec<
        DocumentArtifact,
    >)
        requires
            old(self).wf(),
        ensures
            final(self).wf(),
            final(self).session_tenant() == Some(tenant_id),
            final(self).document_rows() == old(self).document_rows(),
            final(self).artifact_rows() == old(self).artifact_rows(),
            final(self).template_rows() == old(self).template_rows(),
            final(self).next_document_id() == old(self).next_document_id(),
            final(self).next_artifact_id() == old(self).next_artifact_id(),
            artifact_views(listed@).to_multiset() == select_artifacts(
                old(self).artifact_rows(),
                tenant_id,
                document_id,
            ).to_multiset(),
            ordered_by_format(artifact_views(listed@)),
            forall|k: int|
                0 <= k < listed@.len() ==> (#[trigger] artifact_views(listed@)[k]).tenant_id
                    == tenant_id && artifact_views(listed@)[k].document_id == document_id,
    {
        self.set_tenant_context(tenant_id);
        let ghost rows = self.artifact_rows();
        let mut listed: Vec<DocumentArtifact> = Vec::new();
        let mut i: usize = 0;
        assert(artifact_views(listed@) =~= select_artifacts(
            rows.subrange(0, 0),
            tenant_id,
            document_id,
        ));
        while i < self.artifacts.len()
            invariant
                i <= self.artifacts@.len(),
                rows == artifact_views(self.artifacts@),
                artifact_views(listed@).to_multiset() == select_artifacts(
                    rows.subrange(0, i as int),
                    tenant_id,
                    document_id,
                ).to_multiset(),
                ordered_by_format(artifact_views(listed@)),
            decreases self.artifacts@.len() - i,
        {
            let row = &self.artifacts[i];
            proof {
                assert(rows.subrange(0, i + 1).drop_last() =~= rows.subrange(0, i as int));
                assert(rows.subrange(0, i + 1).last() == row@);
            }
            if row.tenant_id == tenant_id && row.document_id == document_id {
                let ghost shown = artifact_views(listed@);
                let mut p: usize = 0;
                while p < listed.len() && text_not_after(
                    listed[p].format.as_str(),
                    row.format.as_str(),
                )
                    invariant
                        p <= listed@.len(),
                        shown == artifact_views(listed@),
                        forall|k: int|
                            0 <= k < p ==> text_le((#[trigger] shown[k]).format, row@.format),
                    decreases listed@.len() - p,
                {
                    assert(shown[p as int] == listed@[p as int]@);
                    p += 1;
                }
                let ghost held = listed@;
                listed.insert(p, row.duplicate());
                proof {
                    let after = artifact_views(listed@);
                    assert(after =~= shown.insert(p as int, row@));
                    to_multiset_insert(shown, p as int, row@);
                    to_multiset_build(
                        select_artifacts(rows.subrange(0, i as int), tenant_id, document_id),
                        row@,
                    );
                    if p < held.len() {
                        assert(shown[p as int] == held[p as int]@);
                        lemma_text_le_total(shown[p as int].format, row@.format);
                    }
                    assert forall|x: int, y: int| 0 <= x < y < after.len() implies text_le(
                        (#[trigger] after[x]).format,
                        (#[trigger] after[y]).format,
                    ) by {
                        if y < p {
                            assert(after[x] == shown[x] && after[y] == shown[y]);
                        } else if y == p {
                            assert(after[x] == shown[x]);
                        } else if x < p {
                            assert(after[x] == shown[x] && after[y] == shown[y - 1]);
                        } else if x == p {
                            assert(after[y] == shown[y - 1]);
                            if y - 1 > p {
                                assert(text_le(shown[p as int].format, shown[y - 1].format));
                                lemma_text_le_transitive(
                                    row@.format,
                                    shown[p as int].format,
                                    shown[y - 1].format,
                                );
                            }
                        } else {
                            assert(after[x] == shown[x - 1] && after[y] == shown[y - 1]);
                        }
                    }
                }
            }
            i += 1;
        }
        assert(rows.subrange(0, i as int) =~= rows);
        proof {
            lemma_selected_artifacts(rows, tenant_id, document_id);
            let shown = artifact_views(listed@);
            let chosen = select_artifacts(rows, tenant_id, document_id);
            shown.to_multiset_ensures();
            chosen.to_multiset_ensures();
            assert forall|k: int| 0 <= k < listed@.len() implies (#[trigger] shown[k]).tenant_id
                == tenant_id && shown[k].document_id == document_id by {
                assert(shown.contains(shown[k]));
                assert(shown.to_multiset().count(shown[k]) > 0);
                assert(chosen.to_multiset().count(shown[k]) > 0);
                assert(chosen.contains(shown[k]));
            }
        }
        listed
    }

    /// The tenant's artifact with the given id, if there is one.
    pub fn get_artifact(&mut self, tenant_id: Uuid, artifact_id: i64) -> (found: Option<
        DocumentArtifact,
    >)
        requires
            old(self).wf(),
        ensures
            final(self).wf(),
            final(self).session_tenant() == Some(tenant_id),
            final(self).document_rows() == old(self).document_rows(),
            final(self).artifact_rows() == old(self).artifact_rows(),
            final(self).template_rows() == old(self).template_rows(),
            final(self).next_document_id() == old(self).next_document_id(),
            final(self).next_artifact_id() == old(self).next_artifact_id(),
            match found {
                Some(artifact) => artifact@.id == artifact_id && artifact@.tenant_id == tenant_id
                    && old(self).artifact_rows().contains(artifact@),
                None => forall|k: int|
                    0 <= k < old(self).artifact_rows().len() ==> !((#[trigger] old(
                        self,
                    ).artifact_rows()[k]).id == artifact_id && old(
                        self,
                    ).artifact_rows()[k].tenant_id == tenant_id),
            },
    {
        self.set_tenant_context(tenant_id);
        match self.find_artifact(tenant_id, artifact_id) {
            Some(i) => {
                let artifact = self.artifacts[i].duplicate();
                assert(self.artifact_rows()[i as int] == artifact@);
                Some(artifact)
            },
            None => None,
        }
    }

    /// Deletes the artifacts of the tenant's job and gives their object paths,
    /// in the order in which the artifacts were recorded. No other row changes.
    pub fn delete_artifacts_for_document(&mut self, tenant_id: Uuid, document_id: i64) -> (paths:
        Vec<String>)
        requires
            old(self).wf(),
        ensures
            final(self).wf(),
            final(self).session_tenant() == Some(tenant_id),
            final(self).document_rows() == old(self).document_rows(),
            final(self).template_rows() == old(self).template_rows(),
            final(self).next_document_id() == old(self).next_document_id(),
            final(self).next_artifact_id() == old(self).next_artifact_id(),
            texts(paths@) == artifact_paths(
                select_artifacts(old(self).artifact_rows(), tenant_id, document_id),
            ),
            final(self).artifact_rows() == reject_artifacts(
                old(self).artifact_rows(),
                tenant_id,
                document_id,
            ),
            foreign_artifacts_kept(
                old(self).artifact_rows(),
                final(self).artifact_rows(),
                tenant_id,
            ),
    {
        self.set_tenant_context(tenant_id);
        let ghost rows = self.artifact_rows();
        let mut paths: Vec<String> = Vec::new();
        let mut kept: Vec<DocumentArtifact> = Vec::new();
        let mut i: usize = 0;
        while i < self.artifacts.len()
            invariant
                i <= self.artifacts@.len(),
                rows == artifact_views(self.artifacts@),
                self.wf(),
                rows == self.artifact_rows(),
                texts(paths@) == artifact_paths(
                    select_artifacts(rows.subrange(0, i as int), tenant_id, document_id),
                ),
                artifact_views(kept@) == reject_artifacts(
                    rows.subrange(0, i as int),
                    tenant_id,
                    document_id,
                ),
                kept@.len() <= i,
                forall|k: int|
                    0 <= k < kept@.len() ==> 1 <= (#[trigger] artifact_views(kept@)[k]).id
                        < self.next_artifact_id,
                forall|a: int, b: int|
                    0 <= a < b < kept@.len() ==> (#[trigger] artifact_views(kept@)[a]).id < (
                    #[trigger] artifact_views(kept@)[b]).id,
                forall|k: int, j: int|
                    0 <= k < kept@.len() && i <= j < rows.len() ==> (#[trigger] artifact_views(
                        kept@,
                    )[k]).id < (#[trigger] rows[j]).id,
                artifacts_have_documents(artifact_views(kept@), self.document_rows()),
            decreases self.artifacts@.len() - i,
        {
            let row = &self.artifacts[i];
            proof {
                assert(rows.subrange(0, i + 1).drop_last() =~= rows.subrange(0, i as int));
                assert(rows.subrange(0, i + 1).last() == row@);
                assert(rows[i as int] == row@);
            }
            if row.tenant_id == tenant_id && row.document_id == document_id {
                let ghost given = paths@;
                let ghost chosen = select_artifacts(
                    rows.subrange(0, i as int),
                    tenant_id,
                    document_id,
                );
                paths.push(row.gcs_path.clone());
                assert(texts(paths@) =~= texts(given).push(row@.gcs_path));
                assert(artifact_paths(chosen.push(row@)) =~= artifact_paths(chosen).push(
                    row@.gcs_path,
                ));
            } else {
                let ghost held = kept@;
                kept.push(row.duplicate());
                assert(artifact_views(kept@) =~= artifact_views(held).push(row@));
                assert forall|k: int| 0 <= k < kept@.len() implies 1 <= (
                #[trigger] artifact_views(kept@)[k]).id < self.next_artifact_id by {
                    if k < held.len() {
                        assert(artifact_views(held)[k] == artifact_views(kept@)[k]);
                    }
                }
                assert forall|a: int, b: int| 0 <= a < b < kept@.len() implies (
                #[trigger] artifact_views(kept@)[a]).id < (#[trigger] artifact_views(kept@)[b]).id by {
                    assert(artifact_views(held)[a] == artifact_views(kept@)[a]);
                    if b < held.len() {
                        assert(artifact_views(held)[b] == artifact_views(kept@)[b]);
                    }
                }
                assert forall|k: int, j: int|
                    0 <= k < kept@.len() && i + 1 <= j < rows.len() implies (
                #[trigger] artifact_views(kept@)[k]).id < (#[trigger] rows[j]).id by {
                    if k < held.len() {
                        assert(artifact_views(held)[k] == artifact_views(kept@)[k]);
                    }
                }
                assert forall|k: int| 0 <= k < kept@.len() implies has_document(
                    self.document_rows(),
                    (#[trigger] artifact_views(kept@)[k]).tenant_id,
                    artifact_views(kept@)[k].document_id,
                ) by {
                    if k < held.len() {
                        assert(artifact_views(held)[k] == artifact_views(kept@)[k]);
                    } else {
                        assert(artifact_views(kept@)[k] == rows[i as int]);
                    }
                }
            }
            i += 1;
        }
        assert(rows.subrange(0, i as int) =~= rows);
        proof {
            lemma_rejected_artifacts(rows, tenant_id, document_id);
        }
        self.artifacts = kept;
        paths
    }

    /// Deletes the tenant's job record together with its artifacts, and gives
    /// the object paths of the artifacts so that the objects can be deleted
    /// too. The rows are deleted whatever becomes of the objects. Says whether
    /// there was a record; no row of another tenant changes.
    pub fn delete_document_with_artifacts(&mut self, tenant_id: Uuid, id: i64) -> (out: (
        bool,
        Vec<String>,
    ))
        requires
            old(self).wf(),
        ensures
            final(self).wf(),
            final(self).session_tenant() == Some(tenant_id),
            final(self).template_rows() == old(self).template_rows(),
            final(self).next_document_id() == old(self).next_document_id(),
            final(self).next_artifact_id() == old(self).next_artifact_id(),
            texts(out.1@) == artifact_paths(
                select_artifacts(old(self).artifact_rows(), tenant_id, id),
            ),
            final(self).artifact_rows() == reject_artifacts(
                old(self).artifact_rows(),
                tenant_id,
                id,
            ),
            select_artifacts(final(self).artifact_rows(), tenant_id, id).len() == 0,
            foreign_artifacts_kept(
                old(self).artifact_rows(),
                final(self).artifact_rows(),
                tenant_id,
            ),
            foreign_documents_kept(
                old(self).document_rows(),
                final(self).document_rows(),
                tenant_id,
            ),
            forall|k: int|
                0 <= k < final(self).document_rows().len() ==> !((#[trigger] final(self).document_rows()[k]).id
                    == id && final(self).document_rows()[k].tenant_id == tenant_id),
            out.0 == exists|k: int|
                0 <= k < old(self).document_rows().len() && (#[trigger] old(
                    self,
                ).document_rows()[k]).id == id && old(self).document_rows()[k].tenant_id
                    == tenant_id,
    {
        let ghost artifacts_before = self.artifact_rows();
        let ghost documents_before = self.document_rows();
        let paths = self.delete_artifacts_for_document(tenant_id, id);
        let ghost artifacts_between = self.artifact_rows();
        let deleted = self.delete_document(tenant_id, id);
        proof {
            lemma_nothing_selected_after_reject(artifacts_before, tenant_id, id);
            lemma_reject_without_selection(artifacts_between, tenant_id, id);
            lemma_rejected_artifacts(artifacts_before, tenant_id, id);
            let after = self.document_rows();
            if deleted {
                let i = choose|i: int|
                    {
                        &&& 0 <= i < documents_before.len()
                        &&& (#[trigger] documents_before[i]).id == id
                        &&& documents_before[i].tenant_id == tenant_id
                        &&& after == documents_before.remove(i)
                    };
                assert forall|k: int| 0 <= k < after.len() implies !((#[trigger] after[k]).id == id
                    && after[k].tenant_id == tenant_id) by {
                    let k0 = if k < i {
                        k
                    } else {
                        k + 1
                    };
                    assert(after[k] == documents_before[k0]);
                    if k0 < i {
                        assert(documents_before[k0].id != documents_before[i].id);
                    } else {
                        assert(documents_before[i].id != documents_before[k0].id);
                    }
                }
            }
        }
        (deleted, paths)
    }

    // --------------------------------------------------------
    // document_templates
    // --------------------------------------------------------
    /// Adds a template to the store, after the others.
    pub fn add_template(&mut self, template: DocumentTemplate)
        requires
            old(self).wf(),
        ensures
            final(self).wf(),
            final(self).session_tenant() == old(self).session_tenant(),
            final(self).document_rows() == old(self).document_rows(),
            final(self).artifact_rows() == old(self).artifact_rows(),
            final(self).next_document_id() == old(self).next_document_id(),
            final(self).next_artifact_id() == old(self).next_artifact_id(),
            final(self).template_rows() == old(self).template_rows().push(template@),
    {
        let ghost before = self.templates@;
        self.templates.push(template);
        assert(template_views(self.templates@) =~= template_views(before).push(template@));
    }

    /// The tenant's active template with the given id, if there is one.
    pub fn get_template(&mut self, tenant_id: Uuid, template_id: i64) -> (found: Option<
        DocumentTemplate,
    >)
        requires
            old(self).wf(),
        ensures
            final(self).wf(),
            final(self).session_tenant() == Some(tenant_id),
            final(self).document_rows() == old(self).document_rows(),
            final(self).artifact_rows() == old(self).artifact_rows(),
            final(self).template_rows() == old(self).template_rows(),
            final(self).next_document_id() == old(self).next_document_id(),
            final(self).next_artifact_id() == old(self).next_artifact_id(),
            match found {
                Some(template) => template@.id == template_id && template@.tenant_id == tenant_id
                    && template@.is_active && old(self).template_rows().contains(template@),
                None => forall|k: int|
                    0 <= k < old(self).template_rows().len() ==> !((#[trigger] old(
                        self,
                    ).template_rows()[k]).id == template_id && old(
                        self,
                    ).template_rows()[k].tenant_id == tenant_id && old(
                        self,
                    ).template_rows()[k].is_active),
            },
    {
        self.set_tenant_context(tenant_id);
        match self.find_template(tenant_id, template_id) {
            Some(i) => {
                let template = self.templates[i].duplicate();
                assert(self.template_rows()[i as int] == template@);
                Some(template)
            },
            None => None,
        }
    }

    /// The default template of the tenant for a document type and format: the
    /// most recently updated active one, system or own alike, so that none
    /// was updated later. `None` exactly when the tenant has no active
    /// template for the type and format.
    pub fn get_template_by_type(&mut self, tenant_id: Uuid, template_type: &str, format: &str) -> (found:
        Option<DocumentTemplate>)
        requires
            old(self).wf(),
        ensures
            final(self).wf(),
            final(self).session_tenant() == Some(tenant_id),
            final(self).document_rows() == old(self).document_rows(),
            final(self).artifact_rows() == old(self).artifact_rows(),
            final(self).template_rows() == old(self).template_rows(),
            final(self).next_document_id() == old(self).next_document_id(),
            final(self).next_artifact_id() == old(self).next_artifact_id(),
            match found {
                Some(template) => {
                    &&& template@.is_default_for(tenant_id, template_type@, format@)
                    &&& old(self).template_rows().contains(template@)
                    &&& forall|k: int|
                        0 <= k < old(self).template_rows().len() && (#[trigger] old(
                            self,
                        ).template_rows()[k]).is_default_for(tenant_id, template_type@, format@)
                            ==> !old(self).template_rows()[k].preferred_to(template@)
                },
                None => forall|k: int|
                    0 <= k < old(self).template_rows().len() ==> !(#[trigger] old(
                        self,
                    ).template_rows()[k]).is_default_for(tenant_id, template_type@, format@),
            },
    {
        self.set_tenant_context(tenant_id);
        let ghost rows = self.template_rows();
        let mut best: Option<usize> = None;
        let mut i: usize = 0;
        while i < self.templates.len()
            invariant
                i <= self.templates@.len(),
                rows == template_views(self.templates@),
                match best {
                    Some(b) => {
                        &&& b < i
                        &&& rows[b as int].is_default_for(tenant_id, template_type@, format@)
                        &&& forall|k: int|
                            0 <= k < i && (#[trigger] rows[k]).is_default_for(
                                tenant_id,
                                template_type@,
                                format@,
                            ) ==> !rows[k].preferred_to(rows[b as int])
                    },
                    None => forall|k: int|
                        0 <= k < i ==> !(#[trigger] rows[k]).is_default_for(
                            tenant_id,
                            template_type@,
                            format@,
                        ),
                },
            decreases self.templates@.len() - i,
        {
            let row = &self.templates[i];
            assert(rows[i as int] == row@);
            if row.tenant_id == tenant_id && row.is_active && str_eq(
                row.template_type.as_str(),
                template_type,
            ) && str_eq(row.format.as_str(), format) {
                match best {
                    Some(b) => {
                        assert(rows[b as int] == self.templates@[b as int]@);
                        if row.beats(&self.templates[b]) {
                            best = Some(i);
                        }
                    },
                    None => {
                        best = Some(i);
                    },
                }
            }
            i += 1;
        }
        match best {
            Some(b) => {
                let template = self.templates[b].duplicate();
                assert(rows[b as int] == template@);
                Some(template)
            },
            None => None,
        }
    }
}

} // verus!
