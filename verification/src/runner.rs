//! A generation job run to its end on the record store, with the outcomes of
//! rendering and uploading given beforehand.

use vstd::prelude::*;
use vstd::string::*;
use crate::checksum::checksum_text;
use crate::clock::{spec_format_utc, spec_rfc3339_utc, stamp_pattern, Timestamp};
use crate::gcs::{object_path_text, recorded_size, PendingUpload, UploadResult};
use crate::ident::Uuid;
use crate::persistence::{
    has_document,
    lemma_status_write_keeps_consistency,
    opt_metadata_view,
    select_artifacts,
    DocumentArtifactView,
    DocumentDb,
    DocumentTemplateView,
    GeneratedDocument,
    GeneratedDocumentView,
    StoreError,
};
use crate::pipeline::{
    file_name_text,
    lemma_status_writes_follow_lifecycle,
    lemma_step_keeps_consistency,
    reported_size,
    total_size,
    upload_formats,
    DocumentGenerationRequest,
    DocumentPipeline,
    PipelineAction,
    PipelineError,
    PipelineEvent,
    PipelineRun,
    PipelineStage,
    RenderTarget,
};
use crate::status::JobStatus;
use crate::text::{clone_bytes, opt_text, texts};

verus! {

/// What a run on the store came to: the final job record, or why there is
/// none, and the statuses that were written to the job's record, in order.
#[derive(Debug)]
pub struct RunReport {
    pub result: Result<GeneratedDocument, PipelineError>,
    pub written: Vec<JobStatus>,
}

/// The status that a record has before the write at a position: `Queued`
/// before the first, and then the status written last.
pub open spec fn status_before(written: Seq<JobStatus>, i: int) -> JobStatus {
    if i <= 0 {
        JobStatus::Queued
    } else {
        written[i - 1]
    }
}

/// Whether the statuses written to a queued record follow the lifecycle:
/// each is a move that the job may make from the status before it, so that
/// none is skipped or repeated and nothing follows `Completed` or `Failed`.
pub open spec fn follows_lifecycle(written: Seq<JobStatus>) -> bool {
    forall|i: int|
        0 <= i < written.len() ==> status_before(written, i).can_transition_to(
            #[trigger] written[i],
        )
}

/// The status of a record after all writes.
pub open spec fn last_status(written: Seq<JobStatus>) -> JobStatus {
    status_before(written, written.len() as int)
}

/// A bound on the steps that a run has still to take: it falls with every
/// step.
pub open spec fn steps_left(run: PipelineRun) -> int {
    let n = run.request.requested_formats@.len() as int;
    match run.stage {
        PipelineStage::Finished => 0,
        PipelineStage::MarkingCompleted => 1,
        PipelineStage::MarkingFailed => 1,
        PipelineStage::Persisting => 2 + (n - run.persisted),
        PipelineStage::Uploading => 3 + n + (n - run.uploaded@.len()),
        PipelineStage::MarkingUploading => 4 + 2 * n,
        PipelineStage::Rendering => 5 + 2 * n + (n - run.rendered@.len()),
        PipelineStage::MarkingRendering => 6 + 3 * n,
        PipelineStage::ResolvingTemplate => 7 + 3 * n,
        PipelineStage::MarkingProcessing => 8 + 3 * n,
        PipelineStage::Creating => 9 + 3 * n,
    }
}

/// Every step of a run that has not ended brings it closer to its end.
pub proof fn lemma_step_comes_closer(
    pre: PipelineRun,
    event: PipelineEvent,
    now: Timestamp,
    post: PipelineRun,
    action: PipelineAction,
)
    requires
        pre.consistent(),
        post.follows(pre, event, now, action),
        pre.stage != PipelineStage::Finished,
    ensures
        0 <= steps_left(post) < steps_left(pre),
{
    lemma_step_keeps_consistency(pre, event, now, post, action);
}

/// What is said of a store operation that failed.
pub open spec fn store_error_text(error: StoreError) -> Seq<char> {
    match error {
        StoreError::RowNotFound => "row not found"@,
        StoreError::IdsExhausted => "ids exhausted"@,
        StoreError::InvalidPage => "invalid page"@,
        StoreError::InvalidTransition => "status move not allowed"@,
        StoreError::MissingDocument => "document not found"@,
    }
}

/// What is said of a store operation that failed.
pub fn store_error_message(error: StoreError) -> (message: String)
    ensures
        message@ == store_error_text(error),
{
    match error {
        StoreError::RowNotFound => String::from_str("row not found"),
        StoreError::IdsExhausted => String::from_str("ids exhausted"),
        StoreError::InvalidPage => String::from_str("invalid page"),
        StoreError::InvalidTransition => String::from_str("status move not allowed"),
        StoreError::MissingDocument => String::from_str("document not found"),
    }
}

/// The outcome of the rendering at a position: the one given, or a failure
/// if none is given.
fn render_outcome_at(renders: &Vec<Result<Vec<u8>, String>>, i: usize) -> (outcome: Result<
    Vec<u8>,
    String,
>)
    ensures
        i < renders@.len() && renders@[i as int].is_ok() ==> outcome.is_ok() && outcome.unwrap()@
            == renders@[i as int].unwrap()@,
        !(i < renders@.len() && renders@[i as int].is_ok()) ==> outcome.is_err(),
{
    if i < renders.len() {
        match &renders[i] {
            Ok(bytes) => Ok(clone_bytes(bytes)),
            Err(cause) => Err(cause.clone()),
        }
    } else {
        Err(String::from_str("no outcome"))
    }
}

/// The outcome of the upload at a position: the one given, or a failure if
/// none is given.
fn upload_outcome_at(uploads: &Vec<Result<(), String>>, i: usize) -> (outcome: Result<(), String>)
    ensures
        outcome.is_ok() == (i < uploads@.len() && uploads@[i as int].is_ok()),
{
    if i < uploads.len() {
        match &uploads[i] {
            Ok(_) => Ok(()),
            Err(cause) => Err(cause.clone()),
        }
    } else {
        Err(String::from_str("no outcome"))
    }
}

/// Whether the template of a request can be found: the active template of
/// the tenant with the id that the request names, or, if it names none, an
/// active template of the tenant for the request's document type.
pub open spec fn template_resolves(
    templates: Seq<DocumentTemplateView>,
    req: DocumentGenerationRequest,
) -> bool {
    match req.template_id {
        Some(id) => exists|k: int|
            0 <= k < templates.len() && (#[trigger] templates[k]).id == id
                && templates[k].tenant_id == req.tenant_id && templates[k].is_active,
        None => exists|k: int|
            0 <= k < templates.len() && (#[trigger] templates[k]).is_default_for(
                req.tenant_id,
                req.document_type@,
                "pdf"@,
            ),
    }
}

/// Whether ids are left for the record of a request and for its artifacts,
/// so that the store refuses nothing.
pub open spec fn ids_left(db: DocumentDb, req: DocumentGenerationRequest) -> bool {
    &&& db.next_document_id() < i64::MAX
    &&& db.next_artifact_id() + req.requested_formats@.len() <= i64::MAX
}

/// Whether every outside outcome is in favour of a request: its template can
/// be found, every format it asks for is supported, and every rendering and
/// every upload succeeds.
pub open spec fn outcomes_clear(
    templates: Seq<DocumentTemplateView>,
    req: DocumentGenerationRequest,
    renders: Seq<Result<Vec<u8>, String>>,
    uploads: Seq<Result<(), String>>,
) -> bool {
    let n = req.requested_formats@.len();
    &&& template_resolves(templates, req)
    &&& forall|i: int| 0 <= i < n ==> RenderTarget::of_tag((#[trigger] req.requested_formats@[i])@).is_some()
    &&& renders.len() >= n
    &&& forall|i: int| 0 <= i < n ==> (#[trigger] renders[i]).is_ok()
    &&& uploads.len() >= n
    &&& forall|i: int| 0 <= i < n ==> (#[trigger] uploads[i]).is_ok()
}

/// Whether nothing stands in the way of a request: ids are left, and every
/// outside outcome is in its favour.
pub open spec fn nothing_in_the_way(
    db: DocumentDb,
    req: DocumentGenerationRequest,
    renders: Seq<Result<Vec<u8>, String>>,
    uploads: Seq<Result<(), String>>,
) -> bool {
    ids_left(db, req) && outcomes_clear(db.template_rows(), req, renders, uploads)
}

/// Whether a record is the job of a request under an id.
pub open spec fn is_job_of(
    record: GeneratedDocumentView,
    req: DocumentGenerationRequest,
    id: i64,
) -> bool {
    &&& record.id == id
    &&& record.tenant_id == req.tenant_id
    &&& record.project_id == req.project_id
    &&& record.title == req.title@
}

/// Whether the times that a record has are the time of the run.
pub open spec fn times_at(record: GeneratedDocumentView, now: Timestamp) -> bool {
    &&& record.started_at.is_some() ==> record.started_at == Some(now)
    &&& record.completed_at.is_some() ==> record.completed_at == Some(now)
}

/// The bytes that the rendering at a position gave.
pub open spec fn data_at(renders: Seq<Result<Vec<u8>, String>>, i: int) -> Seq<u8> {
    renders[i]->Ok_0@
}

/// The sum of the recorded sizes of the first `k` renderings.
pub open spec fn total_recorded(renders: Seq<Result<Vec<u8>, String>>, k: int) -> int
    decreases k,
{
    if k <= 0 {
        0
    } else {
        total_recorded(renders, k - 1) + recorded_size(data_at(renders, k - 1).len())
    }
}

/// Whether what is recorded of an upload is what the rendering of the format
/// at a position of the request comes to: the format and its content type,
/// the file name made of the title, the stamp of the time and the format's
/// extension, the object path of that file under the job, and the size and
/// checksum of the rendered bytes.
pub open spec fn upload_is_for(
    upload: UploadResult,
    req: DocumentGenerationRequest,
    id: i64,
    i: int,
    data: Seq<u8>,
    now: Timestamp,
) -> bool {
    let tag = req.requested_formats@[i]@;
    &&& RenderTarget::of_tag(tag) matches Some(target)
    &&& upload.format@ == tag
    &&& upload.content_type@ == target.content_type_text()
    &&& upload.file_name@ == file_name_text(
        req.title@,
        spec_format_utc(now.spec_secs(), now.spec_nanos(), stamp_pattern()),
        target.extension_text(),
    )
    &&& upload.gcs_path@ == object_path_text(req.tenant_id, req.project_id, id, upload.file_name@)
    &&& upload.file_size == recorded_size(data.len())
    &&& upload.sha256_checksum@ == checksum_text(data)
    &&& upload.sha256_checksum@.len() == 64
    &&& upload.rendering_duration_ms == 0
    &&& upload.page_count.is_none()
}

/// Whether an artifact is the record of the rendering of the format at a
/// position of the request: it belongs to the job and its tenant, and holds
/// the format and its content type, the file name and object path, and the
/// size and checksum of the rendered bytes.
pub open spec fn is_artifact_for(
    artifact: DocumentArtifactView,
    req: DocumentGenerationRequest,
    id: i64,
    i: int,
    data: Seq<u8>,
    now: Timestamp,
) -> bool {
    let tag = req.requested_formats@[i]@;
    &&& RenderTarget::of_tag(tag) matches Some(target)
    &&& artifact.tenant_id == req.tenant_id
    &&& artifact.document_id == id
    &&& artifact.format == tag
    &&& artifact.content_type == target.content_type_text()
    &&& artifact.file_name == file_name_text(
        req.title@,
        spec_format_utc(now.spec_secs(), now.spec_nanos(), stamp_pattern()),
        target.extension_text(),
    )
    &&& artifact.gcs_path == object_path_text(req.tenant_id, req.project_id, id, artifact.file_name)
    &&& artifact.file_size == recorded_size(data.len())
    &&& artifact.sha256_checksum == checksum_text(data)
    &&& artifact.sha256_checksum.len() == 64
    &&& artifact.rendering_duration_ms == Some(0i32)
    &&& artifact.page_count.is_none()
}

/// Whether the generation metadata of a record is that of the completed job
/// of a request: the engines, the formats that the request asked for in its
/// order, the sum of the recorded sizes of all renderings, and the time of
/// completion.
pub open spec fn completed_metadata(
    record: GeneratedDocumentView,
    req: DocumentGenerationRequest,
    renders: Seq<Result<Vec<u8>, String>>,
    now: Timestamp,
) -> bool {
    &&& record.generation_metadata matches Some(metadata)
    &&& metadata.rendering_engine == "pandoc-xelatex"@
    &&& metadata.template_engine == "handlebars"@
    &&& metadata.formats_generated == texts(req.requested_formats@)
    &&& metadata.total_size_bytes == reported_size(
        total_recorded(renders, req.requested_formats@.len() as int),
    )
    &&& metadata.completed_at == spec_rfc3339_utc(now.spec_secs(), now.spec_nanos())
}

/// Whether the artifacts of a job are one for each format that the request
/// asked for, in its order, each the record of the rendering of its format.
pub open spec fn artifacts_as_asked(
    artifacts: Seq<DocumentArtifactView>,
    req: DocumentGenerationRequest,
    id: i64,
    renders: Seq<Result<Vec<u8>, String>>,
    now: Timestamp,
) -> bool {
    let selected = select_artifacts(artifacts, req.tenant_id, id);
    &&& selected.len() == req.requested_formats@.len()
    &&& forall|i: int|
        0 <= i < selected.len() ==> is_artifact_for(
            #[trigger] selected[i],
            req,
            id,
            i,
            data_at(renders, i),
            now,
        )
}

/// Whether the file that a run has rendered at a position is what the
/// outcome given for that position comes to.
pub open spec fn rendering_follows(
    run: PipelineRun,
    renders: Seq<Result<Vec<u8>, String>>,
    i: int,
    now: Timestamp,
) -> bool {
    &&& i < renders.len()
    &&& renders[i].is_ok()
    &&& run.is_rendering_of(run.rendered@[i], i, data_at(renders, i), 0, now)
}

/// Whether the upload that a run has made at a position succeeded by the
/// outcome given for it and is that of the rendering at that position.
pub open spec fn upload_follows(
    run: PipelineRun,
    renders: Seq<Result<Vec<u8>, String>>,
    uploads: Seq<Result<(), String>>,
    i: int,
    now: Timestamp,
) -> bool {
    &&& i < uploads.len()
    &&& uploads[i].is_ok()
    &&& upload_is_for(
        run.uploaded@[i],
        run.request,
        run.document_id,
        i,
        data_at(renders, i),
        now,
    )
}

/// Whether what a run has rendered and uploaded so far is what the outcomes
/// given for the first formats of the request come to.
#[verifier::opaque]
pub open spec fn progress_follows(
    run: PipelineRun,
    renders: Seq<Result<Vec<u8>, String>>,
    uploads: Seq<Result<(), String>>,
    now: Timestamp,
) -> bool {
    let formats = run.request.requested_formats@;
    &&& forall|i: int|
        0 <= i < run.rendered@.len() ==> #[trigger] rendering_follows(run, renders, i, now)
    &&& forall|i: int|
        0 <= i < run.uploaded@.len() ==> #[trigger] upload_follows(run, renders, uploads, i, now)
    &&& run.stage == PipelineStage::Uploading ==> run.pending.is_some() && upload_is_for(
        run.pending.unwrap(),
        run.request,
        run.document_id,
        run.uploaded@.len() as int,
        data_at(renders, run.uploaded@.len() as int),
        now,
    )
    &&& run.stage == PipelineStage::Rendering ==> RenderTarget::of_tag(
        formats[run.rendered@.len() as int]@,
    ).is_some()
    &&& run.status == JobStatus::Completed ==> run.rendered@.len() == formats.len()
        && run.uploaded@.len() == formats.len() && run.persisted == formats.len()
}

/// Whether the store holds a job as it should stand: one record under the
/// job's id, of the request, with the given status and its times and error in
/// order, and as many artifacts of the job as were recorded, each the record
/// of the rendering of its format.
#[verifier::opaque]
pub open spec fn rows_hold(
    rows: Seq<GeneratedDocumentView>,
    artifacts: Seq<DocumentArtifactView>,
    next_artifact_id: i64,
    req: DocumentGenerationRequest,
    id: i64,
    status: JobStatus,
    persisted: int,
    first_artifact_id: int,
    renders: Seq<Result<Vec<u8>, String>>,
    now: Timestamp,
) -> bool {
    let selected = select_artifacts(artifacts, req.tenant_id, id);
    &&& has_document(rows, req.tenant_id, id)
    &&& forall|k: int|
        0 <= k < rows.len() && (#[trigger] rows[k]).id == id ==> {
            &&& is_job_of(rows[k], req, id)
            &&& rows[k].status == status
            &&& rows[k].lifecycle_consistent()
            &&& times_at(rows[k], now)
        }
    &&& selected.len() == persisted
    &&& forall|i: int|
        0 <= i < selected.len() ==> is_artifact_for(
            #[trigger] selected[i],
            req,
            id,
            i,
            data_at(renders, i),
            now,
        )
    &&& next_artifact_id == first_artifact_id + persisted
}

/// Whether the store holds a job as it should stand.
pub open spec fn store_holds(
    db: DocumentDb,
    req: DocumentGenerationRequest,
    id: i64,
    status: JobStatus,
    persisted: int,
    first_artifact_id: int,
    renders: Seq<Result<Vec<u8>, String>>,
    now: Timestamp,
) -> bool {
    rows_hold(
        db.document_rows(),
        db.artifact_rows(),
        db.next_artifact_id(),
        req,
        id,
        status,
        persisted,
        first_artifact_id,
        renders,
        now,
    )
}

/// Whether the store holds the job of a run as the run believes it to be.
pub open spec fn store_follows_run(
    db: DocumentDb,
    run: PipelineRun,
    id: i64,
    first_artifact_id: int,
    renders: Seq<Result<Vec<u8>, String>>,
    now: Timestamp,
) -> bool {
    &&& run.document_id == id
    &&& store_holds(
        db,
        run.request,
        id,
        run.status,
        run.persisted as int,
        first_artifact_id,
        renders,
        now,
    )
}

/// Whether the action is what the run asked for at its stage.
pub open spec fn action_fits(run: PipelineRun, action: PipelineAction, now: Timestamp) -> bool {
    match run.stage {
        PipelineStage::Creating => {
            &&& action matches PipelineAction::CreateDocument(input)
            &&& input.tenant_id == run.request.tenant_id
            &&& input.project_id == run.request.project_id
            &&& input.title@ == run.request.title@
        },
        PipelineStage::MarkingProcessing => run.writes_status(action, JobStatus::Processing, None),
        PipelineStage::ResolvingTemplate => match run.request.template_id {
            Some(id) => {
                &&& action matches PipelineAction::GetTemplate { tenant_id, template_id }
                &&& tenant_id == run.request.tenant_id
                &&& template_id == id
            },
            None => {
                &&& action matches PipelineAction::GetTemplateByType {
                    tenant_id,
                    template_type,
                    format,
                }
                &&& tenant_id == run.request.tenant_id
                &&& template_type@ == run.request.document_type@
                &&& format@ == "pdf"@
            },
        },
        PipelineStage::MarkingRendering => run.writes_status(action, JobStatus::Rendering, None),
        PipelineStage::Rendering => action is Render,
        PipelineStage::MarkingUploading => run.writes_status(action, JobStatus::Uploading, None),
        PipelineStage::Uploading => action is Upload,
        PipelineStage::Persisting => run.records_artifact(action),
        PipelineStage::MarkingCompleted => run.writes_completed(action, now),
        PipelineStage::MarkingFailed => {
            &&& action matches PipelineAction::UpdateStatus {
                tenant_id,
                document_id,
                status,
                error_message,
                generation_metadata,
            }
            &&& tenant_id == run.request.tenant_id
            &&& document_id == run.document_id
            &&& status == JobStatus::Failed
            &&& error_message.is_some()
            &&& generation_metadata.is_none()
        },
        PipelineStage::Finished => action is Finish,
    }
}

/// What holds of the final record that a run hands out: it is the job of
/// the request and stands in the store; its status is the last that was
/// written and ends the job; its times and its error are in order; it is
/// completed exactly if every outside outcome was in favour of the request,
/// and then it has its metadata and an artifact for each format; and if it
/// failed it has an error message and no artifact.
pub open spec fn is_final_record(
    document: GeneratedDocumentView,
    db: DocumentDb,
    written: Seq<JobStatus>,
    id: i64,
    templates: Seq<DocumentTemplateView>,
    req: DocumentGenerationRequest,
    renders: Seq<Result<Vec<u8>, String>>,
    uploads: Seq<Result<(), String>>,
    now: Timestamp,
) -> bool {
    &&& is_job_of(document, req, id)
    &&& db.document_rows().contains(document)
    &&& document.status.is_terminal()
    &&& document.status == last_status(written)
    &&& document.lifecycle_consistent()
    &&& document.started_at == Some(now)
    &&& document.completed_at == Some(now)
    &&& document.status == JobStatus::Completed <==> outcomes_clear(templates, req, renders, uploads)
    &&& document.status == JobStatus::Completed ==> completed_metadata(document, req, renders, now)
        && artifacts_as_asked(db.artifact_rows(), req, id, renders, now)
    &&& document.status == JobStatus::Failed ==> document.error_message.is_some()
        && select_artifacts(db.artifact_rows(), req.tenant_id, id).len() == 0
}

/// No artifact that is there belongs to a job whose id has not been given
/// out.
proof fn lemma_no_artifacts_of_a_new_job(db: DocumentDb, tenant_id: Uuid, id: i64)
    requires
        db.wf(),
        id >= db.next_document_id(),
    ensures
        select_artifacts(db.artifact_rows(), tenant_id, id).len() == 0,
{
    let rows = db.artifact_rows();
    assert forall|k: int| 0 <= k < rows.len() implies (#[trigger] rows[k]).document_id != id by {
        let t = rows[k].tenant_id;
        let d = rows[k].document_id;
        assert(has_document(db.document_rows(), t, d));
        let i = choose|i: int|
            0 <= i < db.document_rows().len() && (#[trigger] db.document_rows()[i]).id == d
                && db.document_rows()[i].tenant_id == t;
        assert(db.document_rows()[i].id < db.next_document_id());
    }
    lemma_none_selected(rows, tenant_id, id);
}

/// Where no artifact names a job, none is selected for it.
proof fn lemma_none_selected(rows: Seq<DocumentArtifactView>, tenant_id: Uuid, id: i64)
    requires
        forall|k: int| 0 <= k < rows.len() ==> (#[trigger] rows[k]).document_id != id,
    ensures
        select_artifacts(rows, tenant_id, id).len() == 0,
    decreases rows.len(),
{
    if rows.len() > 0 {
        let front = rows.drop_last();
        assert forall|k: int| 0 <= k < front.len() implies (#[trigger] front[k]).document_id
            != id by {
            assert(front[k] == rows[k]);
        }
        lemma_none_selected(front, tenant_id, id);
        assert(rows.last() == rows[rows.len() - 1]);
    }
}

/// The sum of the recorded sizes of uploads that are what the renderings
/// came to is the sum of the recorded sizes of the renderings.
proof fn lemma_total_recorded(
    uploaded: Seq<UploadResult>,
    renders: Seq<Result<Vec<u8>, String>>,
)
    requires
        forall|i: int|
            0 <= i < uploaded.len() ==> (#[trigger] uploaded[i]).file_size == recorded_size(
                data_at(renders, i).len(),
            ),
    ensures
        total_size(uploaded) == total_recorded(renders, uploaded.len() as int),
    decreases uploaded.len(),
{
    if uploaded.len() > 0 {
        let front = uploaded.drop_last();
        assert forall|i: int| 0 <= i < front.len() implies (#[trigger] front[i]).file_size
            == recorded_size(data_at(renders, i).len()) by {
            assert(front[i] == uploaded[i]);
        }
        lemma_total_recorded(front, renders);
        assert(uploaded.last() == uploaded[uploaded.len() - 1]);
    }
}

/// Adding a status that the last one may become keeps the lifecycle.
proof fn lemma_lifecycle_grows(written: Seq<JobStatus>, status: JobStatus)
    requires
        follows_lifecycle(written),
        last_status(written).can_transition_to(status),
    ensures
        follows_lifecycle(written.push(status)),
        last_status(written.push(status)) == status,
{
    let longer = written.push(status);
    assert forall|i: int| 0 <= i < longer.len() implies status_before(longer, i).can_transition_to(
        #[trigger] longer[i],
    ) by {
        if i < written.len() {
            assert(longer[i] == written[i]);
            if i > 0 {
                assert(longer[i - 1] == written[i - 1]);
            }
        } else if i > 0 {
            assert(longer[i - 1] == written[i - 1]);
        }
    }
}

/// Creates the record of a job on the store.
fn create_step(
    db: &mut DocumentDb,
    input: &crate::persistence::CreateDocumentInput,
    now: Timestamp,
    Ghost(req): Ghost<DocumentGenerationRequest>,
    Ghost(renders): Ghost<Seq<Result<Vec<u8>, String>>>,
) -> (event: PipelineEvent)
    requires
        old(db).wf(),
        input.tenant_id == req.tenant_id,
        input.project_id == req.project_id,
        input.title@ == req.title@,
    ensures
        final(db).wf(),
        final(db).template_rows() == old(db).template_rows(),
        match event {
            PipelineEvent::DocumentCreated(Ok(document)) => {
                &&& document@.id == old(db).next_document_id()
                &&& store_holds(
                    *final(db),
                    req,
                    document@.id,
                    JobStatus::Queued,
                    0,
                    old(db).next_artifact_id() as int,
                    renders,
                    now,
                )
            },
            PipelineEvent::DocumentCreated(Err(_)) => old(db).next_document_id() == i64::MAX,
            _ => false,
        },
{
    let ghost before = *db;
    let ghost rows = db.document_rows();
    let ghost id = db.next_document_id();
    let made = db.create_document(input, now);
    proof {
        reveal(rows_hold);
        if made.is_ok() {
            let document = made->Ok_0;
            let p = choose|p: int|
                {
                    &&& 0 <= p <= rows.len()
                    &&& db.document_rows() == #[trigger] rows.insert(p, document@)
                };
            let after = db.document_rows();
            assert(after[p] == document@);
            assert forall|k: int| 0 <= k < after.len() && (#[trigger] after[k]).id
                == id implies after[k] == document@ by {
                if k < p {
                    assert(after[k] == rows[k]);
                } else if k > p {
                    assert(after[k] == rows[k - 1]);
                }
            }
            lemma_no_artifacts_of_a_new_job(before, req.tenant_id, id);
        }
    }
    PipelineEvent::DocumentCreated(
        match made {
            Ok(document) => Ok(document),
            Err(e) => Err(store_error_message(e)),
        },
    )
}

/// Writes a status to the record of a job on the store.
fn update_step(
    db: &mut DocumentDb,
    tenant_id: Uuid,
    document_id: i64,
    status: JobStatus,
    message: Option<&str>,
    metadata: Option<&crate::persistence::GenerationMetadata>,
    now: Timestamp,
    Ghost(req): Ghost<DocumentGenerationRequest>,
    Ghost(was): Ghost<JobStatus>,
    Ghost(persisted): Ghost<int>,
    Ghost(first_artifact_id): Ghost<int>,
    Ghost(renders): Ghost<Seq<Result<Vec<u8>, String>>>,
) -> (event: PipelineEvent)
    requires
        old(db).wf(),
        tenant_id == req.tenant_id,
        store_holds(*old(db), req, document_id, was, persisted, first_artifact_id, renders, now),
        was.can_transition_to(status),
        message.is_some() <==> status == JobStatus::Failed,
    ensures
        final(db).wf(),
        final(db).template_rows() == old(db).template_rows(),
        event matches PipelineEvent::StatusUpdated(Ok(document)),
        ({
            let document = event->StatusUpdated_0->Ok_0;
            &&& document@.id == document_id
            &&& final(db).document_rows().contains(document@)
            &&& metadata.is_some() ==> document@.generation_metadata == Some(metadata.unwrap()@)
        }),
        store_holds(
            *final(db),
            req,
            document_id,
            status,
            persisted,
            first_artifact_id,
            renders,
            now,
        ),
{
    let ghost rows = db.document_rows();
    let ghost id = document_id;
    let ghost tenant = tenant_id;
    let updated = db.update_document_status(tenant_id, document_id, status, message, metadata, now);
    proof {
        reveal(rows_hold);
        let j = choose|j: int|
            0 <= j < rows.len() && (#[trigger] rows[j]).id == id && rows[j].tenant_id == tenant;
        assert(rows[j].status == was);
        assert(updated.is_ok()) by {
            if updated.is_err() {
                if updated->Err_0 == StoreError::InvalidTransition {
                    let i = choose|i: int|
                        {
                            &&& 0 <= i < rows.len()
                            &&& (#[trigger] rows[i]).id == id
                            &&& rows[i].tenant_id == tenant
                            &&& !rows[i].status.can_transition_to(status)
                        };
                    assert(rows[i].status == was);
                }
            }
        }
        let document = updated->Ok_0;
        let after = db.document_rows();
        let given = match message {
            Some(m) => Some(m@),
            None => None,
        };
        let described = match metadata {
            Some(m) => Some(m@),
            None => None,
        };
        let i = choose|i: int|
            {
                &&& 0 <= i < rows.len()
                &&& (#[trigger] rows[i]).id == id
                &&& rows[i].tenant_id == tenant
                &&& rows[i].status.can_transition_to(status)
                &&& document@ == rows[i].with_status(status, given, described, now)
                &&& after == rows.update(i, document@)
            };
        lemma_status_write_keeps_consistency(rows[i], status, given, described, now);
        assert(is_job_of(document@, req, id));
        assert(times_at(document@, now));
        assert(after[i] == document@);
        assert(after.contains(document@));
        assert forall|k: int| 0 <= k < after.len() && (#[trigger] after[k]).id == id implies after[k]
            == document@ by {
            if k != i {
                assert(after[k] == rows[k]);
                if k < i {
                    assert(rows[k].id != rows[i].id);
                } else {
                    assert(rows[i].id != rows[k].id);
                }
            }
        }
    }
    PipelineEvent::StatusUpdated(
        match updated {
            Ok(document) => Ok(document),
            Err(e) => Err(store_error_message(e)),
        },
    )
}

/// Looks the template of a request up on the store.
fn template_step(
    db: &mut DocumentDb,
    action: &PipelineAction,
    Ghost(req): Ghost<DocumentGenerationRequest>,
) -> (event: PipelineEvent)
    requires
        old(db).wf(),
        match req.template_id {
            Some(id) => {
                &&& *action matches PipelineAction::GetTemplate { tenant_id, template_id }
                &&& tenant_id == req.tenant_id
                &&& template_id == id
            },
            None => {
                &&& *action matches PipelineAction::GetTemplateByType {
                    tenant_id,
                    template_type,
                    format,
                }
                &&& tenant_id == req.tenant_id
                &&& template_type@ == req.document_type@
                &&& format@ == "pdf"@
            },
        },
    ensures
        final(db).wf(),
        final(db).template_rows() == old(db).template_rows(),
        final(db).document_rows() == old(db).document_rows(),
        final(db).artifact_rows() == old(db).artifact_rows(),
        final(db).next_artifact_id() == old(db).next_artifact_id(),
        event matches PipelineEvent::TemplateFetched(Ok(found)),
        event->TemplateFetched_0->Ok_0.is_some() == template_resolves(old(db).template_rows(), req),
{
    let ghost templates = db.template_rows();
    match action {
        PipelineAction::GetTemplate { tenant_id, template_id } => {
            let found = db.get_template(*tenant_id, *template_id);
            proof {
                if found.is_some() {
                    let template = found->Some_0;
                    let k = choose|k: int| 0 <= k < templates.len() && templates[k] == template@;
                    assert(templates[k].id == *template_id);
                    assert(template_resolves(templates, req));
                } else {
                    assert(!template_resolves(templates, req));
                }
            }
            PipelineEvent::TemplateFetched(Ok(found))
        },
        PipelineAction::GetTemplateByType { tenant_id, template_type, format } => {
            let found = db.get_template_by_type(*tenant_id, template_type.as_str(), format.as_str());
            proof {
                if found.is_some() {
                    let template = found->Some_0;
                    let k = choose|k: int| 0 <= k < templates.len() && templates[k] == template@;
                    assert(templates[k].is_default_for(req.tenant_id, req.document_type@, "pdf"@));
                    assert(template_resolves(templates, req));
                } else {
                    assert(!template_resolves(templates, req));
                }
            }
            PipelineEvent::TemplateFetched(Ok(found))
        },
        _ => PipelineEvent::TemplateFetched(Ok(None)),
    }
}

/// Whether what is to be recorded of an upload is what the rendering of the
/// format at a position of the request comes to.
pub open spec fn input_is_for(
    input: crate::persistence::CreateArtifactInput,
    req: DocumentGenerationRequest,
    id: i64,
    i: int,
    data: Seq<u8>,
    now: Timestamp,
) -> bool {
    is_artifact_for(input.recorded(0, now), req, id, i, data, now)
}

/// Records an artifact of a job on the store.
fn artifact_step(
    db: &mut DocumentDb,
    input: &crate::persistence::CreateArtifactInput,
    now: Timestamp,
    Ghost(req): Ghost<DocumentGenerationRequest>,
    Ghost(status): Ghost<JobStatus>,
    Ghost(persisted): Ghost<int>,
    Ghost(first_artifact_id): Ghost<int>,
    Ghost(renders): Ghost<Seq<Result<Vec<u8>, String>>>,
) -> (event: PipelineEvent)
    requires
        old(db).wf(),
        store_holds(
            *old(db),
            req,
            input.document_id,
            status,
            persisted,
            first_artifact_id,
            renders,
            now,
        ),
        input_is_for(*input, req, input.document_id, persisted, data_at(renders, persisted), now),
    ensures
        final(db).wf(),
        final(db).template_rows() == old(db).template_rows(),
        match event {
            PipelineEvent::ArtifactCreated(Ok(_)) => store_holds(
                *final(db),
                req,
                input.document_id,
                status,
                persisted + 1,
                first_artifact_id,
                renders,
                now,
            ),
            PipelineEvent::ArtifactCreated(Err(_)) => {
                &&& old(db).next_artifact_id() == i64::MAX
                &&& store_holds(
                    *final(db),
                    req,
                    input.document_id,
                    status,
                    persisted,
                    first_artifact_id,
                    renders,
                    now,
                )
            },
            _ => false,
        },
{
    let ghost artifacts = db.artifact_rows();
    let ghost id = input.document_id;
    let ghost tenant = req.tenant_id;
    let made = db.create_artifact(input, now);
    proof {
        reveal(rows_hold);
        if made.is_ok() {
            let artifact = made->Ok_0;
            let after = db.artifact_rows();
            let chosen = select_artifacts(artifacts, tenant, id);
            assert(after == artifacts.push(artifact@));
            assert(after.drop_last() =~= artifacts);
            assert(after.last() == artifact@);
            assert(select_artifacts(after, tenant, id) == chosen.push(artifact@));
            assert(is_artifact_for(artifact@, req, id, persisted, data_at(renders, persisted), now));
            assert forall|i: int| 0 <= i < chosen.len() + 1 implies is_artifact_for(
                #[trigger] chosen.push(artifact@)[i],
                req,
                id,
                i,
                data_at(renders, i),
                now,
            ) by {
                if i < chosen.len() {
                    assert(chosen.push(artifact@)[i] == chosen[i]);
                }
            }
        }
    }
    PipelineEvent::ArtifactCreated(
        match made {
            Ok(artifact) => Ok(artifact),
            Err(e) => Err(store_error_message(e)),
        },
    )
}

/// Whether a run and an action are what a step makes of a run and an event.
#[verifier::opaque]
pub open spec fn step_taken(
    pre: PipelineRun,
    event: PipelineEvent,
    now: Timestamp,
    post: PipelineRun,
    action: PipelineAction,
) -> bool {
    post.follows(pre, event, now, action)
}

/// Takes the next step of a run.
fn take_step(run: PipelineRun, event: PipelineEvent, now: Timestamp) -> (out: (
    PipelineRun,
    PipelineAction,
))
    ensures
        step_taken(run, event, now, out.0, out.1),
{
    reveal(step_taken);
    run.advance(event, now)
}

/// A step keeps a run consistent, brings it closer to its end, and ends it
/// exactly when it hands out a result.
proof fn lemma_step_sealed(
    pre: PipelineRun,
    event: PipelineEvent,
    now: Timestamp,
    post: PipelineRun,
    action: PipelineAction,
)
    requires
        pre.consistent(),
        step_taken(pre, event, now, post, action),
        pre.stage != PipelineStage::Finished,
    ensures
        post.consistent(),
        0 <= steps_left(post) < steps_left(pre),
        action is Finish <==> post.stage == PipelineStage::Finished,
{
    reveal(step_taken);
    lemma_step_keeps_consistency(pre, event, now, post, action);
    lemma_step_comes_closer(pre, event, now, post, action);
    lemma_status_writes_follow_lifecycle(pre, event, now, post, action);
}

/// Whether an event says of a rendering or an upload what the outcomes given
/// for it say.
pub open spec fn event_answers(
    pre: PipelineRun,
    event: PipelineEvent,
    renders: Seq<Result<Vec<u8>, String>>,
    uploads: Seq<Result<(), String>>,
) -> bool {
    match event {
        PipelineEvent::Rendered { outcome, duration_ms } => {
            let i = pre.rendered@.len() as int;
            &&& duration_ms == 0
            &&& outcome.is_ok() == (i < renders.len() && renders[i].is_ok())
            &&& outcome.is_ok() ==> outcome.unwrap()@ == data_at(renders, i)
        },
        PipelineEvent::Uploaded(outcome) => {
            let i = pre.uploaded@.len() as int;
            outcome.is_ok() == (i < uploads.len() && uploads[i].is_ok())
        },
        _ => true,
    }
}

/// Whether an event is the answer to the action that was asked for, and no
/// refusal of the store.
pub open spec fn event_is_answer(asked: PipelineAction, event: PipelineEvent) -> bool {
    match asked {
        PipelineAction::CreateDocument(_) => event matches PipelineEvent::DocumentCreated(Ok(_)),
        PipelineAction::UpdateStatus { .. } => event matches PipelineEvent::StatusUpdated(Ok(_)),
        PipelineAction::GetTemplate { .. } => event matches PipelineEvent::TemplateFetched(Ok(_)),
        PipelineAction::GetTemplateByType { .. } => event matches PipelineEvent::TemplateFetched(
            Ok(_),
        ),
        PipelineAction::Render { .. } => event is Rendered,
        PipelineAction::Upload(_) => event is Uploaded,
        PipelineAction::CreateArtifact(_) => event matches PipelineEvent::ArtifactCreated(Ok(_)),
        PipelineAction::Finish(_) => false,
    }
}

/// Whether the template of the request is known to resolve at the point that
/// a run has reached.
pub open spec fn template_known(run: PipelineRun) -> bool {
    run.stage == PipelineStage::MarkingRendering || run.status == JobStatus::Rendering
        || run.status == JobStatus::Uploading || run.status == JobStatus::Completed
}

/// A step keeps what a run has rendered and uploaded in line with the
/// outcomes given.
proof fn lemma_progress_kept(
    pre: PipelineRun,
    event: PipelineEvent,
    now: Timestamp,
    post: PipelineRun,
    action: PipelineAction,
    renders: Seq<Result<Vec<u8>, String>>,
    uploads: Seq<Result<(), String>>,
)
    requires
        pre.consistent(),
        step_taken(pre, event, now, post, action),
        progress_follows(pre, renders, uploads, now),
        event_answers(pre, event, renders, uploads),
    ensures
        progress_follows(post, renders, uploads, now),
{
    reveal(step_taken);
    reveal(progress_follows);
    lemma_step_keeps_consistency(pre, event, now, post, action);
    let req = pre.request;
    assert(post.request == req);
    assert forall|i: int| 0 <= i < post.rendered@.len() implies #[trigger] rendering_follows(
        post,
        renders,
        i,
        now,
    ) by {
        if i < pre.rendered@.len() {
            assert(rendering_follows(pre, renders, i, now));
            if post.rendered@.len() > pre.rendered@.len() {
                assert(post.rendered@.drop_last() == pre.rendered@);
                assert(post.rendered@[i] == post.rendered@.drop_last()[i]);
            }
        } else {
            assert(post.rendered@.drop_last() == pre.rendered@);
            assert(post.rendered@[i] == post.rendered@.last());
        }
    }
    assert forall|i: int| 0 <= i < post.uploaded@.len() implies #[trigger] upload_follows(
        post,
        renders,
        uploads,
        i,
        now,
    ) by {
        if i < pre.uploaded@.len() {
            assert(upload_follows(pre, renders, uploads, i, now));
            assert(post.uploaded@[i] == pre.uploaded@[i]);
        }
    }
    if post.stage == PipelineStage::Uploading {
        let done = post.uploaded@.len() as int;
        assert(rendering_follows(post, renders, done, now));
    }
}

/// After a step the action is what the run asked for at its stage.
proof fn lemma_action_fits(
    pre: PipelineRun,
    event: PipelineEvent,
    now: Timestamp,
    post: PipelineRun,
    action: PipelineAction,
)
    requires
        pre.consistent(),
        step_taken(pre, event, now, post, action),
    ensures
        action_fits(post, action, now),
        post.stage != PipelineStage::Creating,
        post.request == pre.request,
{
    reveal(step_taken);
    lemma_step_keeps_consistency(pre, event, now, post, action);
    lemma_status_writes_follow_lifecycle(pre, event, now, post, action);
}

/// While every outside outcome is in favour of the request, no step makes
/// the job fail.
proof fn lemma_clear_kept(
    pre: PipelineRun,
    event: PipelineEvent,
    now: Timestamp,
    post: PipelineRun,
    action: PipelineAction,
    templates: Seq<DocumentTemplateView>,
    renders: Seq<Result<Vec<u8>, String>>,
    uploads: Seq<Result<(), String>>,
)
    requires
        pre.consistent(),
        step_taken(pre, event, now, post, action),
        progress_follows(pre, renders, uploads, now),
        event_answers(pre, event, renders, uploads),
        outcomes_clear(templates, pre.request, renders, uploads),
        pre.stage != PipelineStage::MarkingFailed,
        pre.status != JobStatus::Failed,
        event matches PipelineEvent::TemplateFetched(Ok(found)) ==> found.is_some(),
    ensures
        post.stage != PipelineStage::MarkingFailed,
        post.status != JobStatus::Failed,
{
    reveal(step_taken);
    reveal(progress_follows);
    lemma_step_keeps_consistency(pre, event, now, post, action);
    let formats = pre.request.requested_formats@;
    if pre.stage == PipelineStage::Rendering {
        assert(renders[pre.rendered@.len() as int].is_ok());
    }
    if pre.stage == PipelineStage::Uploading {
        assert(uploads[pre.uploaded@.len() as int].is_ok());
    }
    if post.rendered@.len() < formats.len() {
        assert(RenderTarget::of_tag(formats[post.rendered@.len() as int]@).is_some());
    }
}

/// A step keeps it known that the template resolves, and makes it known when
/// the template is found.
proof fn lemma_template_known(
    pre: PipelineRun,
    event: PipelineEvent,
    now: Timestamp,
    post: PipelineRun,
    action: PipelineAction,
    resolves: bool,
)
    requires
        pre.consistent(),
        step_taken(pre, event, now, post, action),
        template_known(pre) ==> resolves,
        event matches PipelineEvent::TemplateFetched(Ok(Some(_))) ==> resolves,
    ensures
        template_known(post) ==> resolves,
{
    reveal(step_taken);
}

/// A step that is given the answer to the action asked for, and no refusal
/// of the store, does not end the run without a record.
proof fn lemma_no_error(
    pre: PipelineRun,
    asked: PipelineAction,
    event: PipelineEvent,
    now: Timestamp,
    post: PipelineRun,
    action: PipelineAction,
    renders: Seq<Result<Vec<u8>, String>>,
    uploads: Seq<Result<(), String>>,
)
    requires
        pre.consistent(),
        step_taken(pre, event, now, post, action),
        action_fits(pre, asked, now),
        progress_follows(pre, renders, uploads, now),
        event_is_answer(asked, event),
    ensures
        !(action matches PipelineAction::Finish(Err(_))),
{
    reveal(step_taken);
    reveal(progress_follows);
}

/// What a step does to the run's view of the job: its id is that of the
/// record created, its status changes to the status whose write is
/// acknowledged, and the count of artifacts grows with each one recorded.
proof fn lemma_run_side(
    pre: PipelineRun,
    asked: PipelineAction,
    event: PipelineEvent,
    now: Timestamp,
    post: PipelineRun,
    action: PipelineAction,
)
    requires
        pre.consistent(),
        step_taken(pre, event, now, post, action),
        action_fits(pre, asked, now),
        event_is_answer(asked, event) || (event matches PipelineEvent::DocumentCreated(Err(_)))
            || (event matches PipelineEvent::ArtifactCreated(Err(_))),
    ensures
        match event {
            PipelineEvent::DocumentCreated(Ok(document)) => post.document_id == document.id
                && post.status == JobStatus::Queued && post.persisted == 0,
            PipelineEvent::StatusUpdated(Ok(document)) => {
                &&& post.document_id == pre.document_id
                &&& post.persisted == pre.persisted
                &&& asked matches PipelineAction::UpdateStatus { status, .. }
                &&& post.status == status
                &&& pre.status.can_transition_to(status)
                &&& post.stage == PipelineStage::Finished ==> action == PipelineAction::Finish(
                    Ok(document),
                )
            },
            PipelineEvent::ArtifactCreated(Ok(_)) => post.document_id == pre.document_id
                && post.status == pre.status && post.persisted == pre.persisted + 1,
            _ => post.document_id == pre.document_id && post.status == pre.status
                && post.persisted == pre.persisted,
        },
        action matches PipelineAction::Finish(Ok(_)) ==> (event matches PipelineEvent::StatusUpdated(
            Ok(_),
        )) && post.status.is_terminal(),
        (event matches PipelineEvent::DocumentCreated(Err(_))) || (
        event matches PipelineEvent::ArtifactCreated(Err(_))) ==> post.stage
            == PipelineStage::Finished,
{
    reveal(step_taken);
    lemma_step_keeps_consistency(pre, event, now, post, action);
    lemma_status_writes_follow_lifecycle(pre, event, now, post, action);
}

/// The metadata written with `Completed` is that of the completed job.
proof fn lemma_metadata_written(
    pre: PipelineRun,
    asked: PipelineAction,
    document: GeneratedDocumentView,
    renders: Seq<Result<Vec<u8>, String>>,
    uploads: Seq<Result<(), String>>,
    now: Timestamp,
)
    requires
        pre.consistent(),
        pre.stage == PipelineStage::MarkingCompleted,
        pre.writes_completed(asked, now),
        progress_follows(pre, renders, uploads, now),
        document.generation_metadata == opt_metadata_view(
            asked->UpdateStatus_generation_metadata,
        ),
    ensures
        completed_metadata(document, pre.request, renders, now),
{
    reveal(progress_follows);
    let req = pre.request;
    assert(upload_formats(pre.uploaded@) =~= texts(req.requested_formats@)) by {
        assert forall|i: int| 0 <= i < pre.uploaded@.len() implies upload_formats(
            pre.uploaded@,
        )[i] == texts(req.requested_formats@)[i] by {
            assert(upload_follows(pre, renders, uploads, i, now));
        }
    }
    assert forall|i: int| 0 <= i < pre.uploaded@.len() implies (
    #[trigger] pre.uploaded@[i]).file_size == recorded_size(data_at(renders, i).len()) by {
        assert(upload_follows(pre, renders, uploads, i, now));
    }
    lemma_total_recorded(pre.uploaded@, renders);
}

/// A job that completed had every outside outcome in its favour.
proof fn lemma_completed_was_clear(
    run: PipelineRun,
    templates: Seq<DocumentTemplateView>,
    renders: Seq<Result<Vec<u8>, String>>,
    uploads: Seq<Result<(), String>>,
    now: Timestamp,
)
    requires
        run.status == JobStatus::Completed,
        progress_follows(run, renders, uploads, now),
        template_resolves(templates, run.request),
    ensures
        outcomes_clear(templates, run.request, renders, uploads),
{
    reveal(progress_follows);
    let req = run.request;
    let n = req.requested_formats@.len();
    if n > 0 {
        assert(rendering_follows(run, renders, n - 1, now));
        assert(upload_follows(run, renders, uploads, n - 1, now));
    }
    assert forall|i: int| 0 <= i < n implies RenderTarget::of_tag(
        (#[trigger] req.requested_formats@[i])@,
    ).is_some() by {
        assert(rendering_follows(run, renders, i, now));
    }
    assert forall|i: int| 0 <= i < n implies (#[trigger] renders[i]).is_ok() by {
        assert(rendering_follows(run, renders, i, now));
    }
    assert forall|i: int| 0 <= i < n implies (#[trigger] uploads[i]).is_ok() by {
        assert(upload_follows(run, renders, uploads, i, now));
    }
}

/// What a run asks to record of the upload at the position that it has
/// reached is what the rendering at that position comes to.
proof fn lemma_input_is_for(
    run: PipelineRun,
    asked: PipelineAction,
    renders: Seq<Result<Vec<u8>, String>>,
    uploads: Seq<Result<(), String>>,
    now: Timestamp,
)
    requires
        run.consistent(),
        run.stage == PipelineStage::Persisting,
        run.records_artifact(asked),
        progress_follows(run, renders, uploads, now),
    ensures
        asked matches PipelineAction::CreateArtifact(input),
        ({
            let input = asked->CreateArtifact_0;
            &&& input.document_id == run.document_id
            &&& input_is_for(
                input,
                run.request,
                run.document_id,
                run.persisted as int,
                data_at(renders, run.persisted as int),
                now,
            )
        }),
{
    reveal(progress_follows);
    assert(upload_follows(run, renders, uploads, run.persisted as int, now));
}

/// While the store holds a job as it should stand, the id of the next
/// artifact is that of the first with the count of those recorded added.
proof fn lemma_next_artifact_id(
    db: DocumentDb,
    req: DocumentGenerationRequest,
    id: i64,
    status: JobStatus,
    persisted: int,
    first_artifact_id: int,
    renders: Seq<Result<Vec<u8>, String>>,
    now: Timestamp,
)
    requires
        store_holds(db, req, id, status, persisted, first_artifact_id, renders, now),
    ensures
        db.next_artifact_id() == first_artifact_id + persisted,
{
    reveal(rows_hold);
}

/// A run that has begun has rendered and uploaded nothing, which is in line
/// with every outcome.
proof fn lemma_progress_begins(
    run: PipelineRun,
    renders: Seq<Result<Vec<u8>, String>>,
    uploads: Seq<Result<(), String>>,
    now: Timestamp,
)
    requires
        run.stage == PipelineStage::Creating,
        run.status == JobStatus::Queued,
        run.rendered@.len() == 0,
        run.uploaded@.len() == 0,
    ensures
        progress_follows(run, renders, uploads, now),
{
    reveal(progress_follows);
}

/// The record that a run hands out at its end is the final record of the
/// job.
proof fn lemma_final_record(
    run: PipelineRun,
    document: GeneratedDocumentView,
    db: DocumentDb,
    written: Seq<JobStatus>,
    id: i64,
    first_artifact_id: int,
    templates: Seq<DocumentTemplateView>,
    renders: Seq<Result<Vec<u8>, String>>,
    uploads: Seq<Result<(), String>>,
    now: Timestamp,
)
    requires
        run.consistent(),
        run.stage == PipelineStage::Finished,
        store_follows_run(db, run, id, first_artifact_id, renders, now),
        progress_follows(run, renders, uploads, now),
        last_status(written) == run.status,
        document.id == id,
        db.document_rows().contains(document),
        run.status.is_terminal(),
        run.status == JobStatus::Completed ==> completed_metadata(
            document,
            run.request,
            renders,
            now,
        ),
        template_known(run) ==> template_resolves(templates, run.request),
        outcomes_clear(templates, run.request, renders, uploads) ==> run.status
            != JobStatus::Failed,
    ensures
        is_final_record(
            document,
            db,
            written,
            id,
            templates,
            run.request,
            renders,
            uploads,
            now,
        ),
{
    reveal(rows_hold);
    let rows = db.document_rows();
    let k = choose|k: int| 0 <= k < rows.len() && rows[k] == document;
    assert(rows[k].id == id);
    if run.status == JobStatus::Completed {
        lemma_completed_was_clear(run, templates, renders, uploads, now);
        reveal(progress_follows);
    }
}

/// Runs the job of a request to its end on the store: every action that the
/// pipeline asks for is carried out on the store, and the renderings and
/// uploads come to what the given outcomes say, in the order of the requested
/// formats. Every reading of the clock is `now`.
///
/// The statuses written follow the lifecycle. The run ends without a final
/// record only if the store refuses an operation, which it does not while
/// ids are left. The final record is what `is_final_record` says.
pub fn run_on_store(
    pipeline: &DocumentPipeline,
    db: &mut DocumentDb,
    req: DocumentGenerationRequest,
    renders: &Vec<Result<Vec<u8>, String>>,
    uploads: &Vec<Result<(), String>>,
    now: Timestamp,
) -> (report: RunReport)
    requires
        old(db).wf(),
    ensures
        final(db).wf(),
        final(db).template_rows() == old(db).template_rows(),
        follows_lifecycle(report.written@),
        ids_left(*old(db), req) ==> report.result.is_ok(),
        report.result matches Ok(document) ==> is_final_record(
            document@,
            *final(db),
            report.written@,
            old(db).next_document_id(),
            old(db).template_rows(),
            req,
            renders@,
            uploads@,
            now,
        ),
{
    let ghost ids = ids_left(*db, req);
    let ghost id = db.next_document_id();
    let ghost first_artifact_id = db.next_artifact_id() as int;
    let ghost templates = db.template_rows();
    let ghost clear = outcomes_clear(templates, req, renders@, uploads@);
    let ghost resolves = template_resolves(templates, req);
    let ghost mut created = false;
    let mut written: Vec<JobStatus> = Vec::new();
    let started = pipeline.process(req);
    let mut run = started.0;
    let mut action = started.1;
    proof {
        lemma_progress_begins(run, renders@, uploads@, now);
    }
    loop
        invariant
            db.wf(),
            run.consistent(),
            action is Finish <==> run.stage == PipelineStage::Finished,
            run.request == req,
            db.template_rows() == templates,
            templates == old(db).template_rows(),
            id == old(db).next_document_id(),
            ids == ids_left(*old(db), req),
            first_artifact_id == old(db).next_artifact_id(),
            clear == outcomes_clear(templates, req, renders@, uploads@),
            resolves == template_resolves(templates, req),
            follows_lifecycle(written@),
            last_status(written@) == run.status,
            action_fits(run, action, now),
            progress_follows(run, renders@, uploads@, now),
            run.stage == PipelineStage::Creating ==> !created && db.next_document_id() == id
                && db.next_artifact_id() == first_artifact_id,
            run.stage != PipelineStage::Creating && run.stage != PipelineStage::Finished
                ==> created,
            created ==> store_follows_run(*db, run, id, first_artifact_id, renders@, now),
            template_known(run) ==> resolves,
            clear ==> run.stage != PipelineStage::MarkingFailed && run.status != JobStatus::Failed,
            ids ==> !(action matches PipelineAction::Finish(Err(_))),
            action matches PipelineAction::Finish(Ok(document)) ==> {
                &&& created
                &&& document@.id == id
                &&& db.document_rows().contains(document@)
                &&& run.status.is_terminal()
                &&& run.status == JobStatus::Completed ==> completed_metadata(
                    document@,
                    req,
                    renders@,
                    now,
                )
            },
        decreases steps_left(run),
    {
        let asked = match action {
            PipelineAction::Finish(result) => {
                proof {
                    if result.is_ok() {
                        lemma_final_record(
                            run,
                            result->Ok_0@,
                            *db,
                            written@,
                            id,
                            first_artifact_id,
                            templates,
                            renders@,
                            uploads@,
                            now,
                        );
                    }
                }
                return RunReport { result, written };
            },
            other => other,
        };
        let ghost before = *db;
        let ghost was_written = written@;
        let ghost mut completed_written = false;
        let event = match &asked {
            PipelineAction::CreateDocument(input) => {
                proof {
                    assert(run.stage == PipelineStage::Creating);
                }
                let event = create_step(db, input, now, Ghost(req), Ghost(renders@));
                proof {
                    if event matches PipelineEvent::DocumentCreated(Ok(_)) {
                        created = true;
                    }
                    if ids {
                        assert(event matches PipelineEvent::DocumentCreated(Ok(_)));
                    }
                }
                event
            },
            PipelineAction::UpdateStatus {
                tenant_id,
                document_id,
                status,
                error_message,
                generation_metadata,
            } => {
                let message = match error_message {
                    Some(m) => Some(m.as_str()),
                    None => None,
                };
                let metadata = match generation_metadata {
                    Some(m) => Some(m),
                    None => None,
                };
                proof {
                    assert(run.stage.writing() == Some(*status));
                    assert(run.status.can_transition_to(*status));
                    lemma_lifecycle_grows(was_written, *status);
                }
                let event = update_step(
                    db,
                    *tenant_id,
                    *document_id,
                    *status,
                    message,
                    metadata,
                    now,
                    Ghost(req),
                    Ghost(run.status),
                    Ghost(run.persisted as int),
                    Ghost(first_artifact_id),
                    Ghost(renders@),
                );
                proof {
                    if *status == JobStatus::Completed {
                        lemma_metadata_written(
                            run,
                            asked,
                            event->StatusUpdated_0->Ok_0@,
                            renders@,
                            uploads@,
                            now,
                        );
                        completed_written = true;
                    }
                }
                written.push(*status);
                event
            },
            PipelineAction::GetTemplate { .. } => template_step(db, &asked, Ghost(req)),
            PipelineAction::GetTemplateByType { .. } => template_step(db, &asked, Ghost(req)),
            PipelineAction::Render { .. } => PipelineEvent::Rendered {
                outcome: render_outcome_at(renders, run.rendered.len()),
                duration_ms: 0,
            },
            PipelineAction::Upload(_) => PipelineEvent::Uploaded(
                upload_outcome_at(uploads, run.uploaded.len()),
            ),
            PipelineAction::CreateArtifact(input) => {
                proof {
                    assert(run.stage == PipelineStage::Persisting);
                    lemma_input_is_for(run, asked, renders@, uploads@, now);
                    lemma_next_artifact_id(
                        *db,
                        req,
                        id,
                        run.status,
                        run.persisted as int,
                        first_artifact_id,
                        renders@,
                        now,
                    );
                }
                let event = artifact_step(
                    db,
                    input,
                    now,
                    Ghost(req),
                    Ghost(run.status),
                    Ghost(run.persisted as int),
                    Ghost(first_artifact_id),
                    Ghost(renders@),
                );
                proof {
                    if ids {
                        assert(event matches PipelineEvent::ArtifactCreated(Ok(_)));
                    }
                }
                event
            },
            PipelineAction::Finish(_) => PipelineEvent::Uploaded(Ok(())),
        };
        let ghost pre = run;
        let ghost seen = event;
        let next = take_step(run, event, now);
        proof {
            let post = next.0;
            lemma_step_sealed(pre, seen, now, post, next.1);
            lemma_action_fits(pre, seen, now, post, next.1);
            lemma_progress_kept(pre, seen, now, post, next.1, renders@, uploads@);
            lemma_template_known(pre, seen, now, post, next.1, resolves);
            lemma_run_side(pre, asked, seen, now, post, next.1);
            if clear {
                lemma_clear_kept(pre, seen, now, post, next.1, templates, renders@, uploads@);
            }
            if ids {
                assert(event_is_answer(asked, seen));
                lemma_no_error(pre, asked, seen, now, post, next.1, renders@, uploads@);
            }
            assert(last_status(written@) == post.status);
            if created {
                assert(store_follows_run(*db, post, id, first_artifact_id, renders@, now));
            }
        }
        run = next.0;
        action = next.1;
    }
}

} // verus!
