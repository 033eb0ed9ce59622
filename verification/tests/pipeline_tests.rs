use document_generation_service::checksum::sha256_hex;
use document_generation_service::clock::Timestamp;
use document_generation_service::gcs::{DocumentStorage, UploadRequest};
use document_generation_service::ident::Uuid;
use document_generation_service::persistence::{
    DocumentArtifact, DocumentDb, DocumentTemplate, GeneratedDocument,
};
use document_generation_service::pipeline::{
    acknowledges, generation_metadata, rendered_file_name, sanitize_title, DocumentGenerationRequest,
    DocumentPipeline, PipelineAction, PipelineError, PipelineEvent, PipelineRun, PipelineStage,
    RenderTarget,
};
use document_generation_service::status::JobStatus;

fn tenant() -> Uuid {
    Uuid::from_u128(0x7e4a47)
}

fn at(secs: i64) -> Timestamp {
    Timestamp::from_parts(secs, 0).unwrap()
}

fn request(template_id: Option<i64>, formats: &[&str]) -> DocumentGenerationRequest {
    DocumentGenerationRequest {
        tenant_id: tenant(),
        project_id: 7,
        template_id,
        correlation_id: None,
        title: String::from("Alpha Spec"),
        document_type: String::from("srs"),
        requested_formats: formats.iter().map(|f| String::from(*f)).collect(),
        input_params: serde_json::from_str("{\"name\": \"Alpha\"}").unwrap(),
        requested_by: 3,
    }
}

fn template(id: i64, doc_type: &str, format: &str, content: &str) -> DocumentTemplate {
    DocumentTemplate {
        id,
        tenant_id: tenant(),
        name: String::from("t"),
        description: None,
        template_type: String::from(doc_type),
        format: String::from(format),
        template_content: String::from(content),
        schema_version: String::from("1"),
        is_system: true,
        is_active: true,
        created_by: 1,
        created_at: at(0),
        updated_at: at(0),
    }
}

/// What a run of the pipeline against the store left behind.
struct Outcome {
    result: Result<GeneratedDocument, PipelineError>,
    run: PipelineRun,
    statuses: Vec<JobStatus>,
    lookups: Vec<String>,
    rendered_templates: Vec<String>,
    uploads: Vec<UploadRequest>,
}

/// Carries out every action of a run against the store, with the given
/// renderer and uploader standing in for the outside capabilities.
fn drive(
    db: &mut DocumentDb,
    req: DocumentGenerationRequest,
    render: &dyn Fn(&str, RenderTarget, &str) -> Result<Vec<u8>, String>,
    upload: &dyn Fn(&UploadRequest) -> Result<(), String>,
) -> Outcome {
    let pipeline = DocumentPipeline::new(DocumentStorage::new());
    let (mut run, mut action) = pipeline.process(req);
    let mut statuses = Vec::new();
    let mut lookups = Vec::new();
    let mut rendered_templates = Vec::new();
    let mut uploads = Vec::new();
    let now = at(0);
    for _ in 0..1000 {
        let event = match action {
            PipelineAction::CreateDocument(input) => PipelineEvent::DocumentCreated(
                db.create_document(&input, now).map_err(|e| format!("{:?}", e)),
            ),
            PipelineAction::UpdateStatus {
                tenant_id,
                document_id,
                status,
                error_message,
                generation_metadata,
            } => {
                statuses.push(status);
                PipelineEvent::StatusUpdated(
                    db.update_document_status(
                        tenant_id,
                        document_id,
                        status,
                        error_message.as_deref(),
                        generation_metadata.as_ref(),
                        now,
                    )
                    .map_err(|e| format!("{:?}", e)),
                )
            }
            PipelineAction::GetTemplate { tenant_id, template_id } => {
                lookups.push(format!("id:{}", template_id));
                PipelineEvent::TemplateFetched(Ok(db.get_template(tenant_id, template_id)))
            }
            PipelineAction::GetTemplateByType { tenant_id, template_type, format } => {
                lookups.push(format!("type:{}:{}", template_type, format));
                PipelineEvent::TemplateFetched(Ok(db.get_template_by_type(
                    tenant_id,
                    &template_type,
                    &format,
                )))
            }
            PipelineAction::Render { format, target, template_content, .. } => {
                rendered_templates.push(template_content.clone());
                PipelineEvent::Rendered {
                    outcome: render(&format, target, &template_content),
                    duration_ms: 7,
                }
            }
            PipelineAction::Upload(request) => {
                let outcome = upload(&request);
                uploads.push(request);
                PipelineEvent::Uploaded(outcome)
            }
            PipelineAction::CreateArtifact(input) => PipelineEvent::ArtifactCreated(
                db.create_artifact(&input, now).map_err(|e| format!("{:?}", e)),
            ),
            PipelineAction::Finish(result) => {
                return Outcome { result, run, statuses, lookups, rendered_templates, uploads };
            }
        };
        let next = run.advance(event, now);
        run = next.0;
        action = next.1;
    }
    panic!("the run did not end");
}

fn render_ok(format: &str, _target: RenderTarget, template: &str) -> Result<Vec<u8>, String> {
    Ok(format!("{}:{}", format, template).into_bytes())
}

fn upload_ok(_request: &UploadRequest) -> Result<(), String> {
    Ok(())
}

fn artifacts_of(db: &mut DocumentDb, document_id: i64) -> Vec<DocumentArtifact> {
    db.list_artifacts(tenant(), document_id)
}

#[test]
fn end_to_end_two_formats_complete_with_two_artifacts() {
    let mut db = DocumentDb::new();
    db.add_template(template(1, "srs", "pdf", "# {{name}}"));
    let out = drive(&mut db, request(None, &["markdown", "html"]), &render_ok, &upload_ok);
    let doc = out.result.unwrap();
    assert_eq!(doc.status, JobStatus::Completed);
    assert!(doc.error_message.is_none());
    assert!(doc.started_at.is_some());
    assert!(doc.completed_at.is_some());
    let artifacts = artifacts_of(&mut db, doc.id);
    assert_eq!(artifacts.len(), 2);
    assert_eq!(artifacts[0].format, "html");
    assert_eq!(artifacts[1].format, "markdown");
    assert_eq!(artifacts[0].content_type, "text/html; charset=utf-8");
    assert_eq!(artifacts[1].content_type, "text/markdown; charset=utf-8");
    assert_eq!(artifacts[0].file_name, "Alpha_Spec_19700101_000000.html");
    assert_eq!(artifacts[1].file_name, "Alpha_Spec_19700101_000000.md");
    for a in &artifacts {
        assert_eq!(a.sha256_checksum.len(), 64);
        assert_eq!(a.tenant_id, tenant());
        assert_eq!(a.document_id, doc.id);
        assert_eq!(a.rendering_duration_ms, Some(7));
        assert_eq!(a.page_count, None);
    }
    assert_eq!(
        artifacts[1].gcs_path,
        format!(
            "00000000-0000-0000-0000-0000007e4a47/documents/7/{}/Alpha_Spec_19700101_000000.md",
            doc.id
        )
    );
    let metadata = doc.generation_metadata.unwrap();
    assert_eq!(metadata.rendering_engine, "pandoc-xelatex");
    assert_eq!(metadata.template_engine, "handlebars");
    assert_eq!(metadata.formats_generated, vec![String::from("markdown"), String::from("html")]);
    let expected_total = "markdown:# {{name}}".len() + "html:# {{name}}".len();
    assert_eq!(metadata.total_size_bytes, expected_total as i64);
    assert!(metadata.total_size_bytes > 0);
    assert_eq!(metadata.completed_at, "1970-01-01T00:00:00+00:00");
    assert_eq!(out.run.stage, PipelineStage::Finished);
    assert_eq!(out.run.status, JobStatus::Completed);
    assert_eq!(out.run.persisted, 2);
}

#[test]
fn status_writes_follow_the_lifecycle_on_success() {
    let mut db = DocumentDb::new();
    db.add_template(template(1, "srs", "pdf", "t"));
    let out = drive(&mut db, request(None, &["pdf"]), &render_ok, &upload_ok);
    assert_eq!(
        out.statuses,
        vec![
            JobStatus::Processing,
            JobStatus::Rendering,
            JobStatus::Uploading,
            JobStatus::Completed
        ]
    );
}

#[test]
fn checksum_recorded_is_that_of_the_uploaded_bytes() {
    let mut db = DocumentDb::new();
    db.add_template(template(1, "srs", "pdf", "t"));
    let out = drive(&mut db, request(None, &["pdf", "html"]), &render_ok, &upload_ok);
    let doc = out.result.unwrap();
    let artifacts = artifacts_of(&mut db, doc.id);
    assert_eq!(out.uploads.len(), 2);
    for upload in out.uploads.iter() {
        let artifact = artifacts.iter().find(|a| a.gcs_path == upload.object_name).unwrap();
        assert_eq!(artifact.sha256_checksum, sha256_hex(&upload.data));
        assert_eq!(artifact.file_size, upload.data.len() as i64);
        assert_eq!(upload.content_length, upload.data.len() as u64);
        assert_eq!(upload.bucket, "mcxtest-attachments");
    }
    assert_eq!(out.uploads[0].data, b"pdf:t".to_vec());
}

#[test]
fn one_failing_format_fails_the_job_with_no_artifacts() {
    let mut db = DocumentDb::new();
    db.add_template(template(1, "srs", "pdf", "t"));
    let render = |format: &str, target: RenderTarget, template: &str| {
        if format == "pdf" {
            Err(String::from("xelatex exited with 1"))
        } else {
            render_ok(format, target, template)
        }
    };
    let out = drive(&mut db, request(None, &["html", "pdf"]), &render, &upload_ok);
    let doc = out.result.unwrap();
    assert_eq!(doc.status, JobStatus::Failed);
    assert_eq!(doc.error_message.as_deref(), Some("Rendering failed: xelatex exited with 1"));
    assert!(doc.completed_at.is_some());
    assert!(doc.generation_metadata.is_none());
    assert!(artifacts_of(&mut db, doc.id).is_empty());
    assert!(out.uploads.is_empty());
    assert_eq!(
        out.statuses,
        vec![JobStatus::Processing, JobStatus::Rendering, JobStatus::Failed]
    );
    assert_eq!(out.run.persisted, 0);
}

#[test]
fn explicit_template_is_used_without_falling_back() {
    let mut db = DocumentDb::new();
    db.add_template(template(42, "other", "html", "explicit content"));
    db.add_template(template(1, "srs", "pdf", "default content"));
    let out = drive(&mut db, request(Some(42), &["html"]), &render_ok, &upload_ok);
    assert_eq!(out.lookups, vec![String::from("id:42")]);
    assert_eq!(out.rendered_templates, vec![String::from("explicit content")]);
    assert_eq!(out.result.unwrap().status, JobStatus::Completed);
}

#[test]
fn default_template_is_looked_up_by_type_and_pdf() {
    let mut db = DocumentDb::new();
    db.add_template(template(1, "srs", "pdf", "default content"));
    let out = drive(&mut db, request(None, &["html"]), &render_ok, &upload_ok);
    assert_eq!(out.lookups, vec![String::from("type:srs:pdf")]);
    assert_eq!(out.rendered_templates, vec![String::from("default content")]);
}

#[test]
fn missing_default_template_fails_the_job() {
    let mut db = DocumentDb::new();
    db.add_template(template(1, "drd", "pdf", "other type"));
    let out = drive(&mut db, request(None, &["html"]), &render_ok, &upload_ok);
    let doc = out.result.unwrap();
    assert_eq!(doc.status, JobStatus::Failed);
    assert_eq!(
        doc.error_message.as_deref(),
        Some("No default template found for document type")
    );
    assert_eq!(out.statuses, vec![JobStatus::Processing, JobStatus::Failed]);
    assert!(out.rendered_templates.is_empty());
    assert!(artifacts_of(&mut db, doc.id).is_empty());
}

#[test]
fn missing_explicit_template_fails_the_job() {
    let mut db = DocumentDb::new();
    db.add_template(template(1, "srs", "pdf", "default content"));
    let out = drive(&mut db, request(Some(42), &["html"]), &render_ok, &upload_ok);
    let doc = out.result.unwrap();
    assert_eq!(doc.status, JobStatus::Failed);
    assert_eq!(doc.error_message.as_deref(), Some("Requested template not found"));
    assert_eq!(out.lookups, vec![String::from("id:42")]);
}

#[test]
fn unsupported_format_fails_the_whole_job() {
    let mut db = DocumentDb::new();
    db.add_template(template(1, "srs", "pdf", "t"));
    let out = drive(&mut db, request(None, &["html", "docx", "pdf"]), &render_ok, &upload_ok);
    let doc = out.result.unwrap();
    assert_eq!(doc.status, JobStatus::Failed);
    assert_eq!(
        doc.error_message.as_deref(),
        Some("Rendering failed: Unsupported format: docx")
    );
    assert_eq!(out.rendered_templates.len(), 1);
    assert!(out.uploads.is_empty());
    assert!(artifacts_of(&mut db, doc.id).is_empty());
}

#[test]
fn upload_failure_fails_the_job_with_no_artifacts() {
    let mut db = DocumentDb::new();
    db.add_template(template(1, "srs", "pdf", "t"));
    let upload = |request: &UploadRequest| {
        if request.object_name.ends_with(".html") {
            Err(String::from("503"))
        } else {
            Ok(())
        }
    };
    let out = drive(&mut db, request(None, &["markdown", "html", "pdf"]), &render_ok, &upload);
    let doc = out.result.unwrap();
    assert_eq!(doc.status, JobStatus::Failed);
    let path = format!(
        "00000000-0000-0000-0000-0000007e4a47/documents/7/{}/Alpha_Spec_19700101_000000.html",
        doc.id
    );
    assert_eq!(
        doc.error_message,
        Some(format!(
            "GCS upload failed: Failed to upload Alpha_Spec_19700101_000000.html to GCS path {}: 503",
            path
        ))
    );
    assert_eq!(out.uploads.len(), 2);
    assert!(artifacts_of(&mut db, doc.id).is_empty());
    assert_eq!(
        out.statuses,
        vec![
            JobStatus::Processing,
            JobStatus::Rendering,
            JobStatus::Uploading,
            JobStatus::Failed
        ]
    );
}

#[test]
fn no_requested_format_completes_with_nothing() {
    let mut db = DocumentDb::new();
    db.add_template(template(1, "srs", "pdf", "t"));
    let out = drive(&mut db, request(None, &[]), &render_ok, &upload_ok);
    let doc = out.result.unwrap();
    assert_eq!(doc.status, JobStatus::Completed);
    let metadata = doc.generation_metadata.unwrap();
    assert!(metadata.formats_generated.is_empty());
    assert_eq!(metadata.total_size_bytes, 0);
    assert!(artifacts_of(&mut db, doc.id).is_empty());
}

#[test]
fn failure_to_create_the_record_ends_the_run_with_an_error() {
    let pipeline = DocumentPipeline::new(DocumentStorage::new());
    let (run, action) = pipeline.process(request(None, &["pdf"]));
    assert!(matches!(action, PipelineAction::CreateDocument(_)));
    assert_eq!(run.stage, PipelineStage::Creating);
    let (run, action) =
        run.advance(PipelineEvent::DocumentCreated(Err(String::from("pool closed"))), at(0));
    assert_eq!(run.stage, PipelineStage::Finished);
    match action {
        PipelineAction::Finish(Err(e)) => {
            assert!(matches!(e, PipelineError::CreateFailed(_)));
            assert_eq!(e.to_string(), "Failed to create document record: pool closed");
        }
        _ => panic!("expected the run to end with an error"),
    }
}

#[test]
fn failure_to_write_a_status_ends_the_run_with_an_error() {
    let mut db = DocumentDb::new();
    let pipeline = DocumentPipeline::new(DocumentStorage::new());
    let (run, action) = pipeline.process(request(None, &["pdf"]));
    let input = match action {
        PipelineAction::CreateDocument(input) => input,
        _ => panic!("expected the creation of the record"),
    };
    let doc = db.create_document(&input, at(0)).unwrap();
    let (run, action) = run.advance(PipelineEvent::DocumentCreated(Ok(doc)), at(0));
    assert!(matches!(
        action,
        PipelineAction::UpdateStatus { status: JobStatus::Processing, .. }
    ));
    let (run, action) =
        run.advance(PipelineEvent::StatusUpdated(Err(String::from("deadlock"))), at(0));
    assert_eq!(run.stage, PipelineStage::Finished);
    assert_eq!(run.status, JobStatus::Queued);
    match action {
        PipelineAction::Finish(Err(e)) => {
            assert!(matches!(e, PipelineError::StatusUpdateFailed(_)));
            assert_eq!(e.to_string(), "deadlock");
        }
        _ => panic!("expected the run to end with an error"),
    }
}

#[test]
fn failure_to_record_an_artifact_ends_the_run_with_an_error() {
    let mut db = DocumentDb::new();
    db.add_template(template(1, "srs", "pdf", "t"));
    let pipeline = DocumentPipeline::new(DocumentStorage::new());
    let (mut run, mut action) = pipeline.process(request(None, &["html"]));
    let now = at(0);
    loop {
        let event = match action {
            PipelineAction::CreateDocument(input) => {
                PipelineEvent::DocumentCreated(Ok(db.create_document(&input, now).unwrap()))
            }
            PipelineAction::UpdateStatus { tenant_id, document_id, status, .. } => {
                PipelineEvent::StatusUpdated(Ok(db
                    .update_document_status(tenant_id, document_id, status, None, None, now)
                    .unwrap()))
            }
            PipelineAction::GetTemplateByType { tenant_id, template_type, format } => {
                PipelineEvent::TemplateFetched(Ok(db.get_template_by_type(
                    tenant_id,
                    &template_type,
                    &format,
                )))
            }
            PipelineAction::Render { .. } => {
                PipelineEvent::Rendered { outcome: Ok(vec![1, 2, 3]), duration_ms: 1 }
            }
            PipelineAction::Upload(_) => PipelineEvent::Uploaded(Ok(())),
            PipelineAction::CreateArtifact(_) => break,
            _ => panic!("unexpected action"),
        };
        let next = run.advance(event, now);
        run = next.0;
        action = next.1;
    }
    assert_eq!(run.stage, PipelineStage::Persisting);
    let (run, action) =
        run.advance(PipelineEvent::ArtifactCreated(Err(String::from("unique violation"))), now);
    assert_eq!(run.stage, PipelineStage::Finished);
    match action {
        PipelineAction::Finish(Err(e)) => {
            assert!(matches!(e, PipelineError::ArtifactPersistFailed { .. }));
            assert_eq!(
                e.to_string(),
                "Failed to persist artifact metadata for html: unique violation"
            );
        }
        _ => panic!("expected the run to end with an error"),
    }
}

#[test]
fn an_event_that_answers_nothing_ends_the_run() {
    let pipeline = DocumentPipeline::new(DocumentStorage::new());
    let (run, _) = pipeline.process(request(None, &["pdf"]));
    let (run, action) = run.advance(PipelineEvent::Uploaded(Ok(())), at(0));
    assert_eq!(run.stage, PipelineStage::Finished);
    match action {
        PipelineAction::Finish(Err(e)) => {
            assert!(matches!(e, PipelineError::UnexpectedEvent));
            assert_eq!(e.to_string(), "Unexpected pipeline event");
        }
        _ => panic!("expected the run to end with an error"),
    }
    let (run, action) = run.advance(PipelineEvent::Uploaded(Ok(())), at(0));
    assert_eq!(run.stage, PipelineStage::Finished);
    assert!(matches!(action, PipelineAction::Finish(Err(PipelineError::UnexpectedEvent))));
}

#[test]
fn sanitized_titles_keep_only_safe_characters() {
    assert_eq!(sanitize_title("Alpha Spec"), "Alpha_Spec");
    assert_eq!(sanitize_title("a/b\\c:d*e?f\"g<h>i|j"), "a_b_c_d_e_f_g_h_i_j");
    assert_eq!(sanitize_title("keep-this_one9"), "keep-this_one9");
    assert_eq!(sanitize_title(""), "");
    assert_eq!(sanitize_title("../../etc/passwd"), "______etc_passwd");
    assert_eq!(sanitize_title("Ünïcode Tïtle №5"), "Ünïcode_Tïtle__5");
    assert_eq!(sanitize_title("tab\there\nnewline"), "tab_here_newline");
    for title in ["Alpha Spec", "a/b", "x y z", "závěr 2024!"] {
        let name = sanitize_title(title);
        assert_eq!(name.chars().count(), title.chars().count());
        assert!(name.chars().all(|c| c.is_alphanumeric() || c == '-' || c == '_'));
        assert_eq!(sanitize_title(&name), name);
    }
}

#[test]
fn rendered_file_names_join_title_stamp_and_extension() {
    assert_eq!(
        rendered_file_name("Alpha Spec", "20240131_235959", "pdf"),
        "Alpha_Spec_20240131_235959.pdf"
    );
    assert_eq!(rendered_file_name("", "s", "md"), "_s.md");
}

#[test]
fn render_targets_of_the_format_tags() {
    assert_eq!(RenderTarget::parse("pdf"), Some(RenderTarget::Pdf));
    assert_eq!(RenderTarget::parse("html"), Some(RenderTarget::Html));
    assert_eq!(RenderTarget::parse("markdown"), Some(RenderTarget::Markdown));
    assert_eq!(RenderTarget::parse("md"), None);
    assert_eq!(RenderTarget::parse("PDF"), None);
    assert_eq!(RenderTarget::parse(""), None);
    assert_eq!(RenderTarget::Pdf.content_type(), "application/pdf");
    assert_eq!(RenderTarget::Html.content_type(), "text/html; charset=utf-8");
    assert_eq!(RenderTarget::Markdown.content_type(), "text/markdown; charset=utf-8");
    assert_eq!(RenderTarget::Pdf.extension(), "pdf");
    assert_eq!(RenderTarget::Html.extension(), "html");
    assert_eq!(RenderTarget::Markdown.extension(), "md");
}

#[test]
fn generation_metadata_sums_sizes_and_lists_formats() {
    let storage = DocumentStorage::new();
    let file = |format: &str, n: usize| document_generation_service::gcs::RenderedFile {
        format: String::from(format),
        content_type: String::from("c"),
        file_name: String::from("f"),
        data: vec![0u8; n],
        rendering_duration_ms: 0,
        page_count: None,
    };
    let mut uploads = vec![
        storage.upload_artifact(tenant(), 1, 1, &file("pdf", 100)).result,
        storage.upload_artifact(tenant(), 1, 1, &file("html", 23)).result,
    ];
    let metadata = generation_metadata(&uploads, &at(1431648000));
    assert_eq!(metadata.total_size_bytes, 123);
    assert_eq!(metadata.formats_generated, vec![String::from("pdf"), String::from("html")]);
    assert_eq!(metadata.completed_at, "2015-05-15T00:00:00+00:00");
    // Sizes beyond what can be recorded are reported as the bound.
    uploads[0].file_size = i64::MAX;
    assert_eq!(generation_metadata(&uploads, &at(0)).total_size_bytes, i64::MAX);
    uploads[0].file_size = i64::MIN;
    uploads[1].file_size = -1;
    assert_eq!(generation_metadata(&uploads, &at(0)).total_size_bytes, i64::MIN);
}

#[test]
fn render_action_carries_template_input_and_title() {
    let mut db = DocumentDb::new();
    db.add_template(template(1, "srs", "pdf", "# {{name}}"));
    let pipeline = DocumentPipeline::new(DocumentStorage::new());
    let req = request(None, &["markdown"]);
    let expected_input = req.input_params.clone();
    let (mut run, mut action) = pipeline.process(req);
    let now = at(0);
    loop {
        let event = match action {
            PipelineAction::CreateDocument(input) => {
                assert_eq!(input.input_params, expected_input);
                assert_eq!(input.title, "Alpha Spec");
                assert_eq!(input.requested_formats, vec![String::from("markdown")]);
                PipelineEvent::DocumentCreated(Ok(db.create_document(&input, now).unwrap()))
            }
            PipelineAction::UpdateStatus { tenant_id, document_id, status, .. } => {
                PipelineEvent::StatusUpdated(Ok(db
                    .update_document_status(tenant_id, document_id, status, None, None, now)
                    .unwrap()))
            }
            PipelineAction::GetTemplateByType { tenant_id, template_type, format } => {
                PipelineEvent::TemplateFetched(Ok(db.get_template_by_type(
                    tenant_id,
                    &template_type,
                    &format,
                )))
            }
            PipelineAction::Render { format, target, template_content, input_params, title } => {
                assert_eq!(format, "markdown");
                assert_eq!(target, RenderTarget::Markdown);
                assert_eq!(template_content, "# {{name}}");
                assert_eq!(input_params, expected_input);
                assert_eq!(title, "Alpha Spec");
                break;
            }
            _ => panic!("unexpected action"),
        };
        let next = run.advance(event, now);
        run = next.0;
        action = next.1;
    }
    assert_eq!(run.stage, PipelineStage::Rendering);
    assert_eq!(run.status, JobStatus::Rendering);
}

#[test]
fn handled_outcomes_are_acknowledged_and_request_failures_are_not() {
    let mut db = DocumentDb::new();
    db.add_template(template(1, "srs", "pdf", "t"));
    let completed = drive(&mut db, request(None, &["html"]), &render_ok, &upload_ok);
    assert_eq!(completed.result.as_ref().unwrap().status, JobStatus::Completed);
    assert!(acknowledges(&completed.result));
    let failed = drive(&mut db, request(None, &["docx"]), &render_ok, &upload_ok);
    assert_eq!(failed.result.as_ref().unwrap().status, JobStatus::Failed);
    assert!(acknowledges(&failed.result));
    assert!(!acknowledges(&Err(PipelineError::CreateFailed(String::from("x")))));
    assert!(!acknowledges(&Err(PipelineError::UnexpectedEvent)));
}
