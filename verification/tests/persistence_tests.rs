use document_generation_service::clock::Timestamp;
use document_generation_service::ident::Uuid;
use document_generation_service::persistence::{
    status_write_times, CreateArtifactInput, CreateDocumentInput, DocumentDb, DocumentTemplate,
    GenerationMetadata, StoreError,
};
use document_generation_service::status::JobStatus;

fn tenant_a() -> Uuid {
    Uuid::from_u128(0xa)
}

fn tenant_b() -> Uuid {
    Uuid::from_u128(0xb)
}

fn at(secs: i64) -> Timestamp {
    Timestamp::from_parts(secs, 0).unwrap()
}

fn input(tenant: Uuid, project: i64, doc_type: &str, title: &str) -> CreateDocumentInput {
    CreateDocumentInput {
        tenant_id: tenant,
        project_id: project,
        template_id: None,
        correlation_id: Some(Uuid::from_u128(99)),
        title: String::from(title),
        document_type: String::from(doc_type),
        requested_formats: vec![String::from("markdown"), String::from("html")],
        input_params: serde_json::Value::Null,
        requested_by: 3,
    }
}

fn artifact(tenant: Uuid, document_id: i64, format: &str, path: &str) -> CreateArtifactInput {
    CreateArtifactInput {
        tenant_id: tenant,
        document_id,
        format: String::from(format),
        file_name: String::from("f"),
        gcs_path: String::from(path),
        file_size: 10,
        content_type: String::from("text/plain"),
        sha256_checksum: String::from("00"),
        page_count: None,
        rendering_duration_ms: Some(5),
    }
}

fn template(
    id: i64,
    tenant: Uuid,
    doc_type: &str,
    format: &str,
    content: &str,
    is_system: bool,
    is_active: bool,
    updated: i64,
) -> DocumentTemplate {
    DocumentTemplate {
        id,
        tenant_id: tenant,
        name: String::from("t"),
        description: None,
        template_type: String::from(doc_type),
        format: String::from(format),
        template_content: String::from(content),
        schema_version: String::from("1"),
        is_system,
        is_active,
        created_by: 1,
        created_at: at(0),
        updated_at: at(updated),
    }
}

#[test]
fn created_document_is_queued_with_the_inputs_values() {
    let mut db = DocumentDb::new();
    let doc = db.create_document(&input(tenant_a(), 7, "srs", "Alpha Spec"), at(100)).unwrap();
    assert_eq!(doc.id, 1);
    assert_eq!(doc.tenant_id, tenant_a());
    assert_eq!(doc.project_id, 7);
    assert_eq!(doc.template_id, None);
    assert_eq!(doc.correlation_id, Some(Uuid::from_u128(99)));
    assert_eq!(doc.title, "Alpha Spec");
    assert_eq!(doc.document_type, "srs");
    assert_eq!(doc.status, JobStatus::Queued);
    assert_eq!(doc.requested_formats, vec![String::from("markdown"), String::from("html")]);
    assert!(doc.generation_metadata.is_none());
    assert!(doc.error_message.is_none());
    assert_eq!(doc.requested_by, 3);
    assert!(doc.started_at.is_none());
    assert!(doc.completed_at.is_none());
    assert_eq!(doc.created_at.secs(), 100);
    let second = db.create_document(&input(tenant_a(), 7, "srs", "Beta"), at(101)).unwrap();
    assert_eq!(second.id, 2);
}

#[test]
fn get_document_finds_only_the_tenants_own() {
    let mut db = DocumentDb::new();
    let doc = db.create_document(&input(tenant_a(), 7, "srs", "Alpha"), at(1)).unwrap();
    assert_eq!(db.get_document(tenant_a(), doc.id).unwrap().title, "Alpha");
    assert!(db.get_document(tenant_b(), doc.id).is_none());
    assert!(db.get_document(tenant_a(), 999).is_none());
}

#[test]
fn status_update_sets_timestamps_only_when_implied() {
    let mut db = DocumentDb::new();
    let doc = db.create_document(&input(tenant_a(), 7, "srs", "Alpha"), at(1)).unwrap();
    let d = db
        .update_document_status(tenant_a(), doc.id, JobStatus::Processing, None, None, at(10))
        .unwrap();
    assert_eq!(d.status, JobStatus::Processing);
    assert_eq!(d.started_at.unwrap().secs(), 10);
    assert!(d.completed_at.is_none());
    let d = db
        .update_document_status(tenant_a(), doc.id, JobStatus::Rendering, None, None, at(20))
        .unwrap();
    assert_eq!(d.started_at.unwrap().secs(), 10);
    assert!(d.completed_at.is_none());
    let d = db
        .update_document_status(tenant_a(), doc.id, JobStatus::Uploading, None, None, at(30))
        .unwrap();
    assert_eq!(d.started_at.unwrap().secs(), 10);
    assert!(d.completed_at.is_none());
    let metadata = GenerationMetadata {
        rendering_engine: String::from("pandoc-xelatex"),
        template_engine: String::from("handlebars"),
        formats_generated: vec![String::from("html")],
        total_size_bytes: 5,
        completed_at: String::from("now"),
    };
    let d = db
        .update_document_status(
            tenant_a(),
            doc.id,
            JobStatus::Completed,
            None,
            Some(&metadata),
            at(40),
        )
        .unwrap();
    assert_eq!(d.status, JobStatus::Completed);
    assert_eq!(d.started_at.unwrap().secs(), 10);
    assert_eq!(d.completed_at.unwrap().secs(), 40);
    assert!(d.error_message.is_none());
    assert_eq!(d.generation_metadata.unwrap().total_size_bytes, 5);
    let stored = db.get_document(tenant_a(), doc.id).unwrap();
    assert_eq!(stored.status, JobStatus::Completed);
    assert_eq!(stored.completed_at.unwrap().secs(), 40);
}

#[test]
fn status_update_keeps_values_that_are_not_supplied() {
    let mut db = DocumentDb::new();
    let doc = db.create_document(&input(tenant_a(), 7, "srs", "Alpha"), at(1)).unwrap();
    let metadata = GenerationMetadata {
        rendering_engine: String::from("pandoc-xelatex"),
        template_engine: String::from("handlebars"),
        formats_generated: vec![String::from("html")],
        total_size_bytes: 5,
        completed_at: String::from("now"),
    };
    let d = db
        .update_document_status(
            tenant_a(),
            doc.id,
            JobStatus::Processing,
            Some("a note"),
            Some(&metadata),
            at(10),
        )
        .unwrap();
    assert_eq!(d.error_message.as_deref(), Some("a note"));
    assert_eq!(d.generation_metadata.as_ref().unwrap().total_size_bytes, 5);
    // A later write without a message or metadata keeps what is there.
    let d = db
        .update_document_status(tenant_a(), doc.id, JobStatus::Rendering, None, None, at(20))
        .unwrap();
    assert_eq!(d.error_message.as_deref(), Some("a note"));
    assert_eq!(d.generation_metadata.as_ref().unwrap().total_size_bytes, 5);
    assert_eq!(d.started_at.unwrap().secs(), 10);
    let d = db
        .update_document_status(
            tenant_a(),
            doc.id,
            JobStatus::Failed,
            Some("Rendering failed: boom"),
            None,
            at(30),
        )
        .unwrap();
    assert_eq!(d.status, JobStatus::Failed);
    assert_eq!(d.error_message.as_deref(), Some("Rendering failed: boom"));
    assert_eq!(d.completed_at.unwrap().secs(), 30);
    assert_eq!(d.started_at.unwrap().secs(), 10);
}

#[test]
fn status_only_advances_and_nothing_follows_a_terminal_status() {
    let mut db = DocumentDb::new();
    let doc = db.create_document(&input(tenant_a(), 7, "srs", "Alpha"), at(1)).unwrap();
    let all = [
        JobStatus::Queued,
        JobStatus::Processing,
        JobStatus::Rendering,
        JobStatus::Uploading,
        JobStatus::Completed,
        JobStatus::Failed,
    ];
    // From queued only processing is a move.
    for status in all {
        if status != JobStatus::Processing {
            let refused =
                db.update_document_status(tenant_a(), doc.id, status, None, None, at(2));
            assert_eq!(refused.unwrap_err(), StoreError::InvalidTransition);
        }
    }
    assert_eq!(db.get_document(tenant_a(), doc.id).unwrap().status, JobStatus::Queued);
    for status in
        [JobStatus::Processing, JobStatus::Rendering, JobStatus::Uploading, JobStatus::Completed]
    {
        let again = db.get_document(tenant_a(), doc.id).unwrap().status;
        let refused = db.update_document_status(tenant_a(), doc.id, again, None, None, at(3));
        assert_eq!(refused.unwrap_err(), StoreError::InvalidTransition);
        db.update_document_status(tenant_a(), doc.id, status, None, None, at(4)).unwrap();
    }
    // A completed record takes no status at all and stays as it is.
    for status in all {
        let refused = db.update_document_status(tenant_a(), doc.id, status, None, None, at(9));
        assert_eq!(refused.unwrap_err(), StoreError::InvalidTransition);
    }
    let stored = db.get_document(tenant_a(), doc.id).unwrap();
    assert_eq!(stored.status, JobStatus::Completed);
    assert_eq!(stored.completed_at.unwrap().secs(), 4);
    // So does a failed one.
    let other = db.create_document(&input(tenant_a(), 7, "srs", "Beta"), at(1)).unwrap();
    db.update_document_status(tenant_a(), other.id, JobStatus::Processing, None, None, at(2))
        .unwrap();
    db.update_document_status(tenant_a(), other.id, JobStatus::Failed, Some("x"), None, at(3))
        .unwrap();
    for status in all {
        let refused = db.update_document_status(tenant_a(), other.id, status, None, None, at(9));
        assert_eq!(refused.unwrap_err(), StoreError::InvalidTransition);
    }
    assert_eq!(db.get_document(tenant_a(), other.id).unwrap().error_message.as_deref(), Some("x"));
}

#[test]
fn status_write_sets_only_the_times_it_implies() {
    let now = at(50);
    let (started, completed) = status_write_times(JobStatus::Processing, now);
    assert_eq!(started.unwrap().secs(), 50);
    assert!(completed.is_none());
    for status in [JobStatus::Queued, JobStatus::Rendering, JobStatus::Uploading] {
        let (started, completed) = status_write_times(status, now);
        assert!(started.is_none() && completed.is_none());
    }
    for status in [JobStatus::Completed, JobStatus::Failed] {
        let (started, completed) = status_write_times(status, now);
        assert!(started.is_none());
        assert_eq!(completed.unwrap().secs(), 50);
    }
}

#[test]
fn status_update_of_a_missing_or_foreign_row_fails() {
    let mut db = DocumentDb::new();
    let doc = db.create_document(&input(tenant_a(), 7, "srs", "Alpha"), at(1)).unwrap();
    let missing =
        db.update_document_status(tenant_a(), 999, JobStatus::Processing, None, None, at(2));
    assert_eq!(missing.unwrap_err(), StoreError::RowNotFound);
    let foreign =
        db.update_document_status(tenant_b(), doc.id, JobStatus::Processing, None, None, at(2));
    assert_eq!(foreign.unwrap_err(), StoreError::RowNotFound);
    assert_eq!(db.get_document(tenant_a(), doc.id).unwrap().status, JobStatus::Queued);
}

#[test]
fn delete_document_removes_only_the_tenants_own() {
    let mut db = DocumentDb::new();
    let a = db.create_document(&input(tenant_a(), 7, "srs", "A"), at(1)).unwrap();
    let b = db.create_document(&input(tenant_b(), 7, "srs", "B"), at(2)).unwrap();
    assert!(!db.delete_document(tenant_b(), a.id));
    assert!(db.get_document(tenant_a(), a.id).is_some());
    assert!(db.delete_document(tenant_a(), a.id));
    assert!(db.get_document(tenant_a(), a.id).is_none());
    assert!(!db.delete_document(tenant_a(), a.id));
    assert!(db.get_document(tenant_b(), b.id).is_some());
}

#[test]
fn tenant_isolation_holds_on_a_reused_session() {
    let mut db = DocumentDb::new();
    let a = db.create_document(&input(tenant_a(), 7, "srs", "A"), at(1)).unwrap();
    // The session now holds tenant A's context; tenant B works on it next.
    let b = db.create_document(&input(tenant_b(), 7, "srs", "B"), at(2)).unwrap();
    let (page, total) = db.list_documents(tenant_a(), None, None, None, 10, 0).unwrap();
    assert_eq!(total, 1);
    assert_eq!(page.len(), 1);
    assert_eq!(page[0].id, a.id);
    let (page, total) = db.list_documents(tenant_b(), None, None, None, 10, 0).unwrap();
    assert_eq!(total, 1);
    assert_eq!(page[0].id, b.id);
    db.create_artifact(&artifact(tenant_a(), a.id, "html", "obj-a"), at(3)).unwrap();
    db.create_artifact(&artifact(tenant_b(), b.id, "html", "obj-b"), at(3)).unwrap();
    // Tenant B cannot attach an artifact to tenant A's job, nor see or delete
    // what belongs to it.
    assert_eq!(
        db.create_artifact(&artifact(tenant_b(), a.id, "html", "obj-x"), at(3)).unwrap_err(),
        StoreError::MissingDocument
    );
    assert_eq!(db.list_artifacts(tenant_a(), a.id).len(), 1);
    assert!(db.list_artifacts(tenant_b(), a.id).is_empty());
    assert!(db.delete_artifacts_for_document(tenant_b(), a.id).is_empty());
    assert_eq!(db.delete_artifacts_for_document(tenant_b(), b.id), vec![String::from("obj-b")]);
    let left = db.list_artifacts(tenant_a(), a.id);
    assert_eq!(left.len(), 1);
    assert_eq!(left[0].gcs_path, "obj-a");
    assert!(db.get_artifact(tenant_b(), left[0].id).is_none());
    assert!(db.get_artifact(tenant_a(), left[0].id).is_some());
}

#[test]
fn listing_is_newest_first_with_filters_and_total() {
    let mut db = DocumentDb::new();
    let d1 = db.create_document(&input(tenant_a(), 7, "srs", "one"), at(10)).unwrap();
    let d2 = db.create_document(&input(tenant_a(), 8, "srs", "two"), at(30)).unwrap();
    let d3 = db.create_document(&input(tenant_a(), 7, "drd", "three"), at(20)).unwrap();
    let d4 = db.create_document(&input(tenant_a(), 7, "srs", "four"), at(40)).unwrap();
    db.update_document_status(tenant_a(), d4.id, JobStatus::Processing, None, None, at(41))
        .unwrap();
    let ids = |page: &Vec<document_generation_service::persistence::GeneratedDocument>| {
        page.iter().map(|d| d.id).collect::<Vec<i64>>()
    };
    let (page, total) = db.list_documents(tenant_a(), None, None, None, 10, 0).unwrap();
    assert_eq!(total, 4);
    assert_eq!(ids(&page), vec![d4.id, d2.id, d3.id, d1.id]);
    let (page, total) = db.list_documents(tenant_a(), Some(7), None, None, 10, 0).unwrap();
    assert_eq!(total, 3);
    assert_eq!(ids(&page), vec![d4.id, d3.id, d1.id]);
    let (page, total) = db.list_documents(tenant_a(), Some(7), Some("srs"), None, 10, 0).unwrap();
    assert_eq!(total, 2);
    assert_eq!(ids(&page), vec![d4.id, d1.id]);
    let (page, total) = db
        .list_documents(tenant_a(), Some(7), Some("srs"), Some(JobStatus::Queued), 10, 0)
        .unwrap();
    assert_eq!(total, 1);
    assert_eq!(ids(&page), vec![d1.id]);
    let (page, total) =
        db.list_documents(tenant_a(), None, None, Some(JobStatus::Failed), 10, 0).unwrap();
    assert_eq!(total, 0);
    assert!(page.is_empty());
}

#[test]
fn listing_pages_by_limit_and_offset() {
    let mut db = DocumentDb::new();
    for i in 0..5 {
        db.create_document(&input(tenant_a(), 7, "srs", "x"), at(i)).unwrap();
    }
    let ids = |page: &Vec<document_generation_service::persistence::GeneratedDocument>| {
        page.iter().map(|d| d.id).collect::<Vec<i64>>()
    };
    let (page, total) = db.list_documents(tenant_a(), None, None, None, 2, 0).unwrap();
    assert_eq!((ids(&page), total), (vec![5, 4], 5));
    let (page, total) = db.list_documents(tenant_a(), None, None, None, 2, 2).unwrap();
    assert_eq!((ids(&page), total), (vec![3, 2], 5));
    let (page, total) = db.list_documents(tenant_a(), None, None, None, 2, 4).unwrap();
    assert_eq!((ids(&page), total), (vec![1], 5));
    let (page, total) = db.list_documents(tenant_a(), None, None, None, 2, 5).unwrap();
    assert_eq!((ids(&page), total), (vec![], 5));
    let (page, total) = db.list_documents(tenant_a(), None, None, None, 0, 0).unwrap();
    assert_eq!((ids(&page), total), (vec![], 5));
    let (page, total) = db.list_documents(tenant_a(), None, None, None, i64::MAX, 1).unwrap();
    assert_eq!((ids(&page), total), (vec![4, 3, 2, 1], 5));
    let (page, _) = db.list_documents(tenant_a(), None, None, None, 1, i64::MAX).unwrap();
    assert!(page.is_empty());
}

#[test]
fn listing_refuses_negative_limit_or_offset() {
    let mut db = DocumentDb::new();
    assert_eq!(
        db.list_documents(tenant_a(), None, None, None, -1, 0).unwrap_err(),
        StoreError::InvalidPage
    );
    assert_eq!(
        db.list_documents(tenant_a(), None, None, None, 1, -1).unwrap_err(),
        StoreError::InvalidPage
    );
}

#[test]
fn artifacts_are_recorded_and_listed_by_format() {
    let mut db = DocumentDb::new();
    let doc = db.create_document(&input(tenant_a(), 7, "srs", "A"), at(1)).unwrap();
    let other = db.create_document(&input(tenant_a(), 7, "srs", "B"), at(2)).unwrap();
    let first = db.create_artifact(&artifact(tenant_a(), doc.id, "markdown", "obj-a"), at(3)).unwrap();
    db.create_artifact(&artifact(tenant_a(), other.id, "pdf", "obj-b"), at(4)).unwrap();
    let third = db.create_artifact(&artifact(tenant_a(), doc.id, "html", "obj-c"), at(5)).unwrap();
    assert_eq!(first.id, 1);
    assert_eq!(third.id, 3);
    assert_eq!(first.document_id, doc.id);
    assert_eq!(first.format, "markdown");
    assert_eq!(first.gcs_path, "obj-a");
    assert_eq!(first.file_size, 10);
    assert_eq!(first.sha256_checksum, "00");
    assert_eq!(first.rendering_duration_ms, Some(5));
    assert_eq!(first.created_at.secs(), 3);
    let listed = db.list_artifacts(tenant_a(), doc.id);
    assert_eq!(listed.iter().map(|a| a.id).collect::<Vec<i64>>(), vec![3, 1]);
    assert_eq!(listed[0].format, "html");
    assert_eq!(listed[1].format, "markdown");
    assert_eq!(db.get_artifact(tenant_a(), 2).unwrap().gcs_path, "obj-b");
    assert!(db.get_artifact(tenant_a(), 9).is_none());
}

#[test]
fn artifacts_are_listed_in_the_order_of_their_formats() {
    let mut db = DocumentDb::new();
    db.create_document(&input(tenant_a(), 7, "srs", "A"), at(1)).unwrap();
    for (format, path) in
        [("pdf", "1"), ("markdown", "2"), ("html", "3"), ("pdf", "4"), ("", "5"), ("htm", "6")]
    {
        db.create_artifact(&artifact(tenant_a(), 1, format, path), at(3)).unwrap();
    }
    let listed = db.list_artifacts(tenant_a(), 1);
    let formats: Vec<&str> = listed.iter().map(|a| a.format.as_str()).collect();
    assert_eq!(formats, vec!["", "htm", "html", "markdown", "pdf", "pdf"]);
    let paths: Vec<&str> = listed.iter().map(|a| a.gcs_path.as_str()).collect();
    assert_eq!(paths, vec!["5", "6", "3", "2", "1", "4"]);
}

#[test]
fn deleting_artifacts_gives_their_paths_and_keeps_the_rest() {
    let mut db = DocumentDb::new();
    db.create_document(&input(tenant_a(), 7, "srs", "A"), at(1)).unwrap();
    db.create_document(&input(tenant_a(), 7, "srs", "B"), at(2)).unwrap();
    db.create_artifact(&artifact(tenant_a(), 1, "markdown", "obj-a"), at(3)).unwrap();
    db.create_artifact(&artifact(tenant_a(), 2, "pdf", "obj-b"), at(4)).unwrap();
    db.create_artifact(&artifact(tenant_a(), 1, "html", "obj-c"), at(5)).unwrap();
    let paths = db.delete_artifacts_for_document(tenant_a(), 1);
    assert_eq!(paths, vec![String::from("obj-a"), String::from("obj-c")]);
    assert!(db.list_artifacts(tenant_a(), 1).is_empty());
    assert_eq!(db.list_artifacts(tenant_a(), 2).len(), 1);
    assert!(db.delete_artifacts_for_document(tenant_a(), 1).is_empty());
    // Ids are not given out a second time.
    let next = db.create_artifact(&artifact(tenant_a(), 1, "pdf", "obj-d"), at(6)).unwrap();
    assert_eq!(next.id, 4);
}

#[test]
fn template_by_id_must_be_active_and_the_tenants_own() {
    let mut db = DocumentDb::new();
    db.add_template(template(42, tenant_a(), "srs", "pdf", "forty-two", false, true, 1));
    db.add_template(template(43, tenant_a(), "srs", "pdf", "inactive", false, false, 1));
    assert_eq!(db.get_template(tenant_a(), 42).unwrap().template_content, "forty-two");
    assert!(db.get_template(tenant_a(), 43).is_none());
    assert!(db.get_template(tenant_b(), 42).is_none());
    assert!(db.get_template(tenant_a(), 44).is_none());
}

#[test]
fn default_template_is_the_most_recently_updated_system_or_own() {
    let mut db = DocumentDb::new();
    db.add_template(template(1, tenant_a(), "srs", "pdf", "own old", false, true, 100));
    db.add_template(template(2, tenant_a(), "srs", "pdf", "system new", true, true, 500));
    db.add_template(template(3, tenant_a(), "srs", "pdf", "own newer", false, true, 200));
    db.add_template(template(4, tenant_a(), "srs", "pdf", "own newest inactive", false, false, 900));
    db.add_template(template(5, tenant_a(), "srs", "html", "other format", false, true, 900));
    db.add_template(template(6, tenant_a(), "drd", "pdf", "other type", false, true, 900));
    db.add_template(template(7, tenant_b(), "srs", "pdf", "other tenant", false, true, 900));
    // The system template was updated last, so it is the default.
    assert_eq!(db.get_template_by_type(tenant_a(), "srs", "pdf").unwrap().id, 2);
    assert_eq!(db.get_template_by_type(tenant_a(), "srs", "html").unwrap().id, 5);
    assert_eq!(db.get_template_by_type(tenant_b(), "srs", "pdf").unwrap().id, 7);
    assert!(db.get_template_by_type(tenant_b(), "drd", "pdf").is_none());
    assert!(db.get_template_by_type(tenant_a(), "srs", "markdown").is_none());
    // An own template that is updated later takes its place.
    db.add_template(template(8, tenant_a(), "srs", "pdf", "own latest", false, true, 600));
    assert_eq!(db.get_template_by_type(tenant_a(), "srs", "pdf").unwrap().id, 8);
}

#[test]
fn default_template_among_system_ones_is_the_latest() {
    let mut db = DocumentDb::new();
    db.add_template(template(1, tenant_a(), "srs", "pdf", "system old", true, true, 100));
    db.add_template(template(2, tenant_a(), "srs", "pdf", "system new", true, true, 200));
    assert_eq!(db.get_template_by_type(tenant_a(), "srs", "pdf").unwrap().id, 2);
}

#[test]
fn duplicates_hold_the_same_values() {
    let mut db = DocumentDb::new();
    let doc = db.create_document(&input(tenant_a(), 7, "srs", "Alpha"), at(1)).unwrap();
    let copy = doc.duplicate();
    assert_eq!(copy.id, doc.id);
    assert_eq!(copy.title, doc.title);
    assert_eq!(copy.requested_formats, doc.requested_formats);
    assert_eq!(copy.input_params, doc.input_params);
    let t = template(1, tenant_a(), "srs", "pdf", "c", true, true, 100);
    assert_eq!(t.duplicate().template_content, "c");
}

#[test]
fn deleting_a_job_deletes_its_artifacts_and_gives_their_paths() {
    let mut db = DocumentDb::new();
    let a = db.create_document(&input(tenant_a(), 7, "srs", "A"), at(1)).unwrap();
    let b = db.create_document(&input(tenant_a(), 7, "srs", "B"), at(2)).unwrap();
    let c = db.create_document(&input(tenant_b(), 7, "srs", "C"), at(3)).unwrap();
    db.create_artifact(&artifact(tenant_a(), a.id, "pdf", "a-pdf"), at(3)).unwrap();
    db.create_artifact(&artifact(tenant_a(), b.id, "pdf", "b-pdf"), at(3)).unwrap();
    db.create_artifact(&artifact(tenant_a(), a.id, "html", "a-html"), at(3)).unwrap();
    db.create_artifact(&artifact(tenant_b(), c.id, "html", "foreign"), at(3)).unwrap();
    let (deleted, paths) = db.delete_document_with_artifacts(tenant_a(), a.id);
    assert!(deleted);
    assert_eq!(paths, vec![String::from("a-pdf"), String::from("a-html")]);
    assert!(db.get_document(tenant_a(), a.id).is_none());
    assert!(db.list_artifacts(tenant_a(), a.id).is_empty());
    assert!(db.get_document(tenant_a(), b.id).is_some());
    assert_eq!(db.list_artifacts(tenant_a(), b.id).len(), 1);
    assert_eq!(db.list_artifacts(tenant_b(), c.id).len(), 1);
    let (deleted, paths) = db.delete_document_with_artifacts(tenant_a(), a.id);
    assert!(!deleted);
    assert!(paths.is_empty());
}

#[test]
fn an_artifact_needs_a_job_of_its_own_tenant() {
    let mut db = DocumentDb::new();
    assert_eq!(
        db.create_artifact(&artifact(tenant_a(), 1, "pdf", "x"), at(1)).unwrap_err(),
        StoreError::MissingDocument
    );
    let a = db.create_document(&input(tenant_a(), 7, "srs", "A"), at(1)).unwrap();
    assert_eq!(
        db.create_artifact(&artifact(tenant_a(), a.id + 1, "pdf", "x"), at(1)).unwrap_err(),
        StoreError::MissingDocument
    );
    assert_eq!(
        db.create_artifact(&artifact(tenant_b(), a.id, "pdf", "x"), at(1)).unwrap_err(),
        StoreError::MissingDocument
    );
    let stored = db.create_artifact(&artifact(tenant_a(), a.id, "pdf", "x"), at(1)).unwrap();
    assert_eq!(stored.id, 1);
}

#[test]
fn deleting_a_job_leaves_no_artifact_without_a_job() {
    let mut db = DocumentDb::new();
    let a = db.create_document(&input(tenant_a(), 7, "srs", "A"), at(1)).unwrap();
    let b = db.create_document(&input(tenant_a(), 7, "srs", "B"), at(2)).unwrap();
    let first = db.create_artifact(&artifact(tenant_a(), a.id, "pdf", "a-pdf"), at(3)).unwrap();
    let kept = db.create_artifact(&artifact(tenant_a(), b.id, "pdf", "b-pdf"), at(3)).unwrap();
    assert!(db.delete_document(tenant_a(), a.id));
    assert!(db.get_artifact(tenant_a(), first.id).is_none());
    assert!(db.list_artifacts(tenant_a(), a.id).is_empty());
    assert_eq!(db.get_artifact(tenant_a(), kept.id).unwrap().gcs_path, "b-pdf");
}
