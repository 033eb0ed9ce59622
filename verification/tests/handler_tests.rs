use document_generation_service::clock::Timestamp;
use document_generation_service::error::DocumentError;
use document_generation_service::generators::Generator;
use document_generation_service::models::{
    DocumentFormat, DocumentGenerationRequest, DocumentGenerationResponse, DocumentMetadata,
    GeneratedDocument, SpecificationType,
};
use document_generation_service::pubsub::handler::{document_filename, format_name};
use document_generation_service::pubsub::publisher::Publisher;
use document_generation_service::pubsub::MessageHandler;
use document_generation_service::renderers::CompilerRun;

fn metadata() -> DocumentMetadata {
    DocumentMetadata {
        title: String::from("Alpha Spec"),
        project_name: String::from("Apollo"),
        version: String::from("1.2"),
        author: String::from("Ada"),
        organization: String::from("ACME"),
        classification: None,
        distribution_statement: None,
        generated_date: Timestamp::from_parts(1431648000, 0).unwrap(),
    }
}

fn request(spec_type: SpecificationType) -> DocumentGenerationRequest {
    DocumentGenerationRequest {
        specification_type: spec_type,
        output_formats: vec![DocumentFormat::Markdown, DocumentFormat::PDF],
        data: serde_json::Value::Null,
        metadata: metadata(),
    }
}

fn document(format: DocumentFormat, name: &str) -> GeneratedDocument {
    GeneratedDocument {
        format,
        content_base64: String::from("AA=="),
        filename: String::from(name),
        mime_type: String::from("m"),
        size_bytes: 1,
    }
}

fn run_ok(bytes: &[u8]) -> Result<CompilerRun, DocumentError> {
    Ok(CompilerRun { success: true, diagnostics: String::new(), output: bytes.to_vec() })
}

#[test]
fn format_names() {
    assert_eq!(format_name(&DocumentFormat::PDF), "PDF");
    assert_eq!(format_name(&DocumentFormat::Markdown), "Markdown");
    assert_eq!(format_name(&DocumentFormat::HTML), "HTML");
}

#[test]
fn embedded_document_names() {
    assert_eq!(document_filename("Alpha Spec", "1.2", "pdf"), "alpha-spec-v1.2.pdf");
    assert_eq!(document_filename("A  B", "", "md"), "a--b-v.md");
    assert_eq!(document_filename("ÄÖ Ü", "2", "html"), "äö-ü-v2.html");
    // What a file name does not keep becomes an underscore.
    assert_eq!(document_filename("Q3/Q4 Report: v2", "1", "pdf"), "q3_q4-report_-v2-v1.pdf");
    assert_eq!(document_filename("../etc\\passwd", "1", "md"), "___etc_passwd-v1.md");
    for title in ["Q3/Q4 Report: v2", "a\tb*c?", "x<y>|z\"", "Ünïcode №5"] {
        let name = document_filename(title, "", "");
        let part = name.strip_suffix("-v.").unwrap();
        assert!(part.chars().all(|c| c.is_alphanumeric() || c == '-' || c == '_'));
        assert_eq!(part.chars().count(), title.to_lowercase().chars().count());
    }
}

#[test]
fn undecodable_payload_is_answered_under_a_generated_id() {
    let handler = MessageHandler::new();
    let response = handler
        .accept(Err(String::from("expected value at line 1 column 1")))
        .unwrap_err();
    assert_eq!(response.request_id.len(), 36);
    assert_eq!(response.request_id.chars().nth(14), Some('4'));
    assert_ne!(response.request_id, "unknown");
    assert_eq!(response.status, "error");
    assert!(response.documents.is_empty());
    assert_eq!(
        response.error.as_deref(),
        Some("Invalid request format: expected value at line 1 column 1")
    );
    let other = handler.accept(Err(String::from("x"))).unwrap_err();
    assert_ne!(response.request_id, other.request_id);
    let keyed = handler.accept_as(Err(String::from("eof")), String::from("req-0")).unwrap_err();
    assert_eq!(keyed.request_id, "req-0");
    assert_eq!(keyed.error.as_deref(), Some("Invalid request format: eof"));
}

#[test]
fn kinds_without_generator_are_refused_under_the_requests_id() {
    let handler = MessageHandler::new();
    let cases = [
        (SpecificationType::MilStd498SRS, "MilStd498SRS"),
        (SpecificationType::ComplianceAuditReport, "ComplianceAuditReport"),
        (SpecificationType::TestExecutionReport, "TestExecutionReport"),
    ];
    for (spec_type, name) in cases {
        let response =
            handler.accept_as(Ok(request(spec_type)), String::from("req-1")).unwrap_err();
        assert_eq!(response.request_id, "req-1");
        assert_eq!(response.status, "error");
        assert_eq!(response.error, Some(format!("Invalid specification type: {}", name)));
        assert!(response.documents.is_empty());
    }
}

#[test]
fn accepted_request_gets_its_generator_and_id() {
    let handler = MessageHandler::new();
    let accepted = handler
        .accept_as(Ok(request(SpecificationType::IEEE830SRS)), String::from("req-2"))
        .unwrap();
    assert_eq!(accepted.request_id, "req-2");
    assert_eq!(accepted.generator.template_name(), "ieee830_srs");
    assert_eq!(accepted.request.metadata.title, "Alpha Spec");
    let fresh = handler.accept(Ok(request(SpecificationType::SecurityScanReport))).unwrap();
    assert_eq!(fresh.request_id.len(), 36);
    assert_eq!(fresh.generator.template_name(), "security_report");
    let other = handler.accept(Ok(request(SpecificationType::SecurityScanReport))).unwrap();
    assert_ne!(fresh.request_id, other.request_id);
}

#[test]
fn markdown_is_rendered_here_with_front_matter() {
    let handler = MessageHandler::new();
    let bytes = handler
        .render_bytes(
            &DocumentFormat::Markdown,
            "# Body",
            &metadata(),
            Err(DocumentError::IoError(String::from("not used"))),
        )
        .unwrap();
    assert_eq!(
        String::from_utf8(bytes).unwrap(),
        "---\ntitle: Alpha Spec\nauthor: Ada\nversion: 1.2\nproject: Apollo\n\
         organization: ACME\ndate: 2015-05-15\n---\n\n# Body"
    );
}

#[test]
fn compiled_formats_take_the_compilers_bytes_or_diagnostics() {
    let handler = MessageHandler::new();
    for format in [DocumentFormat::PDF, DocumentFormat::HTML] {
        let bytes = handler.render_bytes(&format, "# Body", &metadata(), run_ok(b"%PDF")).unwrap();
        assert_eq!(bytes, b"%PDF".to_vec());
        let failed = handler
            .render_bytes(
                &format,
                "# Body",
                &metadata(),
                Ok(CompilerRun {
                    success: false,
                    diagnostics: String::from("! LaTeX Error"),
                    output: b"partial".to_vec(),
                }),
            )
            .unwrap_err();
        assert!(matches!(failed, DocumentError::PandocError(_)));
        assert_eq!(failed.to_string(), "Pandoc error: ! LaTeX Error");
        let io = handler
            .render_bytes(
                &format,
                "# Body",
                &metadata(),
                Err(DocumentError::IoError(String::from("no temp dir"))),
            )
            .unwrap_err();
        assert_eq!(io.to_string(), "IO error: no temp dir");
    }
}

#[test]
fn rendered_document_is_embedded_as_base64() {
    let handler = MessageHandler::new();
    let doc = handler
        .render_document(&DocumentFormat::PDF, "# Body", &metadata(), run_ok(b"hello"))
        .unwrap();
    assert_eq!(doc.format, DocumentFormat::PDF);
    assert_eq!(doc.content_base64, "aGVsbG8=");
    assert_eq!(doc.filename, "alpha-spec-v1.2.pdf");
    assert_eq!(doc.mime_type, "application/pdf");
    assert_eq!(doc.size_bytes, 5);
    let html = handler
        .render_document(&DocumentFormat::HTML, "# Body", &metadata(), run_ok(b"<p/>"))
        .unwrap();
    assert_eq!(html.mime_type, "text/html");
    assert_eq!(html.filename, "alpha-spec-v1.2.html");
    let md = handler
        .render_document(&DocumentFormat::Markdown, "x", &metadata(), run_ok(b"ignored"))
        .unwrap();
    assert_eq!(md.mime_type, "text/markdown");
    assert_eq!(md.filename, "alpha-spec-v1.2.md");
    assert!(md.size_bytes > 1);
    let embedded = handler.embed_document(&DocumentFormat::HTML, &Vec::new(), &metadata()).unwrap();
    assert_eq!(embedded.content_base64, "");
    assert_eq!(embedded.size_bytes, 0);
}

#[test]
fn rendering_error_is_passed_on() {
    let handler = MessageHandler::new();
    let error = handler
        .render_document(
            &DocumentFormat::PDF,
            "# Body",
            &metadata(),
            Ok(CompilerRun {
                success: false,
                diagnostics: String::from("boom"),
                output: Vec::new(),
            }),
        )
        .unwrap_err();
    assert_eq!(error.to_string(), "Pandoc error: boom");
}

#[test]
fn outcome_carries_all_documents_when_every_format_rendered() {
    let handler = MessageHandler::new();
    let now = Timestamp::from_parts(5, 0).unwrap();
    let response = handler.handle_message_at(
        String::from("req-3"),
        Ok(vec![
            Ok(document(DocumentFormat::PDF, "a")),
            Ok(document(DocumentFormat::HTML, "b")),
            Ok(document(DocumentFormat::Markdown, "c")),
        ]),
        now,
    );
    assert_eq!(response.request_id, "req-3");
    assert_eq!(response.status, "success");
    assert!(response.error.is_none());
    assert_eq!(response.generated_at.secs(), 5);
    let names: Vec<&str> = response.documents.iter().map(|d| d.filename.as_str()).collect();
    assert_eq!(names, vec!["a", "b", "c"]);
    assert_eq!(response.documents[0].format, DocumentFormat::PDF);
    assert_eq!(response.documents[2].format, DocumentFormat::Markdown);
}

#[test]
fn one_failed_format_makes_the_outcome_an_error_without_documents() {
    let handler = MessageHandler::new();
    let now = Timestamp::from_parts(5, 0).unwrap();
    let response = handler.handle_message_at(
        String::from("req-3"),
        Ok(vec![
            Ok(document(DocumentFormat::PDF, "a")),
            Err(DocumentError::PandocError(String::from("first"))),
            Ok(document(DocumentFormat::HTML, "b")),
            Err(DocumentError::IoError(String::from("second"))),
        ]),
        now,
    );
    assert_eq!(response.request_id, "req-3");
    assert_eq!(response.status, "error");
    assert!(response.documents.is_empty());
    assert_eq!(response.error.as_deref(), Some("Pandoc error: first"));
    let last = handler.handle_message(
        String::from("req-4"),
        Ok(vec![
            Ok(document(DocumentFormat::PDF, "a")),
            Err(DocumentError::IoError(String::from("y"))),
        ]),
    );
    assert_eq!(last.status, "error");
    assert!(last.documents.is_empty());
    assert_eq!(last.error.as_deref(), Some("IO error: y"));
}

#[test]
fn outcome_is_an_error_when_nothing_was_asked_for() {
    let handler = MessageHandler::new();
    let none = handler.handle_message(String::from("req-5"), Ok(Vec::new()));
    assert_eq!(none.status, "error");
    assert_eq!(none.request_id, "req-5");
    assert!(none.documents.is_empty());
    assert_eq!(
        none.error.as_deref(),
        Some("Failed to generate documents in any requested format")
    );
}

#[test]
fn outcome_is_the_generation_error_when_content_failed() {
    let handler = MessageHandler::new();
    let response = handler.handle_message(
        String::from("req-6"),
        Err(DocumentError::TemplateError(String::from("missing file"))),
    );
    assert_eq!(response.request_id, "req-6");
    assert_eq!(response.status, "error");
    assert_eq!(response.error.as_deref(), Some("Template error: missing file"));
    assert!(response.documents.is_empty());
}

#[test]
fn responses_are_success_or_error() {
    let ok = DocumentGenerationResponse::success(
        String::from("r"),
        vec![document(DocumentFormat::PDF, "a")],
    );
    assert_eq!(ok.status, "success");
    assert_eq!(ok.documents.len(), 1);
    assert!(ok.error.is_none());
    let err = DocumentGenerationResponse::error(String::from("r"), String::from("why"));
    assert_eq!(err.status, "error");
    assert!(err.documents.is_empty());
    assert_eq!(err.error.as_deref(), Some("why"));
    let then = Timestamp::from_parts(1_700_000_000, 0).unwrap();
    assert!(ok.generated_at.later_than(&then));
}

#[test]
fn published_message_carries_id_and_status_as_attributes() {
    let publisher = Publisher::new("mcxtest", "document-generation-results");
    assert_eq!(publisher.project_id, "mcxtest");
    assert_eq!(publisher.topic_name, "document-generation-results");
    let response = DocumentGenerationResponse::error(String::from("req-7"), String::from("why"));
    let message = publisher.publish_response(&response, Ok(b"{}".to_vec())).unwrap();
    assert_eq!(message.data, b"{}".to_vec());
    assert_eq!(
        message.attributes,
        vec![
            (String::from("request_id"), String::from("req-7")),
            (String::from("status"), String::from("error")),
        ]
    );
    assert!(publisher.publish_response(&response, Err(String::from("cycle"))).is_none());
}

#[test]
fn wire_names_of_formats_and_kinds() {
    assert_eq!(DocumentFormat::PDF.mime_type(), "application/pdf");
    assert_eq!(DocumentFormat::Markdown.extension(), "md");
    assert_eq!(SpecificationType::IEEE830DRD.wire_name(), "ieee830_drd");
    assert_eq!(
        SpecificationType::ISO29148ConceptOfOperations.wire_name(),
        "iso29148_concept_of_operations"
    );
    assert_eq!(SpecificationType::SecurityScanReport.variant_name(), "SecurityScanReport");
}
