//! From a delivered request to its outcome event.

use vstd::prelude::*;
use vstd::string::*;
use crate::encoding::{encodable_len, encode_base64, spec_base64_standard};
use crate::error::DocumentError;
use crate::generators::{create_generator, template_of, AnyGenerator, Generator};
use crate::ident::Uuid;
use crate::models::{
    DocumentFormat,
    DocumentGenerationRequest,
    DocumentGenerationResponse,
    DocumentMetadata,
    GeneratedDocument,
};
use crate::ident::{is_random_version, uuid_text};
use crate::pipeline::{is_name_safe, lemma_sanitized_is_safe, sanitize_title, sanitized};
use crate::renderers::markdown::front_matter_of;
use crate::renderers::{compiled, CompilerRun, HtmlRenderer, MarkdownRenderer, PdfRenderer};
use crate::text::{
    concat2,
    replace_char,
    replace_char_in,
    spec_to_lowercase,
    to_lowercase,
};
use vstd::utf8::encode_utf8;

verus! {

#[derive(Debug)]
pub struct MessageHandler {
    pdf_renderer: PdfRenderer,
    markdown_renderer: MarkdownRenderer,
    html_renderer: HtmlRenderer,
}

/// A request that was accepted: its id and the generator of its content.
#[derive(Debug)]
pub struct AcceptedRequest {
    pub request_id: String,
    pub request: DocumentGenerationRequest,
    pub generator: AnyGenerator,
}

/// The part of an embedded document's name that is made of its title: the
/// title in lowercase with hyphens for spaces, and with an underscore for
/// every other character that a file name does not keep.
pub open spec fn title_part_text(title: Seq<char>) -> Seq<char> {
    sanitized(replace_char(spec_to_lowercase(title), ' ', '-'))
}

/// The name of an embedded document: the part made of the title, the version
/// and the format's extension.
pub open spec fn document_filename_text(
    title: Seq<char>,
    version: Seq<char>,
    extension: Seq<char>,
) -> Seq<char> {
    title_part_text(title) + "-v"@ + version + "."@ + extension
}

/// The part of a name that is made of a title holds only characters that a
/// file name keeps: letters, digits, hyphens and underscores.
pub proof fn lemma_title_part_is_safe(title: Seq<char>)
    ensures
        forall|i: int|
            0 <= i < title_part_text(title).len() ==> is_name_safe(
                #[trigger] title_part_text(title)[i],
            ),
        title_part_text(title).len() == spec_to_lowercase(title).len(),
{
    lemma_sanitized_is_safe(replace_char(spec_to_lowercase(title), ' ', '-'));
}

/// The bytes of a document in a format: for Markdown the content under its
/// front matter, for the other formats what the compiler run gave.
pub open spec fn rendered_bytes(
    format: DocumentFormat,
    markdown_content: Seq<char>,
    metadata: DocumentMetadata,
    compiler: Result<CompilerRun, DocumentError>,
    bytes: Result<Vec<u8>, DocumentError>,
) -> bool {
    match format {
        DocumentFormat::Markdown => bytes.is_ok() && bytes.unwrap()@ == encode_utf8(
            front_matter_of(metadata) + markdown_content,
        ),
        _ => match compiler {
            Ok(run) => compiled(run, bytes),
            Err(e) => bytes == Err::<Vec<u8>, DocumentError>(e),
        },
    }
}

/// What becomes of a decoded request under an id: it is accepted with the
/// generator of its kind, or refused in an error event under the id because
/// the payload could not be decoded or the kind has no generator.
pub open spec fn accepted_as(
    decoded: Result<DocumentGenerationRequest, String>,
    request_id: Seq<char>,
    accepted: Result<AcceptedRequest, DocumentGenerationResponse>,
) -> bool {
    match decoded {
        Err(cause) => accepted.is_err() && accepted.unwrap_err().is_error(
            request_id,
            "Invalid request format: "@ + cause@,
        ),
        Ok(request) => match template_of(request.specification_type) {
            Some(template) => {
                &&& accepted matches Ok(a)
                &&& a.request_id@ == request_id
                &&& a.request == request
                &&& a.generator.template_text() == template
            },
            None => {
                &&& accepted matches Err(response)
                &&& response.is_error(
                    request_id,
                    "Invalid specification type: "@ + request.specification_type.variant_text(),
                )
            },
        },
    }
}

/// What is said of content too long to embed.
pub open spec fn too_long_text() -> Seq<char> {
    "Rendered content is too large to embed"@
}

/// The embedded document made of the bytes of a format.
pub open spec fn embeds(
    document: GeneratedDocument,
    format: DocumentFormat,
    bytes: Seq<u8>,
    metadata: DocumentMetadata,
) -> bool {
    &&& document.format == format
    &&& document.content_base64@ == spec_base64_standard(bytes)
    &&& document.filename@ == document_filename_text(
        metadata.title@,
        metadata.version@,
        format.extension_text(),
    )
    &&& document.mime_type@ == format.mime_type_text()
    &&& document.size_bytes == bytes.len()
}

/// The documents among a list of rendering outcomes, in the list's order.
pub open spec fn rendered_documents(outcomes: Seq<Result<GeneratedDocument, DocumentError>>) -> Seq<
    GeneratedDocument,
>
    decreases outcomes.len(),
{
    if outcomes.len() == 0 {
        Seq::empty()
    } else {
        let rest = rendered_documents(outcomes.drop_last());
        match outcomes.last() {
            Ok(document) => rest.push(document),
            Err(_) => rest,
        }
    }
}

/// The error of the first rendering that failed, if any did.
pub open spec fn first_failure(outcomes: Seq<Result<GeneratedDocument, DocumentError>>) -> Option<
    DocumentError,
>
    decreases outcomes.len(),
{
    if outcomes.len() == 0 {
        None
    } else {
        match first_failure(outcomes.drop_last()) {
            Some(e) => Some(e),
            None => match outcomes.last() {
                Ok(_) => None,
                Err(e) => Some(e),
            },
        }
    }
}

/// Where no rendering failed, the documents are those of all outcomes: one
/// for each, in the same order. Where one failed, there is an outcome that
/// is an error and none before it is, and it is the first failure.
pub proof fn lemma_all_or_first_failure(outcomes: Seq<Result<GeneratedDocument, DocumentError>>)
    ensures
        match first_failure(outcomes) {
            None => {
                &&& rendered_documents(outcomes).len() == outcomes.len()
                &&& forall|i: int|
                    0 <= i < outcomes.len() ==> (#[trigger] outcomes[i]) == Ok::<
                        GeneratedDocument,
                        DocumentError,
                    >(rendered_documents(outcomes)[i])
            },
            Some(e) => exists|i: int|
                {
                    &&& 0 <= i < outcomes.len()
                    &&& #[trigger] outcomes[i] == Err::<GeneratedDocument, DocumentError>(e)
                    &&& forall|k: int| 0 <= k < i ==> (#[trigger] outcomes[k]).is_ok()
                },
        },
    decreases outcomes.len(),
{
    if outcomes.len() > 0 {
        let front = outcomes.drop_last();
        lemma_all_or_first_failure(front);
        match first_failure(front) {
            Some(e) => {
                let i = choose|i: int|
                    {
                        &&& 0 <= i < front.len()
                        &&& #[trigger] front[i] == Err::<GeneratedDocument, DocumentError>(e)
                        &&& forall|k: int| 0 <= k < i ==> (#[trigger] front[k]).is_ok()
                    };
                assert(outcomes[i] == front[i]);
                assert forall|k: int| 0 <= k < i implies (#[trigger] outcomes[k]).is_ok() by {
                    assert(outcomes[k] == front[k]);
                }
            },
            None => {
                assert forall|k: int| 0 <= k < front.len() implies (#[trigger] outcomes[k])
                    == front[k] by {}
                match outcomes.last() {
                    Ok(document) => {
                        let all = rendered_documents(outcomes);
                        assert forall|i: int| 0 <= i < outcomes.len() implies (
                        #[trigger] outcomes[i]) == Ok::<GeneratedDocument, DocumentError>(
                            all[i],
                        ) by {
                            if i < front.len() {
                                assert(outcomes[i] == front[i]);
                                assert(all[i] == rendered_documents(front)[i]);
                            }
                        }
                    },
                    Err(e) => {
                        let i = outcomes.len() - 1;
                        assert(outcomes[i] == Err::<GeneratedDocument, DocumentError>(e));
                        assert forall|k: int| 0 <= k < i implies (#[trigger] outcomes[k]).is_ok() by {
                            assert(outcomes[k] == front[k]);
                        }
                    },
                }
            },
        }
    }
}

/// The outcome event of an accepted request. If its content could not be
/// generated, the event carries that error. If the rendering of any format
/// failed, the event carries the error of the first that failed and no
/// document. Else it carries the documents of all formats, in the order in
/// which they were asked for; with no format asked for it is an error.
pub open spec fn is_outcome_of(
    response: DocumentGenerationResponse,
    request_id: Seq<char>,
    generated: Result<Vec<Result<GeneratedDocument, DocumentError>>, DocumentError>,
) -> bool {
    match generated {
        Err(e) => response.is_error(request_id, e.message()),
        Ok(outcomes) => match first_failure(outcomes@) {
            Some(e) => response.is_error(request_id, e.message()),
            None => if outcomes@.len() == 0 {
                response.is_error(request_id, nothing_rendered_text())
            } else {
                response.is_success(request_id, rendered_documents(outcomes@))
            },
        },
    }
}

/// What is said when no requested format could be rendered.
pub open spec fn nothing_rendered_text() -> Seq<char> {
    "Failed to generate documents in any requested format"@
}

/// The name of a format in diagnostics.
pub fn format_name(format: &DocumentFormat) -> (name: &'static str)
    ensures
        name@ == format.name_text(),
{
    match format {
        DocumentFormat::PDF => "PDF",
        DocumentFormat::Markdown => "Markdown",
        DocumentFormat::HTML => "HTML",
    }
}

/// The name of an embedded document. The part made of the title comes first
/// and holds only characters that a file name keeps.
pub fn document_filename(title: &str, version: &str, extension: &str) -> (name: String)
    ensures
        name@ == document_filename_text(title@, version@, extension@),
        forall|i: int|
            0 <= i < title_part_text(title@).len() ==> name@[i] == title_part_text(title@)[i]
                && is_name_safe(#[trigger] name@[i]),
{
    let lower = to_lowercase(title);
    let hyphened = replace_char_in(lower.as_str(), ' ', '-');
    let mut name = sanitize_title(hyphened.as_str());
    proof {
        lemma_title_part_is_safe(title@);
    }
    name.append("-v");
    name.append(version);
    name.append(".");
    name.append(extension);
    name
}

impl MessageHandler {
    pub fn new() -> (handler: MessageHandler) {
        MessageHandler {
            pdf_renderer: PdfRenderer::new(),
            markdown_renderer: MarkdownRenderer::new(),
            html_renderer: HtmlRenderer::new(),
        }
    }

    /// Accepts a decoded request under the given id, or says why not, in an
    /// error event under the same id: a payload that could not be decoded, or
    /// a kind of document that has no generator.
    pub fn accept_as(
        &self,
        decoded: Result<DocumentGenerationRequest, String>,
        request_id: String,
    ) -> (accepted: Result<AcceptedRequest, DocumentGenerationResponse>)
        ensures
            accepted_as(decoded, request_id@, accepted),
    {
        match decoded {
            Err(cause) => Err(
                DocumentGenerationResponse::error(
                    request_id,
                    concat2("Invalid request format: ", cause.as_str()),
                ),
            ),
            Ok(request) => match create_generator(&request.specification_type) {
                Ok(generator) => Ok(AcceptedRequest { request_id, request, generator }),
                Err(e) => Err(DocumentGenerationResponse::error(request_id, e.to_string())),
            },
        }
    }

    /// Accepts a decoded request under a fresh id, the text of a randomly
    /// drawn identifier, or says why not, in an error event under that id.
    pub fn accept(&self, decoded: Result<DocumentGenerationRequest, String>) -> (accepted: Result<
        AcceptedRequest,
        DocumentGenerationResponse,
    >)
        ensures
            exists|bits: u128|
                is_random_version(bits) && #[trigger] accepted_as(
                    decoded,
                    uuid_text(bits),
                    accepted,
                ),
    {
        let id = Uuid::new_v4();
        let request_id = id.to_text();
        let accepted = self.accept_as(decoded, request_id);
        assert(is_random_version(id.bits) && accepted_as(decoded, uuid_text(id.bits), accepted));
        accepted
    }

    /// The bytes of the document in one format: rendered here for Markdown,
    /// read from the outcome of the compiler run for the other formats.
    pub fn render_bytes(
        &self,
        format: &DocumentFormat,
        markdown_content: &str,
        metadata: &DocumentMetadata,
        compiler: Result<CompilerRun, DocumentError>,
    ) -> (bytes: Result<Vec<u8>, DocumentError>)
        ensures
            rendered_bytes(*format, markdown_content@, *metadata, compiler, bytes),
    {
        match format {
            DocumentFormat::Markdown => Ok(self.markdown_renderer.render(markdown_content, metadata)),
            DocumentFormat::PDF => match compiler {
                Ok(run) => self.pdf_renderer.render(run),
                Err(e) => Err(e),
            },
            DocumentFormat::HTML => match compiler {
                Ok(run) => self.html_renderer.render(run),
                Err(e) => Err(e),
            },
        }
    }

    /// Embeds the bytes of one format as a document of the outcome event.
    /// Fails only for content too long to encode.
    pub fn embed_document(
        &self,
        format: &DocumentFormat,
        content_bytes: &Vec<u8>,
        metadata: &DocumentMetadata,
    ) -> (embedded: Result<GeneratedDocument, DocumentError>)
        ensures
            match embedded {
                Ok(document) => encodable_len(content_bytes@.len()) && embeds(
                    document,
                    *format,
                    content_bytes@,
                    *metadata,
                ),
                Err(e) => {
                    &&& !encodable_len(content_bytes@.len())
                    &&& e matches DocumentError::InvalidData(text)
                    &&& text@ == too_long_text()
                },
            },
    {
        match encode_base64(content_bytes) {
            Some(content_base64) => Ok(
                GeneratedDocument {
                    format: *format,
                    content_base64,
                    filename: document_filename(
                        metadata.title.as_str(),
                        metadata.version.as_str(),
                        format.extension(),
                    ),
                    mime_type: String::from_str(format.mime_type()),
                    size_bytes: content_bytes.len(),
                },
            ),
            None => Err(
                DocumentError::InvalidData(
                    String::from_str("Rendered content is too large to embed"),
                ),
            ),
        }
    }

    /// Renders the content into one format and embeds the result: the error
    /// of the rendering if it failed, else the embedded document.
    pub fn render_document(
        &self,
        format: &DocumentFormat,
        markdown_content: &str,
        metadata: &DocumentMetadata,
        compiler: Result<CompilerRun, DocumentError>,
    ) -> (rendered: Result<GeneratedDocument, DocumentError>)
        ensures
            exists|bytes: Result<Vec<u8>, DocumentError>|
                {
                    &&& #[trigger] rendered_bytes(
                        *format,
                        markdown_content@,
                        *metadata,
                        compiler,
                        bytes,
                    )
                    &&& match bytes {
                        Err(e) => rendered == Err::<GeneratedDocument, DocumentError>(e),
                        Ok(content) => match rendered {
                            Ok(document) => encodable_len(content@.len()) && embeds(
                                document,
                                *format,
                                content@,
                                *metadata,
                            ),
                            Err(e) => {
                                &&& !encodable_len(content@.len())
                                &&& e matches DocumentError::InvalidData(text)
                                &&& text@ == too_long_text()
                            },
                        },
                    }
                },
    {
        let bytes = self.render_bytes(format, markdown_content, metadata, compiler);
        match bytes {
            Ok(content) => {
                let rendered = self.embed_document(format, &content, metadata);
                assert(rendered_bytes(
                    *format,
                    markdown_content@,
                    *metadata,
                    compiler,
                    Ok::<Vec<u8>, DocumentError>(content),
                ));
                rendered
            },
            Err(e) => {
                assert(rendered_bytes(
                    *format,
                    markdown_content@,
                    *metadata,
                    compiler,
                    Err::<Vec<u8>, DocumentError>(e),
                ));
                Err(e)
            },
        }
    }

    /// The outcome event of an accepted request at the given time: all or
    /// nothing. If the content could not be generated or the rendering of any
    /// format failed, the event is an error without documents; else it is a
    /// success with the documents of all formats.
    pub fn handle_message_at(
        &self,
        request_id: String,
        generated: Result<Vec<Result<GeneratedDocument, DocumentError>>, DocumentError>,
        now: crate::clock::Timestamp,
    ) -> (response: DocumentGenerationResponse)
        ensures
            response.generated_at == now,
            is_outcome_of(response, request_id@, generated),
    {
        match generated {
            Err(e) => DocumentGenerationResponse::error_at(request_id, e.to_string(), now),
            Ok(outcomes) => {
                let mut outcomes = outcomes;
                let ghost all = outcomes@;
                let mut documents: Vec<GeneratedDocument> = Vec::new();
                let mut failure: Option<DocumentError> = None;
                // Outcomes are taken from the back, so the documents are
                // collected in reverse and put in order afterwards, and the
                // failure met last is the first of the list.
                while outcomes.len() > 0
                    invariant
                        outcomes@.len() <= all.len(),
                        outcomes@ == all.subrange(0, outcomes@.len() as int),
                        rendered_documents(all) == rendered_documents(outcomes@)
                            + documents@.reverse(),
                        first_failure(all) == match first_failure(outcomes@) {
                            Some(e) => Some(e),
                            None => failure,
                        },
                    decreases outcomes@.len(),
                {
                    let ghost before = outcomes@;
                    let ghost collected = documents@;
                    let last = outcomes.pop();
                    assert(before.drop_last() =~= outcomes@);
                    assert(outcomes@ =~= all.subrange(0, outcomes@.len() as int));
                    match last {
                        Some(Ok(document)) => {
                            documents.push(document);
                            assert(documents@.reverse() =~= seq![document] + collected.reverse());
                            assert(rendered_documents(before) + collected.reverse()
                                =~= rendered_documents(outcomes@) + documents@.reverse());
                        },
                        Some(Err(e)) => {
                            failure = Some(e);
                        },
                        None => {},
                    }
                }
                assert(rendered_documents(all) =~= documents@.reverse());
                match failure {
                    Some(e) => DocumentGenerationResponse::error_at(request_id, e.to_string(), now),
                    None => {
                        let ordered = reversed(documents);
                        proof {
                            lemma_all_or_first_failure(all);
                        }
                        if ordered.len() == 0 {
                            DocumentGenerationResponse::error_at(
                                request_id,
                                String::from_str(
                                    "Failed to generate documents in any requested format",
                                ),
                                now,
                            )
                        } else {
                            DocumentGenerationResponse::success_at(request_id, ordered, now)
                        }
                    },
                }
            },
        }
    }

    /// The outcome event of an accepted request, generated now: all or
    /// nothing, as `handle_message_at` says.
    pub fn handle_message(
        &self,
        request_id: String,
        generated: Result<Vec<Result<GeneratedDocument, DocumentError>>, DocumentError>,
    ) -> (response: DocumentGenerationResponse)
        ensures
            is_outcome_of(response, request_id@, generated),
    {
        self.handle_message_at(request_id, generated, crate::clock::Timestamp::now())
    }
}

/// The documents of a list in the opposite order.
fn reversed(documents: Vec<GeneratedDocument>) -> (ordered: Vec<GeneratedDocument>)
    ensures
        ordered@ == documents@.reverse(),
{
    let mut documents = documents;
    let ghost all = documents@;
    let mut ordered: Vec<GeneratedDocument> = Vec::new();
    while documents.len() > 0
        invariant
            documents@.len() <= all.len(),
            documents@ == all.subrange(0, documents@.len() as int),
            ordered@.len() + documents@.len() == all.len(),
            forall|k: int| 0 <= k < ordered@.len() ==> ordered@[k] == all[all.len() - 1 - k],
        decreases documents@.len(),
    {
        let ghost before = documents@;
        let last = documents.pop();
        assert(documents@ =~= all.subrange(0, documents@.len() as int));
        match last {
            Some(document) => {
                ordered.push(document);
            },
            None => {},
        }
    }
    assert(ordered@ =~= all.reverse());
    ordered
}

} // verus!
