//! The PDF output: a paginated, typeset document with a table of contents and
//! numbered sections.

use vstd::prelude::*;
use vstd::string::*;
use crate::clock::{long_date_pattern, spec_format_utc};
use crate::error::DocumentError;
use crate::models::DocumentMetadata;
use crate::renderers::{compiled, compiler_result, push_argument, CompilerRun};
use crate::text::{concat2, opt_text, texts};

verus! {

#[derive(Debug)]
pub struct PdfRenderer;

/// The running header that shows a classification marking on every page.
pub open spec fn classification_header_text(classification: Seq<char>) -> Seq<char> {
    "header-includes=\\markboth{"@ + classification + "}{"@ + classification + "}"@
}

/// The arguments with which the format compiler typesets the file at `input`
/// into the file at `output`.
pub open spec fn pdf_arguments(
    input: Seq<char>,
    output: Seq<char>,
    title: Seq<char>,
    author: Seq<char>,
    date: Seq<char>,
    classification: Option<Seq<char>>,
) -> Seq<Seq<char>> {
    let fixed = seq![
        input,
        "-o"@,
        output,
        "--from=markdown+yaml_metadata_block+hard_line_breaks"@,
        "--to=pdf"@,
        "--pdf-engine=xelatex"@,
        "--toc"@,
        "--toc-depth=3"@,
        "--number-sections"@,
        "-V"@,
        "geometry:margin=1in"@,
        "-V"@,
        "fontsize=11pt"@,
        "-V"@,
        "documentclass=article"@,
        "-V"@,
        "title="@ + title,
        "-V"@,
        "author="@ + author,
        "-V"@,
        "date="@ + date,
    ];
    match classification {
        Some(marking) => fixed + seq!["-V"@, classification_header_text(marking)],
        None => fixed,
    }
}

impl PdfRenderer {
    pub fn new() -> (renderer: PdfRenderer) {
        PdfRenderer
    }

    /// The arguments of the compiler run that typesets the document: the
    /// fixed layout options, the title, author and date of the metadata, and
    /// the running header if the metadata carries a classification.
    pub fn command_arguments(&self, input: &str, output: &str, metadata: &DocumentMetadata) -> (arguments:
        Vec<String>)
        ensures
            texts(arguments@) == pdf_arguments(
                input@,
                output@,
                metadata.title@,
                metadata.author@,
                spec_format_utc(
                    metadata.generated_date.spec_secs(),
                    metadata.generated_date.spec_nanos(),
                    long_date_pattern(),
                ),
                opt_text(metadata.classification),
            ),
    {
        let date = metadata.generated_date.long_date();
        let mut arguments: Vec<String> = Vec::new();
        assert(texts(arguments@) =~= Seq::<Seq<char>>::empty());
        push_argument(&mut arguments, String::from_str(input));
        push_argument(&mut arguments, String::from_str("-o"));
        push_argument(&mut arguments, String::from_str(output));
        push_argument(
            &mut arguments,
            String::from_str("--from=markdown+yaml_metadata_block+hard_line_breaks"),
        );
        push_argument(&mut arguments, String::from_str("--to=pdf"));
        push_argument(&mut arguments, String::from_str("--pdf-engine=xelatex"));
        push_argument(&mut arguments, String::from_str("--toc"));
        push_argument(&mut arguments, String::from_str("--toc-depth=3"));
        push_argument(&mut arguments, String::from_str("--number-sections"));
        push_argument(&mut arguments, String::from_str("-V"));
        push_argument(&mut arguments, String::from_str("geometry:margin=1in"));
        push_argument(&mut arguments, String::from_str("-V"));
        push_argument(&mut arguments, String::from_str("fontsize=11pt"));
        push_argument(&mut arguments, String::from_str("-V"));
        push_argument(&mut arguments, String::from_str("documentclass=article"));
        push_argument(&mut arguments, String::from_str("-V"));
        push_argument(&mut arguments, concat2("title=", metadata.title.as_str()));
        push_argument(&mut arguments, String::from_str("-V"));
        push_argument(&mut arguments, concat2("author=", metadata.author.as_str()));
        push_argument(&mut arguments, String::from_str("-V"));
        push_argument(&mut arguments, concat2("date=", date.as_str()));
        let ghost fixed = texts(arguments@);
        match &metadata.classification {
            Some(classification) => {
                let mut header = String::from_str("header-includes=\\markboth{");
                header.append(classification.as_str());
                header.append("}{");
                header.append(classification.as_str());
                header.append("}");
                push_argument(&mut arguments, String::from_str("-V"));
                push_argument(&mut arguments, header);
                assert(texts(arguments@) =~= fixed + seq![
                    "-V"@,
                    classification_header_text(classification@),
                ]);
            },
            None => {},
        }
        arguments
    }

    /// The bytes of the PDF, read from the outcome of the compiler run: the
    /// file the compiler wrote, or its diagnostics if it failed.
    pub fn render(&self, run: CompilerRun) -> (result: Result<Vec<u8>, DocumentError>)
        ensures
            compiled(run, result),
    {
        compiler_result(run)
    }
}

} // verus!
