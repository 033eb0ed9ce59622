//! The HTML output: a styled, self-contained hypertext document.

use vstd::prelude::*;
use vstd::string::*;
use crate::clock::{long_date_pattern, spec_format_utc};
use crate::error::DocumentError;
use crate::models::DocumentMetadata;
use crate::renderers::{compiled, compiler_result, push_argument, CompilerRun};
use crate::text::{concat2, texts};

verus! {

#[derive(Debug)]
pub struct HtmlRenderer;

/// The arguments with which the format compiler turns the file at `input`
/// into the hypertext file at `output`.
pub open spec fn html_arguments(
    input: Seq<char>,
    output: Seq<char>,
    title: Seq<char>,
    author: Seq<char>,
    date: Seq<char>,
) -> Seq<Seq<char>> {
    seq![
        input,
        "-o"@,
        output,
        "--from=markdown+yaml_metadata_block"@,
        "--to=html5"@,
        "--standalone"@,
        "--toc"@,
        "--toc-depth=3"@,
        "--css=https://cdnjs.cloudflare.com/ajax/libs/github-markdown-css/5.1.0/github-markdown.min.css"@,
        "--self-contained"@,
        "-V"@,
        "title="@ + title,
        "-V"@,
        "author="@ + author,
        "-V"@,
        "date="@ + date,
    ]
}

impl HtmlRenderer {
    pub fn new() -> (renderer: HtmlRenderer) {
        HtmlRenderer
    }

    /// The arguments of the compiler run that produces the document: the
    /// fixed layout options and the title, author and date of the metadata.
    pub fn command_arguments(&self, input: &str, output: &str, metadata: &DocumentMetadata) -> (arguments:
        Vec<String>)
        ensures
            texts(arguments@) == html_arguments(
                input@,
                output@,
                metadata.title@,
                metadata.author@,
                spec_format_utc(
                    metadata.generated_date.spec_secs(),
                    metadata.generated_date.spec_nanos(),
                    long_date_pattern(),
                ),
            ),
    {
        let date = metadata.generated_date.long_date();
        let mut arguments: Vec<String> = Vec::new();
        assert(texts(arguments@) =~= Seq::<Seq<char>>::empty());
        push_argument(&mut arguments, String::from_str(input));
        push_argument(&mut arguments, String::from_str("-o"));
        push_argument(&mut arguments, String::from_str(output));
        push_argument(&mut arguments, String::from_str("--from=markdown+yaml_metadata_block"));
        push_argument(&mut arguments, String::from_str("--to=html5"));
        push_argument(&mut arguments, String::from_str("--standalone"));
        push_argument(&mut arguments, String::from_str("--toc"));
        push_argument(&mut arguments, String::from_str("--toc-depth=3"));
        push_argument(
            &mut arguments,
            String::from_str(
                "--css=https://cdnjs.cloudflare.com/ajax/libs/github-markdown-css/5.1.0/github-markdown.min.css",
            ),
        );
        push_argument(&mut arguments, String::from_str("--self-contained"));
        push_argument(&mut arguments, String::from_str("-V"));
        push_argument(&mut arguments, concat2("title=", metadata.title.as_str()));
        push_argument(&mut arguments, String::from_str("-V"));
        push_argument(&mut arguments, concat2("author=", metadata.author.as_str()));
        push_argument(&mut arguments, String::from_str("-V"));
        push_argument(&mut arguments, concat2("date=", date.as_str()));
        arguments
    }

    /// The bytes of the HTML document, read from the outcome of the compiler
    /// run: the file the compiler wrote, or its diagnostics if it failed.
    pub fn render(&self, run: CompilerRun) -> (result: Result<Vec<u8>, DocumentError>)
        ensures
            compiled(run, result),
    {
        compiler_result(run)
    }
}

} // verus!
