//! The Markdown output: the generated content under a front-matter header.

use vstd::prelude::*;
use vstd::string::*;
use vstd::utf8::encode_utf8;
use crate::clock::{iso_date_pattern, spec_format_utc};
use crate::models::DocumentMetadata;

verus! {

#[derive(Debug)]
pub struct MarkdownRenderer;

/// The front-matter header: title, author, version, project, organization and
/// date between two rules, followed by an empty line.
pub open spec fn front_matter_text(
    title: Seq<char>,
    author: Seq<char>,
    version: Seq<char>,
    project_name: Seq<char>,
    organization: Seq<char>,
    date: Seq<char>,
) -> Seq<char> {
    "---\ntitle: "@ + title + "\nauthor: "@ + author + "\nversion: "@ + version + "\nproject: "@
        + project_name + "\norganization: "@ + organization + "\ndate: "@ + date + "\n---\n\n"@
}

/// The front-matter header of a document's metadata.
pub open spec fn front_matter_of(metadata: DocumentMetadata) -> Seq<char> {
    front_matter_text(
        metadata.title@,
        metadata.author@,
        metadata.version@,
        metadata.project_name@,
        metadata.organization@,
        spec_format_utc(
            metadata.generated_date.spec_secs(),
            metadata.generated_date.spec_nanos(),
            iso_date_pattern(),
        ),
    )
}

impl MarkdownRenderer {
    pub fn new() -> (renderer: MarkdownRenderer) {
        MarkdownRenderer
    }

    /// The front-matter header of a document's metadata.
    pub fn front_matter(&self, metadata: &DocumentMetadata) -> (header: String)
        ensures
            header@ == front_matter_of(*metadata),
    {
        let date = metadata.generated_date.iso_date();
        let mut header = String::from_str("---\ntitle: ");
        header.append(metadata.title.as_str());
        header.append("\nauthor: ");
        header.append(metadata.author.as_str());
        header.append("\nversion: ");
        header.append(metadata.version.as_str());
        header.append("\nproject: ");
        header.append(metadata.project_name.as_str());
        header.append("\norganization: ");
        header.append(metadata.organization.as_str());
        header.append("\ndate: ");
        header.append(date.as_str());
        header.append("\n---\n\n");
        header
    }

    /// The bytes of the Markdown file: the front matter, then the content, in
    /// UTF-8.
    pub fn render(&self, markdown_content: &str, metadata: &DocumentMetadata) -> (bytes: Vec<u8>)
        ensures
            bytes@ == encode_utf8(front_matter_of(*metadata) + markdown_content@),
    {
        let mut full_content = self.front_matter(metadata);
        full_content.append(markdown_content);
        full_content.as_str().as_bytes_vec()
    }
}

} // verus!
