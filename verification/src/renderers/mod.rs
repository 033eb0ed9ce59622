//! The renderers of the three output formats. The format compiler is an
//! outside process: a renderer says with which arguments it is run and what
//! its outcome means.

pub mod html;
pub mod markdown;
pub mod pdf;

pub use html::HtmlRenderer;
pub use markdown::MarkdownRenderer;
pub use pdf::PdfRenderer;

use vstd::prelude::*;
use crate::error::DocumentError;
use crate::text::texts;

verus! {

/// What a run of the format compiler left behind: whether it exited with
/// success, its diagnostic output, and the bytes of the file it wrote.
#[derive(Debug, Clone)]
pub struct CompilerRun {
    pub success: bool,
    pub diagnostics: String,
    pub output: Vec<u8>,
}

/// The result of a compiler run: the bytes written on success, and otherwise
/// the compiler's diagnostics, verbatim.
pub open spec fn compiled(run: CompilerRun, result: Result<Vec<u8>, DocumentError>) -> bool {
    if run.success {
        result == Ok::<Vec<u8>, DocumentError>(run.output)
    } else {
        result == Err::<Vec<u8>, DocumentError>(DocumentError::PandocError(run.diagnostics))
    }
}

/// Reads the outcome of a compiler run.
pub fn compiler_result(run: CompilerRun) -> (result: Result<Vec<u8>, DocumentError>)
    ensures
        compiled(run, result),
{
    if run.success {
        Ok(run.output)
    } else {
        Err(DocumentError::PandocError(run.diagnostics))
    }
}

/// Adds one argument to a command line.
pub fn push_argument(arguments: &mut Vec<String>, argument: String)
    ensures
        texts(final(arguments)@) == texts(old(arguments)@).push(argument@),
{
    let ghost before = arguments@;
    arguments.push(argument);
    assert(texts(arguments@) =~= texts(before).push(argument@));
}

} // verus!
