//! The generator of IEEE 830 requirements specifications.

use vstd::prelude::*;
use crate::error::DocumentError;
use crate::generators::{render_named, Generator};

verus! {

#[derive(Debug)]
pub struct IEEE830Generator;

impl IEEE830Generator {
    pub fn new() -> (generator: IEEE830Generator) {
        IEEE830Generator
    }
}

impl Generator for IEEE830Generator {
    open spec fn template_text(&self) -> Seq<char> {
        "ieee830_srs"@
    }

    fn template_name(&self) -> (name: &'static str) {
        "ieee830_srs"
    }

    fn generate(
        &self,
        template_source: &str,
        data: &serde_json::Value,
        metadata: &serde_json::Value,
    ) -> (content: Result<String, DocumentError>) {
        render_named(self.template_name(), template_source, data, metadata)
    }
}

} // verus!
