//! The generator of ISO/IEC/IEEE 29148 software requirements specifications.

use vstd::prelude::*;
use crate::error::DocumentError;
use crate::generators::{render_named, Generator};

verus! {

#[derive(Debug)]
pub struct ISO29148SRSGenerator;

impl ISO29148SRSGenerator {
    pub fn new() -> (generator: ISO29148SRSGenerator) {
        ISO29148SRSGenerator
    }
}

impl Generator for ISO29148SRSGenerator {
    open spec fn template_text(&self) -> Seq<char> {
        "iso29148_srs"@
    }

    fn template_name(&self) -> (name: &'static str) {
        "iso29148_srs"
    }

    fn generate(
        &self,
        template_source: &str,
        data: &serde_json::Value,
        metadata: &serde_json::Value,
    ) -> (content: Result<String, DocumentError>) {
        render_named(self.template_name(), template_source, data, metadata)
    }
}

} // verus!
