//! The generator of ISO/IEC/IEEE 29148 system requirements specifications.

use vstd::prelude::*;
use crate::error::DocumentError;
use crate::generators::{render_named, Generator};

verus! {

#[derive(Debug)]
pub struct ISO29148SyRSGenerator;

impl ISO29148SyRSGenerator {
    pub fn new() -> (generator: ISO29148SyRSGenerator) {
        ISO29148SyRSGenerator
    }
}

impl Generator for ISO29148SyRSGenerator {
    open spec fn template_text(&self) -> Seq<char> {
        "iso29148_syrs"@
    }

    fn template_name(&self) -> (name: &'static str) {
        "iso29148_syrs"
    }

    fn generate(
        &self,
        template_source: &str,
        data: &serde_json::Value,
        metadata: &serde_json::Value,
    ) -> (content: Result<String, DocumentError>) {
        render_named(self.template_name(), template_source, data, metadata)
    }
}

} // verus!
