//! The generator of ISO/IEC/IEEE 29148 concepts of operations.

use vstd::prelude::*;
use crate::error::DocumentError;
use crate::generators::{render_named, Generator};

verus! {

#[derive(Debug)]
pub struct ISO29148ConOpsGenerator;

impl ISO29148ConOpsGenerator {
    pub fn new() -> (generator: ISO29148ConOpsGenerator) {
        ISO29148ConOpsGenerator
    }
}

impl Generator for ISO29148ConOpsGenerator {
    open spec fn template_text(&self) -> Seq<char> {
        "iso29148_conops"@
    }

    fn template_name(&self) -> (name: &'static str) {
        "iso29148_conops"
    }

    fn generate(
        &self,
        template_source: &str,
        data: &serde_json::Value,
        metadata: &serde_json::Value,
    ) -> (content: Result<String, DocumentError>) {
        render_named(self.template_name(), template_source, data, metadata)
    }
}

} // verus!
