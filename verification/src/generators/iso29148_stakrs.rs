//! The generator of ISO/IEC/IEEE 29148 stakeholder requirements specifications.

use vstd::prelude::*;
use crate::error::DocumentError;
use crate::generators::{render_named, Generator};

verus! {

#[derive(Debug)]
pub struct ISO29148StakRSGenerator;

impl ISO29148StakRSGenerator {
    pub fn new() -> (generator: ISO29148StakRSGenerator) {
        ISO29148StakRSGenerator
    }
}

impl Generator for ISO29148StakRSGenerator {
    open spec fn template_text(&self) -> Seq<char> {
        "iso29148_stakrs"@
    }

    fn template_name(&self) -> (name: &'static str) {
        "iso29148_stakrs"
    }

    fn generate(
        &self,
        template_source: &str,
        data: &serde_json::Value,
        metadata: &serde_json::Value,
    ) -> (content: Result<String, DocumentError>) {
        render_named(self.template_name(), template_source, data, metadata)
    }
}

} // verus!
