//! The generator of security scan reports.

use vstd::prelude::*;
use crate::error::DocumentError;
use crate::generators::{render_named, Generator};

verus! {

#[derive(Debug)]
pub struct SecurityReportGenerator;

impl SecurityReportGenerator {
    pub fn new() -> (generator: SecurityReportGenerator) {
        SecurityReportGenerator
    }
}

impl Generator for SecurityReportGenerator {
    open spec fn template_text(&self) -> Seq<char> {
        "security_report"@
    }

    fn template_name(&self) -> (name: &'static str) {
        "security_report"
    }

    fn generate(
        &self,
        template_source: &str,
        data: &serde_json::Value,
        metadata: &serde_json::Value,
    ) -> (content: Result<String, DocumentError>) {
        render_named(self.template_name(), template_source, data, metadata)
    }
}

} // verus!
