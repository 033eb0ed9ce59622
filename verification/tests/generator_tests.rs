use document_generation_service::error::DocumentError;
use document_generation_service::generators::{
    context_entries, create_generator, render_named, template_path, Generator, IEEE830Generator,
    ISO29148StakRSGenerator, SecurityReportGenerator,
};
use document_generation_service::models::SpecificationType;
use document_generation_service::template::{expand, expand_template, has_partial, Expansion};

fn json(text: &str) -> serde_json::Value {
    serde_json::from_str(text).unwrap()
}

#[test]
fn generators_of_the_kinds() {
    let cases = [
        (SpecificationType::IEEE830DRD, "ieee830_srs"),
        (SpecificationType::IEEE830SRS, "ieee830_srs"),
        (SpecificationType::ISO29148StakeholderRequirements, "iso29148_stakrs"),
        (SpecificationType::ISO29148SystemRequirements, "iso29148_syrs"),
        (SpecificationType::ISO29148SoftwareRequirements, "iso29148_srs"),
        (SpecificationType::ISO29148ConceptOfOperations, "iso29148_conops"),
        (SpecificationType::SecurityScanReport, "security_report"),
    ];
    for (spec_type, template) in cases {
        assert_eq!(create_generator(&spec_type).unwrap().template_name(), template);
    }
}

#[test]
fn kinds_without_generator() {
    let cases = [
        (SpecificationType::MilStd498SRS, "MilStd498SRS"),
        (SpecificationType::ComplianceAuditReport, "ComplianceAuditReport"),
        (SpecificationType::TestExecutionReport, "TestExecutionReport"),
    ];
    for (spec_type, name) in cases {
        let error = create_generator(&spec_type).unwrap_err();
        assert!(matches!(error, DocumentError::InvalidSpecificationType(_)));
        assert_eq!(error.to_string(), format!("Invalid specification type: {}", name));
        assert_eq!(error.error_type(), "invalid_specification_type");
    }
}

#[test]
fn template_names_and_paths() {
    assert_eq!(IEEE830Generator::new().template_name(), "ieee830_srs");
    assert_eq!(ISO29148StakRSGenerator::new().template_name(), "iso29148_stakrs");
    assert_eq!(SecurityReportGenerator::new().template_name(), "security_report");
    assert_eq!(template_path("ieee830_srs"), "./templates/ieee830_srs.md.hbs");
}

#[test]
fn context_has_metadata_data_and_the_datas_own_entries() {
    let metadata = json("{\"title\": \"T\"}");
    let data = json("{\"a\": 1}");
    let own = vec![(String::from("a"), json("1"))];
    let entries = context_entries(metadata.clone(), data.clone(), Some(own));
    assert_eq!(
        entries,
        vec![
            (String::from("metadata"), metadata.clone()),
            (String::from("data"), data.clone()),
            (String::from("a"), json("1")),
        ]
    );
    let plain = context_entries(metadata.clone(), json("[1, 2]"), None);
    assert_eq!(plain.len(), 2);
    assert_eq!(plain[1], (String::from("data"), json("[1, 2]")));
}

#[test]
fn content_is_expanded_against_metadata_and_data() {
    let metadata = json("{\"title\": \"Alpha\"}");
    let data = json("{\"name\": \"World\", \"items\": [\"x\", \"y\"]}");
    let source = "# {{metadata.title}}\nHello {{name}} / {{data.name}}{{#each items}} {{this}}{{/each}}";
    let content = IEEE830Generator::new().generate(source, &data, &metadata).unwrap();
    assert_eq!(content, "# Alpha\nHello World / World x y");
    let same = create_generator(&SpecificationType::SecurityScanReport)
        .unwrap()
        .generate(source, &data, &metadata)
        .unwrap();
    assert_eq!(same, content);
}

#[test]
fn data_entries_override_the_named_entries() {
    let metadata = json("{\"title\": \"Alpha\"}");
    let data = json("{\"metadata\": {\"title\": \"Mine\"}}");
    let content = render_named("t", "{{metadata.title}}", &data, &metadata).unwrap();
    assert_eq!(content, "Mine");
}

#[test]
fn data_that_is_no_object_is_reachable_under_data_only() {
    let metadata = json("{\"title\": \"Alpha\"}");
    let data = json("[10, 20]");
    let content = render_named("t", "{{data.[1]}}-{{missing}}", &data, &metadata).unwrap();
    assert_eq!(content, "20-");
}

#[test]
fn values_are_escaped_for_markup() {
    let content =
        render_named("t", "{{v}}", &json("{\"v\": \"<b>&\"}"), &json("null")).unwrap();
    assert_eq!(content, "&lt;b&gt;&amp;");
}

#[test]
fn a_template_that_does_not_compile_is_a_template_error() {
    let error =
        render_named("t", "{{#if x}}never closed", &json("{}"), &json("{}")).unwrap_err();
    assert!(matches!(error, DocumentError::TemplateError(_)));
    assert!(error.to_string().starts_with("Template error: "));
    assert_eq!(error.to_error_response().error_type, "template_error");
}

#[test]
fn an_expansion_that_fails_is_a_render_error() {
    let error =
        render_named("t", "{{> no_such_partial}}", &json("{}"), &json("{}")).unwrap_err();
    assert!(matches!(error, DocumentError::RenderError(_)));
    assert!(error.to_string().starts_with("Rendering error: "));
}

#[test]
fn expansion_outcomes_are_read_as_content_or_error() {
    assert_eq!(Expansion::Expanded(String::from("text")).into_content().unwrap(), "text");
    let not_compiled = Expansion::NotCompiled(String::from("bad")).into_content().unwrap_err();
    assert_eq!(not_compiled.to_string(), "Template error: bad");
    let failed = Expansion::Failed(String::from("worse")).into_content().unwrap_err();
    assert_eq!(failed.to_string(), "Rendering error: worse");
}

#[test]
fn a_template_is_expanded_against_its_context_as_it_is() {
    let context = json("{\"name\": \"World\", \"n\": 3}");
    assert_eq!(expand_template("t", "Hello {{name}} x{{n}}", &context).unwrap(), "Hello World x3");
    assert!(matches!(expand("t", "{{name}}", &context), Expansion::Expanded(_)));
    assert!(matches!(expand("t", "{{#each}}", &context), Expansion::NotCompiled(_)));
    assert_eq!(expand_template("t", "", &context).unwrap(), "");
}

#[test]
fn expansion_depends_on_name_source_and_context_alone() {
    let context = json("{\"name\": \"World\"}");
    let first = expand_template("t", "Hello {{name}}", &context).unwrap();
    let second = expand_template("t", "Hello {{name}}", &context).unwrap();
    assert_eq!(first, second);
    let bad_a = expand_template("t", "{{#if x}}", &context).unwrap_err().to_string();
    let bad_b = expand_template("t", "{{#if x}}", &context).unwrap_err().to_string();
    assert_eq!(bad_a, bad_b);
}

#[test]
fn sources_that_may_include_a_partial_are_found() {
    for source in [
        "{{> a}}",
        "{{>a}}",
        "{{~> a}}",
        "{{ > a}}",
        "{{#> a}}x{{/a}}",
        "{{ ~ # > a}}x{{/a}}",
        "{{#\n\t>\ra}}",
        "text {{name}} {{> @partial-block}}",
        "{{{> a}}",
        "{{{{> a}}}}",
        "\\{{> a}}",
        "é{{> a}}",
    ] {
        assert!(has_partial(source), "{:?}", source);
    }
    for source in [
        "",
        "{",
        "{{",
        "{{~",
        "> quote",
        "a > b",
        "{{name}} > {{other}}",
        "{{#if a}}>{{/if}}",
        "{{#*inline \"a\"}}x{{/inline}}",
        "{ {> a}}",
        "{{!> a}}",
        "{{a>b}}",
        "**bold** {{#each items}}* {{this}}{{/each}}",
        "{{> ",
    ] {
        assert_eq!(has_partial(source), source == "{{> ", "{:?}", source);
    }
}

#[test]
fn a_source_that_includes_itself_is_refused_and_the_call_returns() {
    let context = json("{\"x\": true}");
    for source in [
        "{{#*inline \"a\"}}{{> a}}{{/inline}}{{> a}}",
        "{{#*inline \"a\"}}{{> t}}{{/inline}}{{> a}}",
        "{{#if x}}{{> t}}{{/if}}",
        "{{#> missing}}{{> t}}{{/missing}}",
        "{{> t}}",
        "{{> no_such_partial}}",
    ] {
        let error = expand_template("t", source, &context).unwrap_err();
        assert!(matches!(error, DocumentError::RenderError(_)));
        assert_eq!(
            error.to_string(),
            "Rendering error: Template includes a partial, which is not supported"
        );
        assert!(matches!(expand("t", source, &context), Expansion::Failed(_)));
        let refused = render_named("t", source, &context, &json("{}")).unwrap_err();
        assert_eq!(refused.to_string(), error.to_string());
    }
}

#[test]
fn an_inline_partial_that_is_never_included_does_no_harm() {
    let context = json("{\"name\": \"World\"}");
    let source = "{{#*inline \"a\"}}unused{{/inline}}Hello {{name}}";
    assert_eq!(expand_template("t", source, &context).unwrap(), "Hello World");
}

#[test]
fn an_expansion_that_the_engine_fails_is_a_render_error_with_its_text() {
    let error = expand_template("t", "{{lookup}}", &json("{}")).unwrap_err();
    assert!(matches!(error, DocumentError::RenderError(_)));
    assert!(error.to_string().starts_with("Rendering error: "));
    assert_ne!(
        error.to_string(),
        "Rendering error: Template includes a partial, which is not supported"
    );
}
