//! Template expansion: markup text and a JSON context in, expanded text out.

use vstd::prelude::*;
use vstd::string::*;
use vstd::utf8::encode_utf8;
use crate::error::DocumentError;

verus! {

/// `handlebars::Handlebars`, the registry of compiled templates, carried as an
/// opaque value.
#[verifier::external_type_specification]
#[verifier::external_body]
pub struct ExRegistry<'reg>(handlebars::Handlebars<'reg>);

/// `handlebars::TemplateError`, carried as an opaque value.
#[verifier::external_type_specification]
#[verifier::external_body]
pub struct ExTemplateError(handlebars::TemplateError);

/// `handlebars::RenderError`, carried as an opaque value.
#[verifier::external_type_specification]
#[verifier::external_body]
pub struct ExRenderError(handlebars::RenderError);

/// A registry of templates that lives as long as the program.
pub type Registry = handlebars::Handlebars<'static>;

/// The templates that a registry holds: the source that was registered under
/// each name.
pub uninterp spec fn spec_templates(registry: Registry) -> Map<
    Seq<char>,
    Seq<char>,
>;

/// No template at all.
pub open spec fn no_templates() -> Map<Seq<char>, Seq<char>> {
    Map::empty()
}

/// What is wrong with the source of a template registered under a name: the
/// text of the syntax error, if the source does not compile.
pub uninterp spec fn spec_template_fault(name: Seq<char>, source: Seq<char>) -> Option<Seq<char>>;

/// What the expansion of the template of a name gives against a context,
/// among the templates given: the expanded text, or the text of the error.
pub uninterp spec fn spec_rendering(
    templates: Map<Seq<char>, Seq<char>>,
    name: Seq<char>,
    context: serde_json::Value,
) -> Result<Seq<char>, Seq<char>>;

/// The text of a template error.
pub uninterp spec fn spec_template_error_text(error: handlebars::TemplateError) -> Seq<char>;

/// The text of a rendering error.
pub uninterp spec fn spec_render_error_text(error: handlebars::RenderError) -> Seq<char>;

/// Whether a byte may stand between the opening braces of a tag and the sign
/// that says what kind of tag it is: the tilde, the hash and white space.
pub open spec fn is_tag_opening(byte: u8) -> bool {
    byte == 0x7e || byte == 0x23 || byte == 0x20 || byte == 0x09 || byte == 0x0a || byte == 0x0d
}

/// Whether what stands at a position, behind the opening braces of a tag,
/// makes the tag the inclusion of a partial: a `>`, with nothing before it
/// but what may stand there.
pub open spec fn marks_partial(bytes: Seq<u8>, at: int) -> bool
    decreases bytes.len() - at,
{
    if 0 <= at < bytes.len() {
        if bytes[at] == 0x3e {
            true
        } else if is_tag_opening(bytes[at]) {
            marks_partial(bytes, at + 1)
        } else {
            false
        }
    } else {
        false
    }
}

/// Whether the bytes of a source hold what may be the inclusion of a partial:
/// two opening braces and then, behind at most tildes, hashes and white
/// space, a `>`. A source without it includes no partial, whatever else it
/// holds, and so its expansion ends: it goes once through the source and
/// through the data.
pub open spec fn includes_partial(bytes: Seq<u8>) -> bool {
    exists|i: int|
        0 <= i && i + 1 < bytes.len() && #[trigger] bytes[i] == 0x7b && bytes[i + 1] == 0x7b
            && marks_partial(bytes, i + 2)
}

/// Whether no template of a registry includes a partial.
pub open spec fn no_partials(templates: Map<Seq<char>, Seq<char>>) -> bool {
    forall|name: Seq<char>|
        templates.dom().contains(name) ==> !includes_partial(
            encode_utf8(#[trigger] templates[name]),
        )
}

/// What is said of a source that is refused because it may include a
/// partial.
pub open spec fn refusal_text() -> Seq<char> {
    "Template includes a partial, which is not supported"@
}

/// Whether a source holds what may be the inclusion of a partial.
pub fn has_partial(source: &str) -> (found: bool)
    ensures
        found == includes_partial(encode_utf8(source@)),
{
    let bytes = source.as_bytes();
    let n = bytes.len();
    let mut i: usize = 0;
    while i < n
        invariant
            n == bytes@.len(),
            bytes@ == encode_utf8(source@),
            i <= n,
            forall|k: int|
                0 <= k < i ==> !(k + 1 < bytes@.len() && #[trigger] bytes@[k] == 0x7b && bytes@[k
                    + 1] == 0x7b && marks_partial(bytes@, k + 2)),
        decreases n - i,
    {
        if bytes[i] == 0x7b && i + 1 < n && bytes[i + 1] == 0x7b {
            let mut j: usize = i + 2;
            while j < n && (bytes[j] == 0x7e || bytes[j] == 0x23 || bytes[j] == 0x20 || bytes[j]
                == 0x09 || bytes[j] == 0x0a || bytes[j] == 0x0d)
                invariant
                    n == bytes@.len(),
                    i + 2 <= j <= n,
                    marks_partial(bytes@, i + 2) == marks_partial(bytes@, j as int),
                decreases n - j,
            {
                j += 1;
            }
            if j < n && bytes[j] == 0x3e {
                assert(marks_partial(bytes@, i + 2));
                assert(0 <= i && i + 1 < bytes@.len() && bytes@[i as int] == 0x7b && bytes@[i + 1]
                    == 0x7b);
                assert(includes_partial(bytes@));
                assert(bytes@ == encode_utf8(source@));
                return true;
            }
        }
        i += 1;
    }
    false
}

/// `handlebars::Handlebars::new`: a fresh registry, with the settings that the
/// engine starts with and no template. Registries are made here and changed by
/// `register_template` alone, so every registry has those settings.
#[verifier::external_body]
pub(crate) fn new_registry() -> (registry: Registry)
    ensures
        spec_templates(registry) == no_templates(),
{
    handlebars::Handlebars::new()
}

/// `handlebars::Handlebars::register_template_string`: compiles the source and
/// keeps it under the name, in place of what was kept there; a source that
/// does not compile is reported and the registry stays as it was.
#[verifier::external_body]
pub(crate) fn register_template(
    registry: &mut Registry,
    name: &str,
    source: &str,
) -> (outcome: Result<(), handlebars::TemplateError>)
    ensures
        match outcome {
            Ok(_) => {
                &&& spec_template_fault(name@, source@).is_none()
                &&& spec_templates(*final(registry)) == spec_templates(*old(registry)).insert(
                    name@,
                    source@,
                )
            },
            Err(e) => {
                &&& spec_template_fault(name@, source@) == Some(spec_template_error_text(e))
                &&& spec_templates(*final(registry)) == spec_templates(*old(registry))
            },
        },
{
    registry.register_template_string(name, source)
}

/// `handlebars::Handlebars::render`: expands the template kept under the name
/// against the context, among the templates that the registry holds. It is
/// asked only where no template of the registry includes a partial: a
/// template that includes itself, straight or by way of another, can make the
/// engine go on without end.
#[verifier::external_body]
pub(crate) fn render_registered(
    registry: &Registry,
    name: &str,
    context: &serde_json::Value,
) -> (outcome: Result<String, handlebars::RenderError>)
    requires
        no_partials(spec_templates(*registry)),
    ensures
        match outcome {
            Ok(text) => spec_rendering(spec_templates(*registry), name@, *context) == Ok::<
                Seq<char>,
                Seq<char>,
            >(text@),
            Err(e) => spec_rendering(spec_templates(*registry), name@, *context) == Err::<
                Seq<char>,
                Seq<char>,
            >(spec_render_error_text(e)),
        },
{
    registry.render(name, context)
}

/// `Display` of `handlebars::TemplateError`: the text of the error.
#[verifier::external_body]
pub(crate) fn template_error_text(error: &handlebars::TemplateError) -> (text: String)
    ensures
        text@ == spec_template_error_text(*error),
{
    error.to_string()
}

/// `Display` of `handlebars::RenderError`: the text of the error.
#[verifier::external_body]
pub(crate) fn render_error_text(error: &handlebars::RenderError) -> (text: String)
    ensures
        text@ == spec_render_error_text(*error),
{
    error.to_string()
}

/// What an attempt to expand a template came to.
#[derive(Debug)]
pub enum Expansion {
    /// The source did not compile; the text says why.
    NotCompiled(String),
    /// The expansion failed; the text says why.
    Failed(String),
    /// The expanded text.
    Expanded(String),
}

pub enum ExpansionView {
    NotCompiled(Seq<char>),
    Failed(Seq<char>),
    Expanded(Seq<char>),
}

impl View for Expansion {
    type V = ExpansionView;

    open spec fn view(&self) -> ExpansionView {
        match self {
            Expansion::NotCompiled(cause) => ExpansionView::NotCompiled(cause@),
            Expansion::Failed(cause) => ExpansionView::Failed(cause@),
            Expansion::Expanded(text) => ExpansionView::Expanded(text@),
        }
    }
}

/// What the expansion of a source, compiled under a name in a fresh registry,
/// comes to against a context: a failure, before anything else is tried, if
/// the source may include a partial; else the fault of the source if it does
/// not compile; else what its rendering gives.
pub open spec fn expansion_of(
    name: Seq<char>,
    source: Seq<char>,
    context: serde_json::Value,
) -> ExpansionView {
    if includes_partial(encode_utf8(source)) {
        ExpansionView::Failed(refusal_text())
    } else {
        match spec_template_fault(name, source) {
            Some(cause) => ExpansionView::NotCompiled(cause),
            None => match spec_rendering(
                no_templates().insert(name, source),
                name,
                context,
            ) {
                Ok(text) => ExpansionView::Expanded(text),
                Err(cause) => ExpansionView::Failed(cause),
            },
        }
    }
}

/// Whether a content is what an expansion gives: the expanded text, a
/// template error for a source that did not compile, a rendering error for an
/// expansion that failed, each with the text of its cause.
pub open spec fn is_content_of(
    expansion: ExpansionView,
    content: Result<String, DocumentError>,
) -> bool {
    match expansion {
        ExpansionView::NotCompiled(cause) => {
            &&& content matches Err(DocumentError::TemplateError(text))
            &&& text@ == cause
        },
        ExpansionView::Failed(cause) => {
            &&& content matches Err(DocumentError::RenderError(text))
            &&& text@ == cause
        },
        ExpansionView::Expanded(expanded) => {
            &&& content matches Ok(text)
            &&& text@ == expanded
        },
    }
}

impl Expansion {
    /// The content that an expansion gives: the expanded text, a template
    /// error for a source that did not compile, a rendering error for an
    /// expansion that failed, each with the text of its cause.
    pub open spec fn content(self) -> Result<String, DocumentError> {
        match self {
            Expansion::NotCompiled(cause) => Err(DocumentError::TemplateError(cause)),
            Expansion::Failed(cause) => Err(DocumentError::RenderError(cause)),
            Expansion::Expanded(text) => Ok(text),
        }
    }

    /// The content that the expansion gives.
    pub fn into_content(self) -> (content: Result<String, DocumentError>)
        ensures
            content == self.content(),
            is_content_of(self@, content),
    {
        match self {
            Expansion::NotCompiled(cause) => Err(DocumentError::TemplateError(cause)),
            Expansion::Failed(cause) => Err(DocumentError::RenderError(cause)),
            Expansion::Expanded(text) => Ok(text),
        }
    }
}

/// Compiles the source under the name in a fresh registry and expands it
/// against the context. A source that may include a partial is refused
/// before that: its expansion need not end.
pub fn expand(name: &str, source: &str, context: &serde_json::Value) -> (expansion: Expansion)
    ensures
        expansion@ == expansion_of(name@, source@, *context),
{
    if has_partial(source) {
        return Expansion::Failed(
            String::from_str("Template includes a partial, which is not supported"),
        );
    }
    let mut registry = new_registry();
    match register_template(&mut registry, name, source) {
        Ok(_) => {},
        Err(e) => {
            return Expansion::NotCompiled(template_error_text(&e));
        },
    }
    assert(no_partials(spec_templates(registry))) by {
        assert forall|k: Seq<char>| spec_templates(registry).dom().contains(k) implies !includes_partial(
            encode_utf8(#[trigger] spec_templates(registry)[k]),
        ) by {
            assert(k == name@);
        }
    }
    match render_registered(&registry, name, context) {
        Ok(text) => Expansion::Expanded(text),
        Err(e) => Expansion::Failed(render_error_text(&e)),
    }
}

/// Expands the template of the given name and source against the context. A
/// source that does not compile gives a template error and an expansion that
/// fails a rendering error, each with the text of its cause.
pub fn expand_template(name: &str, source: &str, context: &serde_json::Value) -> (content: Result<
    String,
    DocumentError,
>)
    ensures
        is_content_of(expansion_of(name@, source@, *context), content),
{
    expand(name, source, context).into_content()
}

} // verus!
