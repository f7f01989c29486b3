//! The template engine, taken on trust. Every call into the `handlebars`
//! crate stands here, behind a contract over named views of an engine value:
//! the map of registered template sources, the strict-mode flag, and the
//! child-template names each source statically references.
//!
//! The engine's recursive expansion of referenced templates carries no depth
//! guard beyond refusing a template that includes itself directly, so a cycle
//! of two or more templates would never return. The render wrapper therefore
//! demands that every chain of recorded references out of the root resolves
//! within one level per registered template — which rules a reachable cycle
//! out — and the registry establishes that in verified code before each call,
//! from references recorded at registration. A source whose references cannot
//! be recorded statically (a subexpression name, a decorator such as an
//! inline partial, or a contextual `@`-reference) is refused at registration.
//!
//! Every engine value in this crate is built by `engine_new`, which leaves
//! the engine's other configuration (built-in helpers, HTML escaping) at its
//! defaults; under that fixed configuration, and with strict mode on, the
//! outcome of a render is a function of the registered sources, the chosen
//! template name and the data map alone.

use vstd::prelude::*;
use handlebars::RenderErrorReason;
use crate::context::Context;
use crate::errors::{RenderError, SpecRenderError, render_result_view};

verus! {

#[verifier::external_type_specification]
#[verifier::external_body]
pub struct ExHandlebars<'reg>(handlebars::Handlebars<'reg>);

#[verifier::external_type_specification]
#[verifier::external_body]
pub struct ExTemplate(handlebars::template::Template);

#[verifier::external_type_specification]
#[verifier::external_body]
pub struct ExDecoratorTemplate(handlebars::template::DecoratorTemplate);

/// The template sources registered in an engine, keyed by template name.
pub uninterp spec fn engine_templates(h: handlebars::Handlebars<'static>) -> Map<
    Seq<char>,
    Seq<char>,
>;

/// Whether the engine rejects a lookup of a data key the data does not hold.
pub uninterp spec fn engine_strict(h: handlebars::Handlebars<'static>) -> bool;

/// The map of an engine that holds no templates.
pub open spec fn no_templates() -> Map<Seq<char>, Seq<char>> {
    Map::empty()
}

/// Whether a source text parses as a template. Registration succeeds on
/// exactly these sources.
pub uninterp spec fn engine_accepts(source: Seq<char>) -> bool;

/// The child-template names a source statically references, in the order the
/// engine's parse finds them: `Some` when the source parses and every
/// reference names its child by a literal name, `None` otherwise.
pub uninterp spec fn refs_of(source: Seq<char>) -> Option<Seq<Seq<char>>>;

/// What a scan of a source's references found.
pub enum RefScan {
    /// The source parses and references children by literal names only.
    Static(Vec<String>),
    /// The source parses, but names a child dynamically, defines one inline,
    /// or refers to the surrounding block contextually.
    Dynamic,
    /// The source does not parse; the text is the engine's account.
    Invalid(String),
}

/// A scan's findings, seen at the spec level.
pub open spec fn refs_scan_view(r: RefScan) -> Option<Seq<Seq<char>>> {
    match r {
        RefScan::Static(v) => Some(v.deep_view()),
        RefScan::Dynamic => None,
        RefScan::Invalid(_) => None,
    }
}

/// Whether every chain of recorded references out of `name`, through
/// registered templates, resolves within `fuel` levels of expansion. An
/// unregistered name expands to nothing (the engine stops with an error
/// there), so it is resolved at any depth.
pub open spec fn spec_expands(
    templates: Map<Seq<char>, Seq<char>>,
    name: Seq<char>,
    fuel: nat,
) -> bool
    decreases fuel,
{
    if !templates.contains_key(name) {
        true
    } else if fuel == 0 {
        false
    } else {
        match refs_of(templates[name]) {
            Some(rs) => forall|k: int|
                0 <= k < rs.len() ==> spec_expands(templates, rs[k], (fuel - 1) as nat),
            None => false,
        }
    }
}

/// Whether expanding `name` resolves within one level per registered
/// template. A chain longer than that must pass through some registered
/// template twice — a cycle — so expansion of a bounded name terminates.
pub open spec fn expansion_bounded(templates: Map<Seq<char>, Seq<char>>, name: Seq<char>) -> bool {
    spec_expands(templates, name, templates.dom().len())
}

/// Whether a render result reports a missing template of exactly this name.
pub open spec fn reports_missing_template(r: Result<String, RenderError>, name: Seq<char>) -> bool {
    r matches Err(RenderError::MissingTemplate(n)) && n@ == name
}

/// The outcome of rendering `name` from the given template sources against
/// the given data, under strict mode; meaningful on names whose expansion is
/// bounded, the only ones the engine is asked to render.
pub uninterp spec fn engine_render(
    templates: Map<Seq<char>, Seq<char>>,
    name: Seq<char>,
    data: Map<Seq<char>, Seq<char>>,
) -> Result<Seq<char>, SpecRenderError>;

/// What rendering `name` yields: the engine's outcome where the expansion is
/// bounded, and a circular-reference failure — reported without asking the
/// engine — where it is not.
pub open spec fn spec_render_outcome(
    templates: Map<Seq<char>, Seq<char>>,
    name: Seq<char>,
    data: Map<Seq<char>, Seq<char>>,
) -> Result<Seq<char>, SpecRenderError> {
    if expansion_bounded(templates, name) {
        engine_render(templates, name, data)
    } else {
        Err(SpecRenderError::CircularReference(name))
    }
}

/// Relies on handlebars::Handlebars::new: a fresh engine holds no templates
/// and has strict mode off.
#[verifier::external_body]
pub(crate) fn engine_new() -> (h: handlebars::Handlebars<'static>)
    ensures
        engine_templates(h) == no_templates(),
        !engine_strict(h),
{
    handlebars::Handlebars::new()
}

/// Relies on handlebars::Handlebars::set_strict_mode: it sets the flag and
/// touches nothing else.
#[verifier::external_body]
pub(crate) fn engine_set_strict(h: &mut handlebars::Handlebars<'static>)
    ensures
        engine_templates(*final(h)) == engine_templates(*old(h)),
        engine_strict(*final(h)),
{
    h.set_strict_mode(true);
}

/// Relies on handlebars::Handlebars::register_template_string: it parses the
/// source first — success depends on the source text alone — and inserts the
/// template under the name only on success, overwriting any earlier entry.
#[verifier::external_body]
pub(crate) fn engine_register(
    h: &mut handlebars::Handlebars<'static>,
    name: &str,
    source: &str,
) -> (r: Result<(), String>)
    ensures
        r is Ok <==> engine_accepts(source@),
        r is Ok ==> engine_templates(*final(h)) == engine_templates(*old(h)).insert(
            name@,
            source@,
        ),
        r is Err ==> engine_templates(*final(h)) == engine_templates(*old(h)),
        engine_strict(*final(h)) == engine_strict(*old(h)),
{
    h.register_template_string(name, source).map_err(|e| format!("{e}"))
}

/// Walks one parsed template's elements: pushes block sub-templates onto the
/// stack for `engine_refs`, records partial names, and answers false on a
/// decorator (an inline partial) or a dynamic partial name.
#[verifier::external_body]
fn scan_elements<'a>(
    t: &'a handlebars::template::Template,
    stack: &mut Vec<&'a handlebars::template::Template>,
    out: &mut Vec<String>,
) -> bool {
    t.elements.iter().all(|el| match el {
        handlebars::template::TemplateElement::HelperBlock(h) => {
            stack.extend(h.template.iter().chain(h.inverse.iter()));
            true
        },
        handlebars::template::TemplateElement::PartialExpression(d)
        | handlebars::template::TemplateElement::PartialBlock(d) => scan_partial(d, stack, out),
        handlebars::template::TemplateElement::DecoratorExpression(_)
        | handlebars::template::TemplateElement::DecoratorBlock(_) => false,
        _ => true,
    })
}

/// Records one partial reference: its literal name, and its fallback block
/// for further scanning; answers false on a dynamic or contextual name.
#[verifier::external_body]
fn scan_partial<'a>(
    d: &'a handlebars::template::DecoratorTemplate,
    stack: &mut Vec<&'a handlebars::template::Template>,
    out: &mut Vec<String>,
) -> bool {
    match &d.name {
        handlebars::template::Parameter::Name(n) if !n.starts_with('@') => {
            out.push(n.clone());
            stack.extend(d.template.iter());
            true
        },
        _ => false,
    }
}

/// Relies on handlebars::template::Template::compile: the same parse that
/// registration performs, whose element tree names, in
/// `PartialExpression`/`PartialBlock` nodes and the sub-templates of blocks,
/// every template the engine could expand from this source — except through a
/// decorator (an inline partial), a subexpression name or an `@`-reference,
/// on which the scan answers `Dynamic` instead.
#[verifier::external_body]
pub(crate) fn engine_refs(source: &str) -> (r: RefScan)
    ensures
        r matches RefScan::Invalid(_) <==> !engine_accepts(source@),
        !(r matches RefScan::Invalid(_)) ==> refs_scan_view(r) == refs_of(source@),
{
    let t = match handlebars::template::Template::compile(source) {
        Ok(t) => t,
        Err(e) => return RefScan::Invalid(format!("{e}")),
    };
    let mut stack: Vec<&handlebars::template::Template> = Vec::new();
    let mut out: Vec<String> = Vec::new();
    stack.push(&t);
    while let Some(tpl) = stack.pop() {
        if !scan_elements(tpl, &mut stack, &mut out) {
            return RefScan::Dynamic;
        }
    }
    RefScan::Static(out)
}

/// Relies on handlebars::Handlebars::render: under strict mode the outcome
/// is a function of the registered sources and the data map alone; a name
/// with no registered template reports exactly a missing template of that
/// name; the error's kind is read off handlebars::RenderError::reason. The
/// engine expands referenced templates recursively and guards only against a
/// template including itself directly, so it is only asked to render a name
/// whose recorded reference chains are bounded: no cycle is then reachable
/// and the expansion terminates.
#[verifier::external_body]
pub(crate) fn engine_render_page(
    h: &handlebars::Handlebars<'static>,
    name: &str,
    data: &Context,
) -> (r: Result<String, RenderError>)
    requires
        engine_strict(*h),
        expansion_bounded(engine_templates(*h), name@),
    ensures
        render_result_view(r) == engine_render(engine_templates(*h), name@, data@),
        !engine_templates(*h).contains_key(name@) ==> reports_missing_template(r, name@),
{
    let entries = data.entries.iter().map(|e: &crate::kv::Entry| (e.key.as_str(), e.value.as_str()));
    let map: std::collections::BTreeMap<&str, &str> = entries.collect();
    match h.render(name, &map) {
        Ok(s) => Ok(s),
        Err(e) => Err(match e.reason() {
            RenderErrorReason::TemplateNotFound(n) => RenderError::MissingTemplate(n.clone()),
            RenderErrorReason::PartialNotFound(n) => RenderError::MissingTemplate(n.clone()),
            RenderErrorReason::MissingVariable(Some(p)) => RenderError::MissingKey(p.clone()),
            other => RenderError::Engine(format!("{other}")),
        }),
    }
}

} // verus!
