//! The failures the library reports: registration failures, which are fatal
//! at startup, and render failures, which each request survives.

use vstd::prelude::*;
use vstd::string::StringExecFns;

verus! {

/// A failure while registering a template.
#[derive(Debug, Clone)]
pub enum RegistrationError {
    /// The name is already registered; registration never overwrites.
    DuplicateName(String),
    /// The source does not parse as a template; the text reports the engine's
    /// account of the syntax error.
    BadSyntax(String),
    /// The source names a child template dynamically (a subexpression, an
    /// inline partial or a contextual reference), so the references it may
    /// expand cannot be recorded; registration refuses it to keep every
    /// render's expansion bounded.
    DynamicReference(String),
}

/// A failure while rendering a page.
#[derive(Debug, Clone)]
pub enum RenderError {
    /// A template name, the root or a referenced child, is not registered.
    MissingTemplate(String),
    /// The template consumed a context key that the context does not hold.
    MissingKey(String),
    /// The template's recorded references include each other in a cycle, so
    /// expanding them could never end; the engine is not asked to try.
    CircularReference(String),
    /// Any other failure reported by the template engine.
    Engine(String),
}

/// The mathematical shape of a render failure.
pub enum SpecRenderError {
    MissingTemplate(Seq<char>),
    MissingKey(Seq<char>),
    CircularReference(Seq<char>),
    Engine(Seq<char>),
}

impl View for RenderError {
    type V = SpecRenderError;

    open spec fn view(&self) -> SpecRenderError {
        match self {
            RenderError::MissingTemplate(n) => SpecRenderError::MissingTemplate(n@),
            RenderError::MissingKey(k) => SpecRenderError::MissingKey(k@),
            RenderError::CircularReference(n) => SpecRenderError::CircularReference(n@),
            RenderError::Engine(s) => SpecRenderError::Engine(s@),
        }
    }
}

/// A render result, seen at the spec level.
pub open spec fn render_result_view(r: Result<String, RenderError>) -> Result<
    Seq<char>,
    SpecRenderError,
> {
    match r {
        Ok(s) => Ok(s@),
        Err(e) => Err(e@),
    }
}

/// The mathematical shape of a registration failure.
pub enum SpecRegistrationError {
    DuplicateName(Seq<char>),
    BadSyntax(Seq<char>),
    DynamicReference(Seq<char>),
}

impl View for RegistrationError {
    type V = SpecRegistrationError;

    open spec fn view(&self) -> SpecRegistrationError {
        match self {
            RegistrationError::DuplicateName(n) => SpecRegistrationError::DuplicateName(n@),
            RegistrationError::BadSyntax(s) => SpecRegistrationError::BadSyntax(s@),
            RegistrationError::DynamicReference(n) => SpecRegistrationError::DynamicReference(n@),
        }
    }
}

/// The one-line description of a registration failure.
pub open spec fn spec_registration_description(e: SpecRegistrationError) -> Seq<char> {
    match e {
        SpecRegistrationError::DuplicateName(n) => "template registered twice: "@ + n,
        SpecRegistrationError::BadSyntax(s) => s,
        SpecRegistrationError::DynamicReference(n) => "template references children dynamically: "@
            + n,
    }
}

impl RegistrationError {
    /// The error's textual description.
    pub fn describe(&self) -> (r: String)
        ensures
            r@ == spec_registration_description(self@),
    {
        match self {
            RegistrationError::DuplicateName(n) => {
                let mut s = "template registered twice: ".to_owned();
                s.append(n.as_str());
                s
            },
            RegistrationError::BadSyntax(s) => s.clone(),
            RegistrationError::DynamicReference(n) => {
                let mut s = "template references children dynamically: ".to_owned();
                s.append(n.as_str());
                s
            },
        }
    }
}

/// The one-line description of a render failure.
pub open spec fn spec_description(e: SpecRenderError) -> Seq<char> {
    match e {
        SpecRenderError::MissingTemplate(n) => "missing template: "@ + n,
        SpecRenderError::MissingKey(k) => "missing context key: "@ + k,
        SpecRenderError::CircularReference(n) => "circular template reference: "@ + n,
        SpecRenderError::Engine(s) => s,
    }
}

impl RenderError {
    /// The error's textual description, as a response body shows it.
    pub fn describe(&self) -> (r: String)
        ensures
            r@ == spec_description(self@),
    {
        match self {
            RenderError::MissingTemplate(n) => {
                let mut s = "missing template: ".to_owned();
                s.append(n.as_str());
                s
            },
            RenderError::MissingKey(k) => {
                let mut s = "missing context key: ".to_owned();
                s.append(k.as_str());
                s
            },
            RenderError::CircularReference(n) => {
                let mut s = "circular template reference: ".to_owned();
                s.append(n.as_str());
                s
            },
            RenderError::Engine(s) => s.clone(),
        }
    }
}

} // verus!
