//! The live render server's decisions. The transport loop — accepting a
//! connection, sending bytes, writing the live file — lives outside the
//! library; each request it accepts is answered by `handle_request`, which
//! re-renders the page and decides the whole response and the live-export
//! side effect.
//!
//! Named policy: the server answers *every* request with status 200 and the
//! fixed HTML content type, even when the render fails; a failure is
//! reported in the body, as the error's description, so the development loop
//! never sees a transport-level error.

use vstd::prelude::*;
use crate::context::Context;
use crate::engine;
use crate::errors::spec_description;
use crate::registry::Registry;

verus! {

/// The content-type header value every response carries.
pub const CONTENT_TYPE: &'static str = "text/html; charset=UTF-8";

/// One HTTP response, as far as the server's policy fixes it.
#[derive(Debug, Clone)]
pub struct HttpResponse {
    pub status: u16,
    pub content_type: String,
    pub body: String,
}

/// Everything one request gives rise to: the response to send back, and the
/// content to write to the live export path, if the render succeeded. A
/// failed render exports nothing — the prior live file is left untouched.
#[derive(Debug, Clone)]
pub struct RequestOutcome {
    pub response: HttpResponse,
    pub live_export: Option<String>,
}

/// The body every request is answered with: the rendered page, or the render
/// failure's description.
pub open spec fn spec_response_body(
    templates: Map<Seq<char>, Seq<char>>,
    root: Seq<char>,
    data: Map<Seq<char>, Seq<char>>,
) -> Seq<char> {
    match engine::spec_render_outcome(templates, root, data) {
        Ok(page) => page,
        Err(e) => spec_description(e),
    }
}

/// What a request writes to the live export path: the rendered page on
/// success, nothing on failure.
pub open spec fn spec_live_export(
    templates: Map<Seq<char>, Seq<char>>,
    root: Seq<char>,
    data: Map<Seq<char>, Seq<char>>,
) -> Option<Seq<char>> {
    match engine::spec_render_outcome(templates, root, data) {
        Ok(page) => Some(page),
        Err(e) => None,
    }
}

/// An optional content, seen at the spec level.
pub open spec fn option_view(o: Option<String>) -> Option<Seq<char>> {
    match o {
        Some(s) => Some(s@),
        None => None,
    }
}

/// Answer one request: re-render the root template against the unchanged
/// registry and context, and return the response beside the live-export
/// content. The status is 200 and the content type is fixed whatever the
/// render did; a render failure only changes the body to its description.
pub fn handle_request(registry: &Registry, root: &str, context: &Context) -> (out: RequestOutcome)
    requires
        registry.wf(),
        context.wf(),
    ensures
        out.response.status == 200,
        out.response.content_type@ == CONTENT_TYPE@,
        out.response.body@ == spec_response_body(registry@, root@, context@),
        option_view(out.live_export) == spec_live_export(registry@, root@, context@),
{
    match registry.render(root, context) {
        Ok(page) => {
            let body = page.clone();
            RequestOutcome {
                response: HttpResponse {
                    status: 200,
                    content_type: CONTENT_TYPE.to_owned(),
                    body,
                },
                live_export: Some(page),
            }
        },
        Err(e) => RequestOutcome {
            response: HttpResponse {
                status: 200,
                content_type: CONTENT_TYPE.to_owned(),
                body: e.describe(),
            },
            live_export: None,
        },
    }
}

/// Two sequential requests with no change to the registry or the context
/// between them are answered with byte-identical bodies.
pub proof fn lemma_repeated_request_same_body(
    t1: Map<Seq<char>, Seq<char>>,
    t2: Map<Seq<char>, Seq<char>>,
    root1: Seq<char>,
    root2: Seq<char>,
    d1: Map<Seq<char>, Seq<char>>,
    d2: Map<Seq<char>, Seq<char>>,
)
    requires
        t1 == t2,
        root1 == root2,
        d1 == d2,
    ensures
        spec_response_body(t1, root1, d1) == spec_response_body(t2, root2, d2),
        spec_live_export(t1, root1, d1) == spec_live_export(t2, root2, d2),
{
}

} // verus!
