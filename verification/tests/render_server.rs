use faculty_site::context::Context;
use faculty_site::errors::RenderError;
use faculty_site::export::{render_and_export, ExportTarget};
use faculty_site::registry::Registry;
use faculty_site::server::{CONTENT_TYPE, handle_request};

fn page_registry() -> Registry {
    let mut reg = Registry::new();
    reg.register("app", "<html>{{> header}}{{> footer}}</html>").unwrap();
    reg.register("header", "<h1>H</h1>").unwrap();
    reg.register("footer", "<p>F</p>").unwrap();
    reg
}

#[test]
fn render_composes_fragments_exactly() {
    let reg = page_registry();
    let ctx = Context::new();
    let page = reg.render("app", &ctx).unwrap();
    assert_eq!(page, "<html><h1>H</h1><p>F</p></html>");
}

#[test]
fn render_is_deterministic_and_idempotent() {
    let reg = page_registry();
    let ctx = Context::new();
    let first = reg.render("app", &ctx).unwrap();
    let second = reg.render("app", &ctx).unwrap();
    assert_eq!(first, second);
}

#[test]
fn missing_child_fails_naming_that_child() {
    let mut reg = Registry::new();
    reg.register("app", "<html>{{> header}}{{> footer}}</html>").unwrap();
    let ctx = Context::new();
    match reg.render("app", &ctx) {
        Err(RenderError::MissingTemplate(n)) => assert_eq!(n, "header"),
        other => panic!("expected a missing-template error, got {:?}", other),
    }
}

#[test]
fn missing_root_fails_naming_the_root() {
    let reg = Registry::new();
    let ctx = Context::new();
    match reg.render("app", &ctx) {
        Err(RenderError::MissingTemplate(n)) => assert_eq!(n, "app"),
        other => panic!("expected a missing-template error, got {:?}", other),
    }
}

#[test]
fn missing_context_key_fails_not_substitutes() {
    let mut reg = Registry::new();
    reg.register("app", "<p>{{is_admin}}</p>").unwrap();
    let ctx = Context::new();
    match reg.render("app", &ctx) {
        Err(RenderError::MissingKey(k)) => assert_eq!(k, "is_admin"),
        other => panic!("expected a missing-key error, got {:?}", other),
    }
}

#[test]
fn present_context_key_is_substituted() {
    let mut reg = Registry::new();
    reg.register("app", "<p>{{is_admin}}</p>").unwrap();
    let mut ctx = Context::new();
    ctx.insert("is_admin", "true");
    assert_eq!(reg.render("app", &ctx).unwrap(), "<p>true</p>");
}

#[test]
fn other_engine_failures_surface_with_their_description() {
    let mut reg = Registry::new();
    // The lookup helper demands two parameters; calling it bare fails at
    // render time with a helper-level error, not a missing name or key.
    reg.register("app", "<p>{{lookup}}</p>").unwrap();
    let ctx = Context::new();
    match reg.render("app", &ctx) {
        Err(RenderError::Engine(msg)) => assert!(!msg.is_empty()),
        other => panic!("expected an engine error, got {:?}", other),
    }
}

#[test]
fn request_is_answered_200_even_on_render_failure() {
    let mut reg = Registry::new();
    reg.register("app", "<p>{{is_admin}}</p>").unwrap();
    let ctx = Context::new();
    let out = handle_request(&reg, "app", &ctx);
    assert_eq!(out.response.status, 200);
    assert_eq!(out.response.content_type, CONTENT_TYPE);
    assert_eq!(out.response.body, "missing context key: is_admin");
    assert!(out.live_export.is_none());
}

#[test]
fn successful_request_exports_what_it_answers() {
    let reg = page_registry();
    let ctx = Context::new();
    let out = handle_request(&reg, "app", &ctx);
    assert_eq!(out.response.status, 200);
    assert_eq!(out.response.content_type, "text/html; charset=UTF-8");
    assert_eq!(out.response.body, "<html><h1>H</h1><p>F</p></html>");
    assert_eq!(out.live_export.as_deref(), Some("<html><h1>H</h1><p>F</p></html>"));
}

#[test]
fn startup_export_writes_the_rendered_page() {
    let reg = page_registry();
    let ctx = Context::new();
    let mut target = ExportTarget::new();
    assert!(render_and_export(&reg, "app", &ctx, &mut target).is_ok());
    assert_eq!(target.contents(), "<html><h1>H</h1><p>F</p></html>");
}

#[test]
fn failed_render_leaves_the_export_target_untouched() {
    let reg = page_registry();
    let ctx = Context::new();
    let mut target = ExportTarget::new();
    target.export("<html>prior</html>");
    match render_and_export(&reg, "missing_root", &ctx, &mut target) {
        Err(RenderError::MissingTemplate(n)) => assert_eq!(n, "missing_root"),
        other => panic!("expected a missing-template error, got {:?}", other),
    }
    assert_eq!(target.contents(), "<html>prior</html>");
}

#[test]
fn cyclic_references_fail_instead_of_hanging() {
    let mut reg = Registry::new();
    reg.register("a", "{{> b}}").unwrap();
    reg.register("b", "{{> a}}").unwrap();
    let ctx = Context::new();
    match reg.render("a", &ctx) {
        Err(RenderError::CircularReference(n)) => assert_eq!(n, "a"),
        other => panic!("expected a circular-reference error, got {:?}", other),
    }
    // The server degrades the same way: a 200 response carrying the
    // description, not a crash.
    let out = handle_request(&reg, "a", &ctx);
    assert_eq!(out.response.status, 200);
    assert_eq!(out.response.body, "circular template reference: a");
    assert!(out.live_export.is_none());
}

#[test]
fn self_reference_fails_as_circular() {
    let mut reg = Registry::new();
    reg.register("a", "<p>{{> a}}</p>").unwrap();
    let ctx = Context::new();
    match reg.render("a", &ctx) {
        Err(RenderError::CircularReference(n)) => assert_eq!(n, "a"),
        other => panic!("expected a circular-reference error, got {:?}", other),
    }
}

#[test]
fn diamond_references_render_once_per_use() {
    let mut reg = Registry::new();
    reg.register("a", "{{> b}}{{> c}}").unwrap();
    reg.register("b", "[{{> d}}]").unwrap();
    reg.register("c", "({{> d}})").unwrap();
    reg.register("d", "D").unwrap();
    let ctx = Context::new();
    assert_eq!(reg.render("a", &ctx).unwrap(), "[D](D)");
}

#[test]
fn references_inside_blocks_are_tracked() {
    let mut reg = Registry::new();
    reg.register("a", "{{#if flag}}{{> a}}{{/if}}").unwrap();
    let mut ctx = Context::new();
    ctx.insert("flag", "");
    match reg.render("a", &ctx) {
        Err(RenderError::CircularReference(n)) => assert_eq!(n, "a"),
        other => panic!("expected a circular-reference error, got {:?}", other),
    }
}

#[test]
fn sequential_requests_answer_identically() {
    let reg = page_registry();
    let ctx = Context::new();
    let first = handle_request(&reg, "app", &ctx);
    let second = handle_request(&reg, "app", &ctx);
    assert_eq!(first.response.body, second.response.body);
    assert_eq!(first.response.status, second.response.status);
    assert_eq!(first.response.content_type, second.response.content_type);
}
