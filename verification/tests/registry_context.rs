use faculty_site::context::{Context, construct_data};
use faculty_site::errors::{RegistrationError, RenderError};
use faculty_site::export::ExportTarget;
use faculty_site::registry::Registry;

#[test]
fn duplicate_registration_fails() {
    let mut reg = Registry::new();
    assert!(reg.register("app", "<html></html>").is_ok());
    match reg.register("app", "<p>other</p>") {
        Err(RegistrationError::DuplicateName(n)) => assert_eq!(n, "app"),
        other => panic!("expected a duplicate-name error, got {:?}", other),
    }
    // The failed attempt changed nothing.
    assert_eq!(reg.get_source("app").unwrap(), "<html></html>");
}

#[test]
fn distinct_names_register_in_any_order() {
    let mut forward = Registry::new();
    assert!(forward.register("header", "<h1>H</h1>").is_ok());
    assert!(forward.register("footer", "<p>F</p>").is_ok());

    let mut backward = Registry::new();
    assert!(backward.register("footer", "<p>F</p>").is_ok());
    assert!(backward.register("header", "<h1>H</h1>").is_ok());

    for reg in [&forward, &backward] {
        assert_eq!(reg.get_source("header").unwrap(), "<h1>H</h1>");
        assert_eq!(reg.get_source("footer").unwrap(), "<p>F</p>");
    }
}

#[test]
fn malformed_source_is_rejected_at_registration() {
    let mut reg = Registry::new();
    match reg.register("bad", "{{#if flag}}unclosed") {
        Err(RegistrationError::BadSyntax(_)) => {},
        other => panic!("expected a syntax error, got {:?}", other),
    }
    assert!(!reg.has_template("bad"));
}

#[test]
fn register_all_registers_every_pair() {
    let mut reg = Registry::new();
    let pairs = vec![
        ("app".to_string(), "<html>{{> header}}</html>".to_string()),
        ("header".to_string(), "<h1>H</h1>".to_string()),
    ];
    assert!(reg.register_all(&pairs).is_ok());
    assert!(reg.has_template("app"));
    assert!(reg.has_template("header"));
}

#[test]
fn register_all_stops_at_first_failure() {
    let mut reg = Registry::new();
    let pairs = vec![
        ("app".to_string(), "<html></html>".to_string()),
        ("app".to_string(), "<p>again</p>".to_string()),
        ("footer".to_string(), "<p>F</p>".to_string()),
    ];
    match reg.register_all(&pairs) {
        Err(RegistrationError::DuplicateName(n)) => assert_eq!(n, "app"),
        other => panic!("expected a duplicate-name error, got {:?}", other),
    }
    // The pair after the failing one was never reached.
    assert!(!reg.has_template("footer"));
}

#[test]
fn dynamic_reference_is_rejected_at_registration() {
    let mut reg = Registry::new();
    match reg.register("x", "{{> (whichPartial) }}") {
        Err(RegistrationError::DynamicReference(n)) => assert_eq!(n, "x"),
        other => panic!("expected a dynamic-reference error, got {:?}", other),
    }
    assert!(!reg.has_template("x"));
}

#[test]
fn inline_partial_is_rejected_at_registration() {
    let mut reg = Registry::new();
    let source = "{{#*inline \"x\"}}hi{{/inline}}{{> x}}";
    match reg.register("y", source) {
        Err(RegistrationError::DynamicReference(n)) => assert_eq!(n, "y"),
        other => panic!("expected a dynamic-reference error, got {:?}", other),
    }
}

#[test]
fn lookup_reports_absence() {
    let reg = Registry::new();
    assert!(!reg.has_template("app"));
    assert!(reg.get_source("app").is_none());
}

#[test]
fn context_insert_and_get() {
    let mut c = Context::new();
    c.insert("is_admin", "true");
    assert_eq!(c.get("is_admin").unwrap(), "true");
    assert!(c.get("header").is_none());
}

#[test]
fn context_insert_replaces_earlier_binding() {
    let mut c = Context::new();
    c.insert("is_admin", "true");
    c.insert("is_admin", "false");
    assert_eq!(c.get("is_admin").unwrap(), "false");
}

#[test]
fn construct_data_holds_the_fixed_mapping() {
    let c = construct_data();
    assert_eq!(c.get("app").unwrap(), "app.hbs");
    assert_eq!(c.get("header").unwrap(), "header.hbs");
    assert_eq!(c.get("footer").unwrap(), "footer.hbs");
    assert_eq!(c.get("carousel_images").unwrap(), "carousel_images.hbs");
    assert_eq!(c.get("faculity_card").unwrap(), "faculity_card.hbs");
    assert_eq!(c.get("is_admin").unwrap(), "true");
    assert!(c.get("admin").is_none());
}

#[test]
fn export_replaces_prior_contents() {
    let mut target = ExportTarget::new();
    target.export("<html>first</html>");
    target.export("<html>second</html>");
    assert_eq!(target.contents(), "<html>second</html>");
    assert!(!target.contents().contains("first"));
}

#[test]
fn error_descriptions() {
    assert_eq!(
        RenderError::MissingTemplate("header".to_string()).describe(),
        "missing template: header"
    );
    assert_eq!(
        RenderError::MissingKey("is_admin".to_string()).describe(),
        "missing context key: is_admin"
    );
    assert_eq!(RenderError::Engine("boom".to_string()).describe(), "boom");
}
