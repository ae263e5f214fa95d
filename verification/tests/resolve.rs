use trace_setup::logging::resolve_filter;

#[test]
fn default_fallback() {
    assert_eq!(resolve_filter(None), "debug");
}

#[test]
fn override_respected() {
    assert_eq!(resolve_filter(Some("warn".to_string())), "warn");
}

#[test]
fn scoped_directives_kept_verbatim() {
    assert_eq!(
        resolve_filter(Some("mymodule=trace".to_string())),
        "mymodule=trace"
    );
}

#[test]
fn empty_value_falls_back() {
    assert_eq!(resolve_filter(Some(String::new())), "debug");
}
