use trace_setup::logging::init_tracer;
use trace_setup::run;

#[test]
fn entry_reports_each_failure_as_a_message() {
    let bad = init_tracer(Some("==broken==".to_string()));
    assert!(matches!(bad, Err(m) if m == "the filter configuration does not parse as directives"));
    // The entry point swallows nothing here: the configuration is valid and
    // the process holds no sink yet, so installation succeeds.
    assert!(matches!(run(None), Ok(())));
    let again = init_tracer(None);
    assert!(matches!(again, Err(m) if m == "a global diagnostic sink is already installed"));
}
