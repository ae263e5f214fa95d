use trace_setup::logging::install;

#[test]
fn ascii_list_with_spaces_accepted() {
    // A comma-plus-space list is common and all-ASCII, so it is handed to
    // the parser verbatim and accepted.
    assert!(matches!(install(Some("info, warn".to_string())), Ok(())));
}
