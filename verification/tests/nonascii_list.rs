use trace_setup::logging::install;

#[test]
fn nonascii_list_with_spaces_accepted() {
    // A whitespace-led segment is fine when it is all-ASCII, even beside a
    // non-ASCII segment: only the segment that is trimmed at its front must
    // be single-byte throughout.
    assert!(matches!(
        install(Some("\u{e9}=trace, warn".to_string())),
        Ok(())
    ));
}
