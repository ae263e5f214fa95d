use trace_setup::logging::{install, InstallError};

#[test]
fn invalid_syntax_rejected() {
    let r = install(Some("==broken==".to_string()));
    assert!(matches!(r, Err(InstallError::InvalidFilterSyntax)));
    // A whitespace-led segment with a non-ASCII character would make the
    // outside parser slice mid-character; it is rejected up front, never
    // handed on.
    let panicking = install(Some(" \u{e9}=warn".to_string()));
    assert!(matches!(panicking, Err(InstallError::InvalidFilterSyntax)));
    // The guard rejects every whitespace-led segment holding a non-ASCII
    // character, even one the parser would survive.
    let slack = install(Some(" warn\u{e9}".to_string()));
    assert!(matches!(slack, Err(InstallError::InvalidFilterSyntax)));
    // A rejected configuration installs nothing: the sink is still free.
    assert!(matches!(install(Some("warn".to_string())), Ok(())));
}
