use trace_setup::logging::{install, InstallError};

#[test]
fn single_install_succeeds_then_double_install_fails() {
    // A fresh process holds no diagnostic sink, so the first attempt wins.
    assert!(matches!(install(None), Ok(())));
    // The sink is process-wide and installed at most once.
    assert!(matches!(install(None), Err(InstallError::AlreadyInstalled)));
}
