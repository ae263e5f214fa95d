//! One-time setup of a process-wide structured-logging pipeline.
//!
//! The crate resolves a verbosity configuration from an optional
//! environment-provided string, builds a filtering and formatting pipeline
//! from it, and installs that pipeline exactly once as the process-wide
//! diagnostic sink.

use vstd::prelude::*;

pub mod logging;

verus! {

/// Entry point of the library: attempts to install the diagnostic pipeline
/// and swallows any installation failure, so that a process without
/// diagnostics still runs normally.
///
/// `env_value` is the value of the verbosity environment variable, or `None`
/// when it is unset.
pub fn run(env_value: Option<String>) -> (r: Result<(), String>)
    ensures
        r == Ok::<(), String>(()),
{
    let _ = logging::init_tracer(env_value);
    Ok(())
}

} // verus!
