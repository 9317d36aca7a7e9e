//! The command-line front end of a small programming-language toolchain,
//! with its orchestration logic verified: mode dispatch under a fixed
//! precedence, the backup-and-rewrite pipeline the formatter uses to rewrite
//! a source file in place without ever risking the user's text, and the
//! fail-fast driver that loads a list of files into a shared execution
//! context.  Parsing, pretty-printing and execution themselves are the
//! external compiler library's work, consumed through narrow contracts.

use vstd::prelude::*;

pub mod fmt_source;
pub mod invocation;
pub mod loader;
pub mod pipeline;

verus! {

/// Install the process-wide environment logger, ignoring any failure, so
/// that a missing or doubled initialisation never disturbs the run.
pub fn init_env_logger() {
    try_init_logger();
}

/// Relies on env_logger::try_init: installs the process-wide logger, reading
/// the log filter from the environment; a failure (for instance a second
/// initialisation) is ignored, so the call never panics.
#[verifier::external_body]
fn try_init_logger() {
    let _ = env_logger::try_init();
}

} // verus!
