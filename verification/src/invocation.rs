//! Mode dispatch: resolve the parsed command line to exactly one invocation.

use vstd::prelude::*;

verus! {

/// The one top-level behaviour selected for a process run.
pub enum Invocation {
    /// Reformat each named file in place, with a `.bk` backup beside each.
    FormatFiles(Vec<String>),
    /// Reformat standard input onto standard output.
    FormatStdin,
    /// Start the interactive shell.
    Interactive,
    /// Load and execute each named file, in order, in a fresh context.
    ExecuteFiles(Vec<String>),
    /// Print the usage text; not an error.
    ShowUsage,
}

/// The mode the fixed precedence selects from the command-line signals:
/// a `fmt` sub-invocation wins over everything (with files it formats them,
/// without files it formats the standard streams); the interactive flag wins
/// over positional files; positional files mean execution; nothing at all
/// means the usage text.  The choice is total and the cases are mutually
/// exclusive.
pub open spec fn selected_invocation(
    fmt_given: bool,
    fmt_paths: Vec<String>,
    interactive: bool,
    inputs: Vec<String>,
) -> Invocation {
    if fmt_given {
        if fmt_paths@.len() > 0 {
            Invocation::FormatFiles(fmt_paths)
        } else {
            Invocation::FormatStdin
        }
    } else if interactive {
        Invocation::Interactive
    } else if inputs@.len() > 0 {
        Invocation::ExecuteFiles(inputs)
    } else {
        Invocation::ShowUsage
    }
}

/// Resolve the command-line signals to the one invocation to run.
///
/// `fmt_given` says whether the `fmt` sub-invocation was present and
/// `fmt_paths` holds its file arguments (empty when none were supplied);
/// `interactive` says whether the interactive flag was set; `inputs` holds
/// the positional file arguments (empty when none were supplied).
pub fn select_mode(
    fmt_given: bool,
    fmt_paths: Vec<String>,
    interactive: bool,
    inputs: Vec<String>,
) -> (r: Invocation)
    ensures
        r == selected_invocation(fmt_given, fmt_paths, interactive, inputs),
{
    if fmt_given {
        if fmt_paths.len() > 0 {
            Invocation::FormatFiles(fmt_paths)
        } else {
            Invocation::FormatStdin
        }
    } else if interactive {
        Invocation::Interactive
    } else if inputs.len() > 0 {
        Invocation::ExecuteFiles(inputs)
    } else {
        Invocation::ShowUsage
    }
}

/// The process exit status for a finished invocation: a formatting failure
/// is fatal (status 1), while execution and interactive failures are only
/// reported and the process still exits successfully — an asymmetry the
/// toolchain's users rely on.
pub fn exit_status(inv: &Invocation, succeeded: bool) -> (code: i32)
    ensures
        succeeded ==> code == 0,
        !succeeded && (inv is FormatFiles || inv is FormatStdin) ==> code == 1,
        !succeeded && !(inv is FormatFiles || inv is FormatStdin) ==> code == 0,
{
    if !succeeded {
        match inv {
            Invocation::FormatFiles(_) => 1,
            Invocation::FormatStdin => 1,
            _ => 0,
        }
    } else {
        0
    }
}

} // verus!
