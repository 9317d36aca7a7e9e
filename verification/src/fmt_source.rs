//! The formatting operation itself: hand the source text to the external
//! parser and pretty-printer, and classify its failures.

use vstd::prelude::*;
use gluon::ThreadExt;

verus! {

/// An error surfaced by the formatting pipeline.
#[derive(Debug)]
pub enum FmtError {
    /// The external formatter rejected the source text; the payload is its
    /// rendered message.
    Syntax(String),
    /// A file-system step failed; the payload is the reported message.
    Io(String),
}

impl FmtError {
    /// The message text to print for this error.
    pub fn message(&self) -> (m: &str)
        ensures
            self matches FmtError::Syntax(s) ==> m@ == s@,
            self matches FmtError::Io(s) ==> m@ == s@,
    {
        match self {
            FmtError::Syntax(s) => s.as_str(),
            FmtError::Io(s) => s.as_str(),
        }
    }
}

/// Whether the external formatter, sealed off from disk and environment,
/// accepts this source text.
pub uninterp spec fn parse_ok(s: Seq<char>) -> bool;

/// The text the external pretty-printer, sealed off from disk and
/// environment, lays the source out as, at its fixed maximum line width.
pub uninterp spec fn formatted_of(s: Seq<char>) -> Seq<char>;

/// Relies on gluon's `ThreadExt::format_expr` (parse, then pretty-print at
/// the formatter's fixed maximum line width).  The virtual machine it runs
/// against is sealed off from its surroundings: the import macro's search
/// path is left empty and then emptied again after the build (which would
/// otherwise append the `GLUON_PATH` environment variable), and the implicit
/// prelude is disabled, so no module is ever read from disk and only the
/// standard library embedded in the crate is reachable.  Under that seal,
/// whether the text is accepted, and the printed layout, depend on the
/// source text alone, and the call fails exactly when the text cannot be
/// parsed.
#[verifier::external_body]
fn gluon_format_expr(text: &str) -> (r: Result<String, String>)
    ensures
        r is Ok <==> parse_ok(text@),
        r matches Ok(out) ==> out@ == formatted_of(text@),
{
    let vm = gluon::VmBuilder::new().import_paths(Some(vec![])).build();
    if let Some(import) = vm.get_macros().get("import") {
        if let Ok(import) = import.downcast_arc::<gluon::import::Import>() {
            import.set_paths(vec![]);
        }
    }
    vm.get_database_mut().set_implicit_prelude(false);
    let mut formatter = gluon_format::Formatter::default();
    match vm.format_expr(&mut formatter, "fmt", text) {
        Ok(out) => Ok(out),
        Err(err) => Err(format!("{}", err)),
    }
}

/// Parse the source text and pretty-print it; a rejected text comes back as a
/// `Syntax` error carrying the parser's message.
pub fn format_source(text: &str) -> (r: Result<String, FmtError>)
    ensures
        r is Ok <==> parse_ok(text@),
        r matches Ok(out) ==> out@ == formatted_of(text@),
        r matches Err(e) ==> e is Syntax,
{
    match gluon_format_expr(text) {
        Ok(out) => Ok(out),
        Err(msg) => Err(FmtError::Syntax(msg)),
    }
}

} // verus!
