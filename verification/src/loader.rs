//! The sequential multi-file loader: feed an ordered list of files to the
//! shared execution context, stopping at the first failure.
//!
//! The loader is a machine that a driver consults between loads: the machine
//! hands out the next file to load, and the driver reports whether the load
//! failed.  The fail-fast rule — return the first failure, never attempt a
//! later file — is the machine's contract.

use vstd::prelude::*;
use vstd::pervasive::unreached;

verus! {

/// A failure reported while loading and executing one file.
pub enum RunError {
    /// The virtual machine failed at run time; a stack trace is meaningful.
    Runtime(String),
    /// Any other failure (I/O, parse, type check), rendered as its message.
    Other(String),
}

impl RunError {
    /// The message text to print for this error.
    pub fn message(&self) -> (m: &str)
        ensures
            self matches RunError::Runtime(s) ==> m@ == s@,
            self matches RunError::Other(s) ==> m@ == s@,
    {
        match self {
            RunError::Runtime(s) => s.as_str(),
            RunError::Other(s) => s.as_str(),
        }
    }
}

/// Whether the dispatcher must render a stack trace from the execution
/// context beside this error: only a virtual-machine runtime error has a
/// meaningful stack.
pub fn needs_stack_trace(e: &RunError) -> (r: bool)
    ensures
        r <==> e is Runtime,
{
    match e {
        RunError::Runtime(_) => true,
        RunError::Other(_) => false,
    }
}

/// What the loader asks its driver to do next.
pub enum LoadCmd {
    /// Load and execute this file into the shared execution context.
    Load(String),
    /// The whole list is dealt with; this is the outcome to return.
    Finished(Result<(), RunError>),
}

/// The fail-fast loader over an ordered file list.
pub struct Loader {
    pub files: Vec<String>,
    pub pos: usize,
}

impl Loader {
    /// The cursor never passes the end of the list.
    pub open spec fn wf(&self) -> bool {
        self.pos <= self.files@.len()
    }

    pub fn new(files: Vec<String>) -> (l: Loader)
        ensures
            l.wf(),
            l.files == files,
            l.pos == 0,
    {
        Loader { files, pos: 0 }
    }

    /// Report the previous load's failure, if any, and get the next command.
    ///
    /// A reported failure finishes the run at once with exactly that error
    /// and moves the cursor no further: later files are never attempted.
    pub fn advance(&mut self, last: Option<RunError>) -> (cmd: LoadCmd)
        requires
            old(self).wf(),
        ensures
            final(self).wf(),
            final(self).files == old(self).files,
            last matches Some(e) ==> final(self).pos == old(self).pos
                && (cmd matches LoadCmd::Finished(res) && res matches Err(e2) && e2 == e),
            last is None && old(self).pos < old(self).files@.len() ==>
                final(self).pos == old(self).pos + 1
                && (cmd matches LoadCmd::Load(p) && p == old(self).files[old(self).pos as int]),
            last is None && old(self).pos == old(self).files@.len() ==>
                final(self).pos == old(self).pos
                && (cmd matches LoadCmd::Finished(res) && res is Ok),
    {
        match last {
            Some(e) => LoadCmd::Finished(Err(e)),
            None => {
                if self.pos < self.files.len() {
                    let p = self.files[self.pos].clone();
                    self.pos = self.pos + 1;
                    LoadCmd::Load(p)
                } else {
                    LoadCmd::Finished(Ok(()))
                }
            }
        }
    }
}

/// The effects an execution context has absorbed, modelled as the list of
/// files whose load completed, in load order.
pub struct ModelContext {
    pub loaded: Vec<String>,
}

/// The position of the first failing file in the outcome list, or its length
/// when every load succeeds.
pub open spec fn first_fail(outs: Seq<Option<String>>) -> int
    decreases outs.len(),
{
    if outs.len() == 0 {
        0
    } else if outs[0] is Some {
        0
    } else {
        1 + first_fail(outs.subrange(1, outs.len() as int))
    }
}

proof fn lemma_first_fail_at(outs: Seq<Option<String>>, i: int)
    requires
        0 <= i <= outs.len(),
        forall|j: int| 0 <= j < i ==> outs[j] is None,
        i < outs.len() ==> outs[i] is Some,
    ensures
        first_fail(outs) == i,
    decreases i,
{
    if i == 0 {
    } else {
        let tail = outs.subrange(1, outs.len() as int);
        assert(forall|j: int| 0 <= j < i - 1 ==> tail[j] is None);
        lemma_first_fail_at(tail, i - 1);
    }
}

/// One full run of the loader against an in-memory context: `outcomes[k]`
/// says whether loading `files[k]` would fail, and with what message.  The
/// contract is the loader's fail-fast rule: every file before the first
/// failure is loaded, in order; no later file is attempted; and the first
/// failure's own error is what comes back.
#[verifier::loop_isolation(false)]
pub fn run_files(ctx: &mut ModelContext, files: Vec<String>, outcomes: &Vec<Option<String>>) -> (r: Result<
    (),
    RunError,
>)
    requires
        outcomes@.len() == files@.len(),
    ensures
        final(ctx).loaded@ == old(ctx).loaded@ + files@.subrange(0, first_fail(outcomes@)),
        first_fail(outcomes@) == outcomes@.len() ==> r is Ok,
        first_fail(outcomes@) < outcomes@.len() ==> (r matches Err(e)
            && e matches RunError::Other(m)
            && (outcomes@[first_fail(outcomes@)] matches Some(m0) && m@ == m0@)),
{
    let ghost all_files = files@;
    let mut l = Loader::new(files);
    loop
        invariant
            l.wf(),
            l.files@ == all_files,
            outcomes@.len() == all_files.len(),
            forall|j: int| 0 <= j < l.pos as int ==> outcomes@[j] is None,
            ctx.loaded@ =~= old(ctx).loaded@ + all_files.subrange(0, l.pos as int),
        decreases all_files.len() - l.pos as int,
    {
        let cmd = l.advance(None);
        match cmd {
            LoadCmd::Finished(res) => {
                proof {
                    lemma_first_fail_at(outcomes@, l.pos as int);
                    assert(ctx.loaded@ =~= old(ctx).loaded@ + files@.subrange(
                        0,
                        first_fail(outcomes@),
                    ));
                }
                return res;
            }
            LoadCmd::Load(path) => {
                let i: usize = l.pos - 1;
                match &outcomes[i] {
                    None => {
                        // The load succeeds: the context absorbs this file's
                        // effects.
                        ctx.loaded.push(path);
                        proof {
                            assert(ctx.loaded@ =~= old(ctx).loaded@ + all_files.subrange(
                                0,
                                l.pos as int,
                            ));
                        }
                    }
                    Some(m) => {
                        let e = RunError::Other(m.clone());
                        let cmd2 = l.advance(Some(e));
                        proof {
                            lemma_first_fail_at(outcomes@, i as int);
                            assert(ctx.loaded@ =~= old(ctx).loaded@ + files@.subrange(
                                0,
                                first_fail(outcomes@),
                            ));
                        }
                        match cmd2 {
                            LoadCmd::Finished(res) => {
                                return res;
                            }
                            _ => unreached(),
                        }
                    }
                }
            }
        }
    }
}

} // verus!
