//! The backup-and-rewrite pipeline for one file.
//!
//! The pipeline is a small state machine: a driver performs each commanded
//! file-system action and reports its outcome, and the machine decides the
//! next action.  The machine is what guarantees the file-safety invariant:
//! the target file is only ever overwritten after its backup has been
//! written and the formatter has produced output without error.

use vstd::prelude::*;
use vstd::pervasive::unreached;
use crate::fmt_source::{FmtError, format_source, formatted_of, parse_ok};

verus! {

/// One file-system action the machine asks its driver to perform.
pub enum FmtAction {
    /// Read the target file's whole contents.
    ReadFile,
    /// Create or truncate the `.bk` sibling and write exactly these bytes.
    WriteBackup(String),
    /// Seek to the start of the target file, write these bytes, then truncate
    /// the file to exactly their length.
    Overwrite(String),
    /// The operation is over with this outcome; no further file-system work.
    Finish(Result<(), FmtError>),
}

/// The driver's report after performing the previous action.
pub enum FmtEvent {
    /// Nothing performed yet; ask for the first action.
    Begin,
    /// The read completed with these contents.
    ReadDone(String),
    /// The backup write completed.
    BackupDone,
    /// The overwrite-and-truncate completed.
    OverwriteDone,
    /// A file-system step failed with this message.
    IoFailed(String),
}

/// Where the pipeline stands between two actions.
pub enum FmtPhase {
    Idle,
    Reading,
    BackingUp { original: String },
    Rewriting,
    Finished,
}

/// The state machine for one backup-and-rewrite run.
pub struct FmtMachine {
    pub phase: FmtPhase,
}

/// Which report is well-formed in which phase: each phase with an outstanding
/// action accepts that action's completion, and any file-system step may fail.
pub open spec fn event_allowed(p: FmtPhase, ev: FmtEvent) -> bool {
    match ev {
        FmtEvent::Begin => p is Idle,
        FmtEvent::ReadDone(_) => p is Reading,
        FmtEvent::BackupDone => p is BackingUp,
        FmtEvent::OverwriteDone => p is Rewriting,
        FmtEvent::IoFailed(_) => p is Reading || p is BackingUp || p is Rewriting,
    }
}

impl FmtMachine {
    /// A machine that has not yet asked for any action.
    pub fn new() -> (m: FmtMachine)
        ensures
            m.phase is Idle,
    {
        FmtMachine { phase: FmtPhase::Idle }
    }

    /// Take the driver's report and decide the next action.
    ///
    /// The last clause is the file-safety invariant: an overwrite is only
    /// ever commanded for text the formatter produced from the original that
    /// was just backed up.
    pub fn step(&mut self, ev: FmtEvent) -> (a: FmtAction)
        requires
            event_allowed(old(self).phase, ev),
        ensures
            ev is Begin ==> final(self).phase is Reading && a is ReadFile,
            ev matches FmtEvent::ReadDone(s) ==> (final(self).phase matches
                FmtPhase::BackingUp { original } && original@ == s@)
                && (a matches FmtAction::WriteBackup(b) && b@ == s@),
            ev is BackupDone ==> (old(self).phase matches FmtPhase::BackingUp { original }
                ==> (parse_ok(original@) ==> final(self).phase is Rewriting
                        && (a matches FmtAction::Overwrite(f) && f@ == formatted_of(original@)))
                    && (!parse_ok(original@) ==> final(self).phase is Finished
                        && (a matches FmtAction::Finish(r) && r matches Err(e) && e is Syntax))),
            ev is OverwriteDone ==> final(self).phase is Finished
                && (a matches FmtAction::Finish(r) && r is Ok),
            ev matches FmtEvent::IoFailed(m) ==> final(self).phase is Finished
                && (a matches FmtAction::Finish(r) && r matches Err(e)
                    && e matches FmtError::Io(mm) && mm@ == m@),
            a matches FmtAction::Overwrite(f) ==> (old(self).phase matches
                FmtPhase::BackingUp { original }
                && parse_ok(original@) && f@ == formatted_of(original@)),
    {
        match ev {
            FmtEvent::Begin => {
                self.phase = FmtPhase::Reading;
                FmtAction::ReadFile
            }
            FmtEvent::ReadDone(s) => {
                let copy = s.clone();
                self.phase = FmtPhase::BackingUp { original: s };
                FmtAction::WriteBackup(copy)
            }
            FmtEvent::BackupDone => {
                let original = match &self.phase {
                    FmtPhase::BackingUp { original } => original.clone(),
                    _ => unreached(),
                };
                match format_source(original.as_str()) {
                    Ok(f) => {
                        self.phase = FmtPhase::Rewriting;
                        FmtAction::Overwrite(f)
                    }
                    Err(e) => {
                        self.phase = FmtPhase::Finished;
                        FmtAction::Finish(Err(e))
                    }
                }
            }
            FmtEvent::OverwriteDone => {
                self.phase = FmtPhase::Finished;
                FmtAction::Finish(Ok(()))
            }
            FmtEvent::IoFailed(m) => {
                self.phase = FmtPhase::Finished;
                FmtAction::Finish(Err(FmtError::Io(m)))
            }
        }
    }
}

/// The file-system footprint of one formatting run, modelled in memory: the
/// target file's contents and the contents of its `.bk` sibling, if one
/// exists yet.
pub struct ModelDisk {
    pub file: String,
    pub backup: Option<String>,
}

/// One full backup-and-rewrite run against an in-memory disk whose reads and
/// writes always succeed.  Its contract is the pipeline's:
/// the backup always ends up holding exactly the original contents; on
/// success the file holds exactly the formatted text, trailing bytes
/// truncated away; and when the formatter rejects the text the file is left
/// untouched while the backup still exists.
pub fn fmt_file(disk: &mut ModelDisk) -> (r: Result<(), FmtError>)
    ensures
        final(disk).backup matches Some(b) && b@ == old(disk).file@,
        parse_ok(old(disk).file@) ==> r is Ok
            && final(disk).file@ == formatted_of(old(disk).file@)
            && final(disk).file@.len() == formatted_of(old(disk).file@).len(),
        !parse_ok(old(disk).file@) ==> (r matches Err(e) && e is Syntax)
            && final(disk).file@ == old(disk).file@,
{
    let mut m = FmtMachine::new();
    let _first = m.step(FmtEvent::Begin);
    // The machine asked for a read; the model disk serves the file's contents.
    let contents = disk.file.clone();
    let backup_action = m.step(FmtEvent::ReadDone(contents));
    match backup_action {
        FmtAction::WriteBackup(b) => {
            disk.backup = Some(b);
        }
        _ => unreached(),
    }
    let rewrite_action = m.step(FmtEvent::BackupDone);
    match rewrite_action {
        FmtAction::Overwrite(f) => {
            // Seek to the start, write the formatted text, truncate to its
            // length: the contents become exactly the formatted text.
            disk.file = f;
            match m.step(FmtEvent::OverwriteDone) {
                FmtAction::Finish(r) => r,
                _ => unreached(),
            }
        }
        FmtAction::Finish(r) => r,
        _ => unreached(),
    }
}

} // verus!
