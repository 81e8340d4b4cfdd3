//! The interface between the verified stage machines and the outside world.
//!
//! A machine never touches the filesystem or spawns a process itself.
//! Instead it publishes the one [`Io`] request it is waiting on; the caller
//! performs it and answers with the matching [`Event`]. Each stage blocks on
//! its pending request: the machines never overlap work for one request.

use vstd::prelude::*;
use crate::model::{FailureKind, StageResult};

verus! {

/// How one external command run ended. A missing executable is kept apart
/// from a non-zero exit so a caller can tell "tool absent" from "tool
/// failed"; no command run is allowed to raise an error any other way.
#[derive(Clone, Copy, Debug, PartialEq, Eq, Structural)]
pub enum RunOutcome {
    /// The program ran and exited with status zero.
    Success,
    /// The program ran and exited with a non-zero status.
    Failed,
    /// The program could not be launched at all.
    Missing,
}

/// An external command the pipeline wants run, with its arguments already
/// resolved to plain strings.
#[derive(Clone, Debug, PartialEq, Eq)]
pub enum ToolCommand {
    /// Download the fixed-version toolchain release archive.
    FetchArchive { url: String },
    /// Unpack the downloaded archive in the working root.
    ExtractArchive { archive: String },
    /// Discard the archive once it is unpacked.
    DiscardArchive { archive: String },
    /// Rename the extracted directory to the canonical toolchain directory.
    RenameDir { from: String, to: String },
    /// Build the toolchain inside its directory.
    Build { dir: String },
    /// Run the built binary with a no-op argument to check the build.
    CheckBinary { binary: String },
    /// Clone the source artifact's repository into the models directory.
    CloneRepo { url: String, dest: String },
    /// Convert a fetched artifact into the intermediate format.
    Convert { converter: String, source_dir: String, out_file: String },
    /// Reduce the intermediate file with the requested profile tag.
    Reduce { reducer: String, in_file: String, out_file: String, tag: String },
}

/// The one piece of outside work a machine is waiting on.
#[derive(Clone, Debug, PartialEq, Eq)]
pub enum Io {
    /// Does this path exist?
    Probe { path: String },
    /// Remove this file.
    Remove { path: String },
    /// Run this external command and report how it ended.
    Run { command: ToolCommand },
}

/// The caller's answer to a pending [`Io`] request.
#[derive(Clone, Copy, Debug, PartialEq, Eq, Structural)]
pub enum Event {
    /// Answers [`Io::Probe`]: whether the path exists.
    Present(bool),
    /// Answers [`Io::Remove`]: the file is gone.
    Removed,
    /// Answers [`Io::Run`]: how the command ended.
    Ran(RunOutcome),
}

/// What a stage machine reports when asked what to do next: either the one
/// [`Io`] request it is waiting on, or how the stage ended.
#[derive(Clone, Debug, PartialEq, Eq)]
pub enum StageStep {
    /// The stage is waiting on this piece of outside work.
    Next(Io),
    /// The stage completed and stands behind this path.
    Done(StageResult),
    /// The stage gave up for this reason.
    Fail(FailureKind),
}

/// Classifies one synchronous external command run, the way every stage
/// reads it: `launched` says whether the program could be started at all,
/// `exit_code` is its status when it was. Callers inspect the outcome and
/// decide retry or failure themselves; nothing is raised on a non-zero exit.
pub fn classify_exit(launched: bool, exit_code: i32) -> (r: RunOutcome)
    ensures
        !launched ==> r is Missing,
        launched && exit_code == 0 ==> r is Success,
        launched && exit_code != 0 ==> r is Failed,
{
    if !launched {
        RunOutcome::Missing
    } else if exit_code == 0 {
        RunOutcome::Success
    } else {
        RunOutcome::Failed
    }
}

} // verus!
