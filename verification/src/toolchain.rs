//! The toolchain stage: make sure the build toolchain directory exists
//! locally (fetch the fixed-version release archive, unpack it, discard the
//! archive, rename the extracted directory) and that its size-reduction
//! binary is built (build, then check the binary with a no-op run).
//!
//! Both halves are idempotent by presence: an existing directory skips the
//! acquisition, an existing binary skips the build. A directory still
//! missing after unpacking is fatal — a corrupt or incompatible release is
//! not expected to succeed on retry — and so is a non-zero check run.

use vstd::prelude::*;
use crate::effect::{Event, Io, RunOutcome, StageStep, ToolCommand};
use crate::model::{FailureKind, StageResult};
use crate::paths;

verus! {

/// Where the toolchain stage stands: which answer it is waiting for.
#[derive(Clone, Copy, Debug, PartialEq, Eq, Structural)]
pub enum ToolchainState {
    /// Probing whether the toolchain directory already exists.
    ProbeDir,
    /// Downloading the release archive.
    Fetching,
    /// Unpacking the archive.
    Extracting,
    /// Discarding the unpacked archive.
    Discarding,
    /// Renaming the extracted directory to its canonical name.
    Renaming,
    /// Probing that the directory is there after acquisition.
    Confirming,
    /// Probing whether the binary is already built; `acquired` remembers
    /// whether acquisition work was done on this call.
    ProbeBinary { acquired: bool },
    /// Building the toolchain.
    Building,
    /// Checking the built binary with a no-op run.
    Checking,
    /// The stage is done; `already` says the whole stage was a skip.
    Complete { already: bool },
    /// The stage gave up.
    Failed { kind: FailureKind },
}

/// The transition relation of the toolchain stage. Only the two presence
/// probes and the check run branch; the acquisition commands are judged
/// solely by whether the directory exists afterwards, so their own exit
/// statuses are not inspected.
pub open spec fn toolchain_step(s: ToolchainState, ev: Event) -> ToolchainState {
    match (s, ev) {
        (ToolchainState::ProbeDir, Event::Present(b)) => if b {
            ToolchainState::ProbeBinary { acquired: false }
        } else {
            ToolchainState::Fetching
        },
        (ToolchainState::Fetching, Event::Ran(_)) => ToolchainState::Extracting,
        (ToolchainState::Extracting, Event::Ran(_)) => ToolchainState::Discarding,
        (ToolchainState::Discarding, Event::Ran(_)) => ToolchainState::Renaming,
        (ToolchainState::Renaming, Event::Ran(_)) => ToolchainState::Confirming,
        (ToolchainState::Confirming, Event::Present(b)) => if b {
            ToolchainState::ProbeBinary { acquired: true }
        } else {
            ToolchainState::Failed { kind: FailureKind::ToolchainIncomplete }
        },
        (ToolchainState::ProbeBinary { acquired }, Event::Present(b)) => if b {
            ToolchainState::Complete { already: !acquired }
        } else {
            ToolchainState::Building
        },
        (ToolchainState::Building, Event::Ran(_)) => ToolchainState::Checking,
        (ToolchainState::Checking, Event::Ran(o)) => if o is Success {
            ToolchainState::Complete { already: false }
        } else {
            ToolchainState::Failed { kind: FailureKind::ToolchainCheckFailed }
        },
        _ => s,
    }
}

/// Which kind of answer each state is waiting for. Terminal states wait
/// for nothing.
pub open spec fn toolchain_expects(s: ToolchainState, ev: Event) -> bool {
    match s {
        ToolchainState::ProbeDir => ev is Present,
        ToolchainState::Fetching => ev is Ran,
        ToolchainState::Extracting => ev is Ran,
        ToolchainState::Discarding => ev is Ran,
        ToolchainState::Renaming => ev is Ran,
        ToolchainState::Confirming => ev is Present,
        ToolchainState::ProbeBinary { .. } => ev is Present,
        ToolchainState::Building => ev is Ran,
        ToolchainState::Checking => ev is Ran,
        ToolchainState::Complete { .. } => false,
        ToolchainState::Failed { .. } => false,
    }
}

/// Whether the state is waiting on an external command run (as opposed to
/// a presence probe, or nothing at all).
pub open spec fn toolchain_emits_run(s: ToolchainState) -> bool {
    match s {
        ToolchainState::Fetching => true,
        ToolchainState::Extracting => true,
        ToolchainState::Discarding => true,
        ToolchainState::Renaming => true,
        ToolchainState::Building => true,
        ToolchainState::Checking => true,
        _ => false,
    }
}

/// Exactly which request each non-terminal state publishes.
pub open spec fn toolchain_pending_io(s: ToolchainState, io: Io) -> bool {
    match s {
        ToolchainState::ProbeDir => io matches Io::Probe { path } && path@
            == paths::toolchain_dir_view(),
        ToolchainState::Fetching => io matches Io::Run {
            command: ToolCommand::FetchArchive { url },
        } && url@ == paths::archive_url_view(),
        ToolchainState::Extracting => io matches Io::Run {
            command: ToolCommand::ExtractArchive { archive },
        } && archive@ == paths::archive_name_view(),
        ToolchainState::Discarding => io matches Io::Run {
            command: ToolCommand::DiscardArchive { archive },
        } && archive@ == paths::archive_name_view(),
        ToolchainState::Renaming => io matches Io::Run {
            command: ToolCommand::RenameDir { from, to },
        } && from@ == paths::extracted_dir_view() && to@ == paths::toolchain_dir_view(),
        ToolchainState::Confirming => io matches Io::Probe { path } && path@
            == paths::toolchain_dir_view(),
        ToolchainState::ProbeBinary { .. } => io matches Io::Probe { path } && path@
            == paths::reducer_path_view(),
        ToolchainState::Building => io matches Io::Run { command: ToolCommand::Build { dir } }
            && dir@ == paths::toolchain_dir_view(),
        ToolchainState::Checking => io matches Io::Run {
            command: ToolCommand::CheckBinary { binary },
        } && binary@ == paths::reducer_path_view(),
        ToolchainState::Complete { .. } => false,
        ToolchainState::Failed { .. } => false,
    }
}

/// The state left after answering a whole sequence of events.
pub open spec fn toolchain_run(s: ToolchainState, evs: Seq<Event>) -> ToolchainState
    decreases evs.len(),
{
    if evs.len() == 0 {
        s
    } else {
        toolchain_run(toolchain_step(s, evs.first()), evs.drop_first())
    }
}

/// How many external commands are run while answering a sequence of
/// events: one for every consumed event whose state was waiting on a run.
pub open spec fn toolchain_run_count(s: ToolchainState, evs: Seq<Event>) -> nat
    decreases evs.len(),
{
    if evs.len() == 0 {
        0
    } else {
        (if toolchain_emits_run(s) {
            1 as nat
        } else {
            0 as nat
        }) + toolchain_run_count(toolchain_step(s, evs.first()), evs.drop_first())
    }
}

/// The toolchain stage machine (`ensure_toolchain`). Drive it by asking
/// [`ToolchainTask::action`] for the pending request, performing it, and
/// answering through [`ToolchainTask::step`], until it reports `Done` or
/// `Fail`.
#[derive(Clone, Copy, Debug, PartialEq, Eq, Structural)]
pub struct ToolchainTask {
    pub state: ToolchainState,
}

impl ToolchainTask {
    /// Starts the stage at the directory presence probe.
    pub fn new() -> (r: ToolchainTask)
        ensures
            r.state == ToolchainState::ProbeDir,
    {
        ToolchainTask { state: ToolchainState::ProbeDir }
    }

    /// What the stage wants next: its pending request, or its result. On
    /// completion it stands behind the toolchain directory, and
    /// `already_present` says no acquisition or build work was needed.
    pub fn action(&self) -> (r: StageStep)
        ensures
            self.state matches ToolchainState::Complete { already } ==> (r matches
                StageStep::Done(sr) && sr.produced_path@ == paths::toolchain_dir_view()
                && sr.already_present == already),
            self.state matches ToolchainState::Failed { kind } ==> (r matches StageStep::Fail(k)
                && k == kind),
            !(self.state is Complete) && !(self.state is Failed) ==> (r matches StageStep::Next(io)
                && toolchain_pending_io(self.state, io)),
            (r matches StageStep::Next(io) && io is Run) <==> toolchain_emits_run(self.state),
    {
        match self.state {
            ToolchainState::ProbeDir => StageStep::Next(Io::Probe { path: paths::toolchain_dir() }),
            ToolchainState::Fetching => StageStep::Next(
                Io::Run { command: ToolCommand::FetchArchive { url: paths::archive_url() } },
            ),
            ToolchainState::Extracting => StageStep::Next(
                Io::Run { command: ToolCommand::ExtractArchive { archive: paths::archive_name() } },
            ),
            ToolchainState::Discarding => StageStep::Next(
                Io::Run { command: ToolCommand::DiscardArchive { archive: paths::archive_name() } },
            ),
            ToolchainState::Renaming => StageStep::Next(
                Io::Run {
                    command: ToolCommand::RenameDir {
                        from: paths::extracted_dir(),
                        to: paths::toolchain_dir(),
                    },
                },
            ),
            ToolchainState::Confirming => StageStep::Next(
                Io::Probe { path: paths::toolchain_dir() },
            ),
            ToolchainState::ProbeBinary { .. } => StageStep::Next(
                Io::Probe { path: paths::reducer_path() },
            ),
            ToolchainState::Building => StageStep::Next(
                Io::Run { command: ToolCommand::Build { dir: paths::toolchain_dir() } },
            ),
            ToolchainState::Checking => StageStep::Next(
                Io::Run { command: ToolCommand::CheckBinary { binary: paths::reducer_path() } },
            ),
            ToolchainState::Complete { already } => StageStep::Done(
                StageResult { produced_path: paths::toolchain_dir(), already_present: already },
            ),
            ToolchainState::Failed { kind } => StageStep::Fail(kind),
        }
    }

    /// Answers the pending request and advances the stage.
    pub fn step(&mut self, ev: Event)
        requires
            toolchain_expects(old(self).state, ev),
        ensures
            final(self).state == toolchain_step(old(self).state, ev),
    {
        self.state = match (self.state, ev) {
            (ToolchainState::ProbeDir, Event::Present(b)) => if b {
                ToolchainState::ProbeBinary { acquired: false }
            } else {
                ToolchainState::Fetching
            },
            (ToolchainState::Fetching, Event::Ran(_)) => ToolchainState::Extracting,
            (ToolchainState::Extracting, Event::Ran(_)) => ToolchainState::Discarding,
            (ToolchainState::Discarding, Event::Ran(_)) => ToolchainState::Renaming,
            (ToolchainState::Renaming, Event::Ran(_)) => ToolchainState::Confirming,
            (ToolchainState::Confirming, Event::Present(b)) => if b {
                ToolchainState::ProbeBinary { acquired: true }
            } else {
                ToolchainState::Failed { kind: FailureKind::ToolchainIncomplete }
            },
            (ToolchainState::ProbeBinary { acquired }, Event::Present(b)) => if b {
                ToolchainState::Complete { already: !acquired }
            } else {
                ToolchainState::Building
            },
            (ToolchainState::Building, Event::Ran(_)) => ToolchainState::Checking,
            (ToolchainState::Checking, Event::Ran(o)) => match o {
                RunOutcome::Success => ToolchainState::Complete { already: false },
                _ => ToolchainState::Failed { kind: FailureKind::ToolchainCheckFailed },
            },
            (s, _) => s,
        };
    }
}

/// Once the toolchain stage has completed or failed it is quiescent:
/// further events change nothing and no external command is ever run.
pub proof fn lemma_toolchain_terminal_quiet(s: ToolchainState, evs: Seq<Event>)
    requires
        s is Complete || s is Failed,
    ensures
        toolchain_run(s, evs) == s,
        toolchain_run_count(s, evs) == 0,
    decreases evs.len(),
{
    if evs.len() > 0 {
        lemma_toolchain_terminal_quiet(s, evs.drop_first());
    }
}

/// Idempotency of `ensure_toolchain`: on an untouched filesystem where the
/// toolchain directory and its binary both already exist, the stage
/// answers its two presence probes, completes with `already_present`, and
/// no external command is run on this call — however many further events
/// arrive.
pub proof fn lemma_ensure_toolchain_idempotent(evs: Seq<Event>)
    requires
        evs.len() >= 2,
        evs[0] == Event::Present(true),
        evs[1] == Event::Present(true),
    ensures
        toolchain_run(ToolchainState::ProbeDir, evs) == (ToolchainState::Complete {
            already: true,
        }),
        toolchain_run_count(ToolchainState::ProbeDir, evs) == 0,
{
    let s1 = toolchain_step(ToolchainState::ProbeDir, evs.first());
    let rest1 = evs.drop_first();
    assert(s1 == (ToolchainState::ProbeBinary { acquired: false }));
    assert(toolchain_run(ToolchainState::ProbeDir, evs) == toolchain_run(s1, rest1));
    assert(toolchain_run_count(ToolchainState::ProbeDir, evs) == toolchain_run_count(s1, rest1));
    assert(rest1.first() == evs[1]);
    let s2 = toolchain_step(s1, rest1.first());
    assert(s2 == (ToolchainState::Complete { already: true }));
    assert(toolchain_run(s1, rest1) == toolchain_run(s2, rest1.drop_first()));
    assert(toolchain_run_count(s1, rest1) == toolchain_run_count(s2, rest1.drop_first()));
    lemma_toolchain_terminal_quiet(s2, rest1.drop_first());
}

} // verus!
