//! The fetch stage: make sure the named source artifact is present locally.
//!
//! If its canonical directory exists the stage is an idempotent skip.
//! Otherwise the name is resolved through the immutable registry — a miss
//! is the fatal `UnknownArtifact`, reached before any external command —
//! and the retrieval is attempted by cloning, the one network-dependent
//! step of the pipeline, retried up to [`RETRY_LIMIT`] attempts in all
//! before the stage reports `FetchFailed`. The attempts are independent:
//! no cleanup happens between them, and the directory is not probed
//! again, so a partial clone can never be mistaken for a finished one
//! within the same run.

use vstd::prelude::*;
use crate::effect::{Event, Io, RunOutcome, StageStep, ToolCommand};
use crate::model::{FailureKind, SourceName, StageResult};
use crate::paths;

verus! {

/// How many clone attempts the stage makes in all before giving up.
pub const RETRY_LIMIT: u8 = 3;

/// Where the fetch stage stands.
#[derive(Clone, Copy, Debug, PartialEq, Eq, Structural)]
pub enum FetchState {
    /// Probing whether the artifact's directory already exists.
    ProbeDir,
    /// Cloning; `attempts` earlier attempts have already failed.
    Cloning { attempts: u8 },
    /// The stage is done; `already` says the artifact was already there.
    Complete { already: bool },
    /// The stage gave up.
    Failed { kind: FailureKind },
}

/// The transition relation of the fetch stage. `known` says whether the
/// registry carries the artifact's name; it is fixed for a whole run,
/// since the registry is never mutated.
pub open spec fn fetch_step(s: FetchState, known: bool, ev: Event) -> FetchState {
    match (s, ev) {
        (FetchState::ProbeDir, Event::Present(b)) => if b {
            FetchState::Complete { already: true }
        } else if known {
            FetchState::Cloning { attempts: 0 }
        } else {
            FetchState::Failed { kind: FailureKind::UnknownArtifact }
        },
        (FetchState::Cloning { attempts }, Event::Ran(o)) => if o is Success {
            FetchState::Complete { already: false }
        } else if attempts + 1 < RETRY_LIMIT {
            FetchState::Cloning { attempts: (attempts + 1) as u8 }
        } else {
            FetchState::Failed { kind: FailureKind::FetchFailed }
        },
        _ => s,
    }
}

/// Which kind of answer each state is waiting for.
pub open spec fn fetch_expects(s: FetchState, ev: Event) -> bool {
    match s {
        FetchState::ProbeDir => ev is Present,
        FetchState::Cloning { .. } => ev is Ran,
        FetchState::Complete { .. } => false,
        FetchState::Failed { .. } => false,
    }
}

/// Whether the state is waiting on an external command run.
pub open spec fn fetch_emits_run(s: FetchState) -> bool {
    s is Cloning
}

/// Exactly which request each non-terminal state publishes. `url` is the
/// retrieval location the registry gave for the artifact.
pub open spec fn fetch_pending_io(s: FetchState, source: SourceName, url: Seq<char>, io: Io) -> bool {
    match s {
        FetchState::ProbeDir => io matches Io::Probe { path } && path@ == paths::source_dir_view(
            source,
        ),
        FetchState::Cloning { .. } => io matches Io::Run {
            command: ToolCommand::CloneRepo { url: u, dest },
        } && u@ == url && dest@ == paths::source_dir_view(source),
        FetchState::Complete { .. } => false,
        FetchState::Failed { .. } => false,
    }
}

/// The state left after answering a whole sequence of events.
pub open spec fn fetch_run(s: FetchState, known: bool, evs: Seq<Event>) -> FetchState
    decreases evs.len(),
{
    if evs.len() == 0 {
        s
    } else {
        fetch_run(fetch_step(s, known, evs.first()), known, evs.drop_first())
    }
}

/// How many external commands are run while answering a sequence of
/// events — here, how many clone attempts are made.
pub open spec fn fetch_run_count(s: FetchState, known: bool, evs: Seq<Event>) -> nat
    decreases evs.len(),
{
    if evs.len() == 0 {
        0
    } else {
        (if fetch_emits_run(s) {
            1 as nat
        } else {
            0 as nat
        }) + fetch_run_count(fetch_step(s, known, evs.first()), known, evs.drop_first())
    }
}

/// The fetch stage machine (`ensure_artifact`). `url` is the registry's
/// answer for `source`, resolved once when the task is built.
#[derive(Clone, Debug, PartialEq, Eq)]
pub struct FetchTask {
    pub source: SourceName,
    pub url: Option<String>,
    pub state: FetchState,
}

impl FetchTask {
    /// The attempt counter stays below the bound, and cloning happens only
    /// with a resolved location.
    pub open spec fn wf(self) -> bool {
        &&& (self.state matches FetchState::Cloning { attempts } ==> attempts < RETRY_LIMIT)
        &&& (self.state is Cloning ==> self.url is Some)
    }

    /// Whether the registry carries the artifact's name.
    pub open spec fn known(self) -> bool {
        self.url is Some
    }

    /// The retrieval location the registry gave, when it gave one.
    pub open spec fn url_view(self) -> Seq<char> {
        match self.url {
            Some(url) => url@,
            None => Seq::empty(),
        }
    }

    /// Starts the stage at the directory presence probe. `url` must be the
    /// registry's answer for `source`.
    pub fn new(source: SourceName, url: Option<String>) -> (r: FetchTask)
        ensures
            r.state == FetchState::ProbeDir,
            r.source == source,
            r.url == url,
            r.wf(),
    {
        FetchTask { source, url, state: FetchState::ProbeDir }
    }

    /// What the stage wants next: its pending request, or its result. On
    /// completion it stands behind the artifact's directory.
    pub fn action(&self) -> (r: StageStep)
        requires
            self.wf(),
        ensures
            self.state matches FetchState::Complete { already } ==> (r matches StageStep::Done(sr)
                && sr.produced_path@ == paths::source_dir_view(self.source)
                && sr.already_present == already),
            self.state matches FetchState::Failed { kind } ==> (r matches StageStep::Fail(k)
                && k == kind),
            !(self.state is Complete) && !(self.state is Failed) ==> (r matches StageStep::Next(io)
                && fetch_pending_io(self.state, self.source, self.url_view(), io)),
            (r matches StageStep::Next(io) && io is Run) <==> fetch_emits_run(self.state),
    {
        match self.state {
            FetchState::ProbeDir => StageStep::Next(Io::Probe { path: paths::source_dir(self.source) }),
            FetchState::Cloning { .. } => match &self.url {
                Some(url) => StageStep::Next(
                    Io::Run {
                        command: ToolCommand::CloneRepo {
                            url: url.clone(),
                            dest: paths::source_dir(self.source),
                        },
                    },
                ),
                None => StageStep::Fail(FailureKind::UnknownArtifact),
            },
            FetchState::Complete { already } => StageStep::Done(
                StageResult {
                    produced_path: paths::source_dir(self.source),
                    already_present: already,
                },
            ),
            FetchState::Failed { kind } => StageStep::Fail(kind),
        }
    }

    /// Answers the pending request and advances the stage.
    pub fn step(&mut self, ev: Event)
        requires
            old(self).wf(),
            fetch_expects(old(self).state, ev),
        ensures
            final(self).state == fetch_step(old(self).state, old(self).known(), ev),
            final(self).source == old(self).source,
            final(self).url == old(self).url,
            final(self).wf(),
    {
        self.state = match (self.state, ev) {
            (FetchState::ProbeDir, Event::Present(b)) => if b {
                FetchState::Complete { already: true }
            } else if self.url.is_some() {
                FetchState::Cloning { attempts: 0 }
            } else {
                FetchState::Failed { kind: FailureKind::UnknownArtifact }
            },
            (FetchState::Cloning { attempts }, Event::Ran(o)) => match o {
                RunOutcome::Success => FetchState::Complete { already: false },
                _ => if attempts + 1 < RETRY_LIMIT {
                    FetchState::Cloning { attempts: attempts + 1 }
                } else {
                    FetchState::Failed { kind: FailureKind::FetchFailed }
                },
            },
            (s, _) => s,
        };
    }
}

/// Once the fetch stage has completed or failed it is quiescent: further
/// events change nothing and no external command is ever run.
pub proof fn lemma_fetch_terminal_quiet(s: FetchState, known: bool, evs: Seq<Event>)
    requires
        s is Complete || s is Failed,
    ensures
        fetch_run(s, known, evs) == s,
        fetch_run_count(s, known, evs) == 0,
    decreases evs.len(),
{
    if evs.len() > 0 {
        lemma_fetch_terminal_quiet(s, known, evs.drop_first());
    }
}

/// Idempotency of `ensure_artifact`: when the artifact's directory already
/// exists, the stage completes with `already_present` straight after its
/// presence probe — whether or not the registry knows the name — and no
/// external command is run, however many further events arrive.
pub proof fn lemma_ensure_artifact_idempotent(known: bool, evs: Seq<Event>)
    requires
        evs.len() >= 1,
        evs[0] == Event::Present(true),
    ensures
        fetch_run(FetchState::ProbeDir, known, evs) == (FetchState::Complete { already: true }),
        fetch_run_count(FetchState::ProbeDir, known, evs) == 0,
{
    let s1 = fetch_step(FetchState::ProbeDir, known, evs.first());
    assert(s1 == (FetchState::Complete { already: true }));
    lemma_fetch_terminal_quiet(s1, known, evs.drop_first());
}

/// Fatal short-circuit: a source name the registry does not carry yields
/// `UnknownArtifact` as soon as the directory probe comes back absent, and
/// no external command is ever run.
pub proof fn lemma_unknown_artifact_short_circuit(evs: Seq<Event>)
    requires
        evs.len() >= 1,
        evs[0] == Event::Present(false),
    ensures
        fetch_run(FetchState::ProbeDir, false, evs) == (FetchState::Failed {
            kind: FailureKind::UnknownArtifact,
        }),
        fetch_run_count(FetchState::ProbeDir, false, evs) == 0,
{
    let s1 = fetch_step(FetchState::ProbeDir, false, evs.first());
    assert(s1 == (FetchState::Failed { kind: FailureKind::UnknownArtifact }));
    lemma_fetch_terminal_quiet(s1, false, evs.drop_first());
}

/// An event that answers a clone attempt with a failure.
pub open spec fn fails_clone(ev: Event) -> bool {
    ev matches Event::Ran(o) && !(o is Success)
}

/// A sequence of events that answer every clone attempt with a failure.
pub open spec fn all_attempts_fail(evs: Seq<Event>) -> bool {
    forall|i: int| 0 <= i < evs.len() ==> #[trigger] fails_clone(evs[i])
}

/// From a cloning state with `attempts` failures behind it, a run of
/// failing answers makes exactly enough further attempts to reach the
/// retry bound, then gives up — never more, never fewer.
proof fn lemma_cloning_exhausts(attempts: u8, evs: Seq<Event>)
    requires
        attempts < RETRY_LIMIT,
        all_attempts_fail(evs),
        evs.len() >= RETRY_LIMIT - attempts,
    ensures
        fetch_run(FetchState::Cloning { attempts }, true, evs) == (FetchState::Failed {
            kind: FailureKind::FetchFailed,
        }),
        fetch_run_count(FetchState::Cloning { attempts }, true, evs) == RETRY_LIMIT - attempts,
    decreases evs.len(),
{
    assert(fails_clone(evs[0]));
    let s1 = fetch_step(FetchState::Cloning { attempts }, true, evs.first());
    if attempts + 1 < RETRY_LIMIT {
        assert(s1 == (FetchState::Cloning { attempts: (attempts + 1) as u8 }));
        assert(all_attempts_fail(evs.drop_first())) by {
            assert forall|i: int| 0 <= i < evs.drop_first().len() implies #[trigger] fails_clone(
                evs.drop_first()[i],
            ) by {
                assert(evs.drop_first()[i] == evs[i + 1]);
                assert(fails_clone(evs[i + 1]));
            }
        }
        lemma_cloning_exhausts((attempts + 1) as u8, evs.drop_first());
    } else {
        assert(s1 == (FetchState::Failed { kind: FailureKind::FetchFailed }));
        lemma_fetch_terminal_quiet(s1, true, evs.drop_first());
    }
}

/// From a cloning state, failing answers that do not yet reach the retry
/// bound leave the stage still cloning, one attempt counted per answer.
proof fn lemma_cloning_progress(attempts: u8, evs: Seq<Event>)
    requires
        attempts + evs.len() < RETRY_LIMIT,
        all_attempts_fail(evs),
    ensures
        fetch_run(FetchState::Cloning { attempts }, true, evs) == (FetchState::Cloning {
            attempts: (attempts + evs.len()) as u8,
        }),
        fetch_run_count(FetchState::Cloning { attempts }, true, evs) == evs.len(),
    decreases evs.len(),
{
    if evs.len() > 0 {
        assert(fails_clone(evs[0]));
        let s1 = fetch_step(FetchState::Cloning { attempts }, true, evs.first());
        assert(s1 == (FetchState::Cloning { attempts: (attempts + 1) as u8 }));
        assert(all_attempts_fail(evs.drop_first())) by {
            assert forall|i: int| 0 <= i < evs.drop_first().len() implies #[trigger] fails_clone(
                evs.drop_first()[i],
            ) by {
                assert(evs.drop_first()[i] == evs[i + 1]);
                assert(fails_clone(evs[i + 1]));
            }
        }
        lemma_cloning_progress((attempts + 1) as u8, evs.drop_first());
    }
}

/// The other half of the retry bound: while fewer failures have come back
/// than the bound allows, the stage never gives up early — it is still
/// cloning, with exactly one attempt made per failing answer.
pub proof fn lemma_fetch_keeps_trying(evs: Seq<Event>)
    requires
        evs.len() >= 1,
        evs.len() - 1 < RETRY_LIMIT,
        evs[0] == Event::Present(false),
        all_attempts_fail(evs.drop_first()),
    ensures
        fetch_run(FetchState::ProbeDir, true, evs) == (FetchState::Cloning {
            attempts: (evs.len() - 1) as u8,
        }),
        fetch_run_count(FetchState::ProbeDir, true, evs) == evs.len() - 1,
{
    let s1 = fetch_step(FetchState::ProbeDir, true, evs.first());
    assert(s1 == (FetchState::Cloning { attempts: 0 }));
    lemma_cloning_progress(0, evs.drop_first());
}

/// Retry bound: when the artifact is absent, its name is known, and the
/// clone tool fails on every attempt, the stage makes exactly
/// [`RETRY_LIMIT`] attempts and then reports `FetchFailed` — never more,
/// never fewer, however many further events arrive.
pub proof fn lemma_fetch_retry_bound(evs: Seq<Event>)
    requires
        evs.len() >= 1 + RETRY_LIMIT,
        evs[0] == Event::Present(false),
        all_attempts_fail(evs.drop_first()),
    ensures
        fetch_run(FetchState::ProbeDir, true, evs) == (FetchState::Failed {
            kind: FailureKind::FetchFailed,
        }),
        fetch_run_count(FetchState::ProbeDir, true, evs) == RETRY_LIMIT,
{
    let s1 = fetch_step(FetchState::ProbeDir, true, evs.first());
    assert(s1 == (FetchState::Cloning { attempts: 0 }));
    lemma_cloning_exhausts(0, evs.drop_first());
}

} // verus!
