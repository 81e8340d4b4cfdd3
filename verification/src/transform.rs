//! The shape shared by the conversion and reduction stages: remove any
//! stale output file first, check that the stage's tool exists (a missing
//! tool is fatal), then invoke it once. A non-zero invocation is reported
//! as the stage's deterministic failure and never retried — the same
//! inputs are assumed to fail identically.
//!
//! Unlike toolchain acquisition and artifact fetch, these stages are not
//! idempotent by presence: an existing output is removed and regenerated,
//! so it is absent immediately before the tool is invoked, whatever the
//! invocation then does.

use vstd::prelude::*;
use crate::effect::{Event, RunOutcome};
use crate::model::FailureKind;

verus! {

/// Where a remove-check-invoke stage stands.
#[derive(Clone, Copy, Debug, PartialEq, Eq, Structural)]
pub enum TransformState {
    /// Probing whether a stale output file exists.
    ProbeOut,
    /// Removing the stale output file.
    RemovingStale,
    /// Probing whether the stage's tool exists.
    ProbeTool,
    /// The one tool invocation.
    Running,
    /// The stage is done: the output was regenerated.
    Complete,
    /// The stage gave up.
    Failed { kind: FailureKind },
}

/// The transition relation of a remove-check-invoke stage. `missing` is
/// the failure reported when the tool is absent, `failed` the one reported
/// when its invocation exits non-zero.
pub open spec fn transform_step(
    s: TransformState,
    ev: Event,
    missing: FailureKind,
    failed: FailureKind,
) -> TransformState {
    match (s, ev) {
        (TransformState::ProbeOut, Event::Present(b)) => if b {
            TransformState::RemovingStale
        } else {
            TransformState::ProbeTool
        },
        (TransformState::RemovingStale, Event::Removed) => TransformState::ProbeTool,
        (TransformState::ProbeTool, Event::Present(b)) => if b {
            TransformState::Running
        } else {
            TransformState::Failed { kind: missing }
        },
        (TransformState::Running, Event::Ran(o)) => if o is Success {
            TransformState::Complete
        } else {
            TransformState::Failed { kind: failed }
        },
        _ => s,
    }
}

/// Which kind of answer each state is waiting for.
pub open spec fn transform_expects(s: TransformState, ev: Event) -> bool {
    match s {
        TransformState::ProbeOut => ev is Present,
        TransformState::RemovingStale => ev is Removed,
        TransformState::ProbeTool => ev is Present,
        TransformState::Running => ev is Ran,
        TransformState::Complete => false,
        TransformState::Failed { .. } => false,
    }
}

/// Whether the state is waiting on an external command run. Only the one
/// tool invocation is; probes and the stale-output removal are not.
pub open spec fn transform_emits_run(s: TransformState) -> bool {
    s is Running
}

/// The state left after answering a whole sequence of events.
pub open spec fn transform_run(
    s: TransformState,
    evs: Seq<Event>,
    missing: FailureKind,
    failed: FailureKind,
) -> TransformState
    decreases evs.len(),
{
    if evs.len() == 0 {
        s
    } else {
        transform_run(transform_step(s, evs.first(), missing, failed), evs.drop_first(), missing, failed)
    }
}

/// How many external commands are run while answering a sequence of
/// events.
pub open spec fn transform_run_count(
    s: TransformState,
    evs: Seq<Event>,
    missing: FailureKind,
    failed: FailureKind,
) -> nat
    decreases evs.len(),
{
    if evs.len() == 0 {
        0
    } else {
        (if transform_emits_run(s) {
            1 as nat
        } else {
            0 as nat
        }) + transform_run_count(
            transform_step(s, evs.first(), missing, failed),
            evs.drop_first(),
            missing,
            failed,
        )
    }
}

/// The exec transition shared by the conversion and reduction stages.
pub fn transform_advance(
    s: TransformState,
    ev: Event,
    missing: FailureKind,
    failed: FailureKind,
) -> (r: TransformState)
    ensures
        r == transform_step(s, ev, missing, failed),
{
    match (s, ev) {
        (TransformState::ProbeOut, Event::Present(b)) => if b {
            TransformState::RemovingStale
        } else {
            TransformState::ProbeTool
        },
        (TransformState::RemovingStale, Event::Removed) => TransformState::ProbeTool,
        (TransformState::ProbeTool, Event::Present(b)) => if b {
            TransformState::Running
        } else {
            TransformState::Failed { kind: missing }
        },
        (TransformState::Running, Event::Ran(o)) => match o {
            RunOutcome::Success => TransformState::Complete,
            _ => TransformState::Failed { kind: failed },
        },
        (other, _) => other,
    }
}

/// Once a remove-check-invoke stage has completed or failed it is
/// quiescent: further events change nothing and no command is ever run.
pub proof fn lemma_transform_terminal_quiet(
    s: TransformState,
    evs: Seq<Event>,
    missing: FailureKind,
    failed: FailureKind,
)
    requires
        s is Complete || s is Failed,
    ensures
        transform_run(s, evs, missing, failed) == s,
        transform_run_count(s, evs, missing, failed) == 0,
    decreases evs.len(),
{
    if evs.len() > 0 {
        lemma_transform_terminal_quiet(s, evs.drop_first(), missing, failed);
    }
}

/// Stale-output replacement: when the output file pre-exists, the stage
/// moves to removing it, and as long as the removal has not been answered
/// the tool is never invoked — whatever else happens. The output is
/// therefore absent immediately before any invocation, whether the
/// invocation then succeeds or fails.
pub proof fn lemma_stale_output_removed_first(
    evs: Seq<Event>,
    missing: FailureKind,
    failed: FailureKind,
)
    requires
        evs.len() >= 1,
        evs[0] == Event::Present(true),
        forall|i: int| 1 <= i < evs.len() ==> !(#[trigger] evs[i] is Removed),
    ensures
        transform_step(TransformState::ProbeOut, evs[0], missing, failed)
            == TransformState::RemovingStale,
        transform_run(TransformState::ProbeOut, evs, missing, failed)
            == TransformState::RemovingStale,
        transform_run_count(TransformState::ProbeOut, evs, missing, failed) == 0,
{
    lemma_removal_blocks(evs.drop_first(), missing, failed);
}

/// While the stale-output removal is unanswered the stage stays where it
/// is and runs nothing.
proof fn lemma_removal_blocks(evs: Seq<Event>, missing: FailureKind, failed: FailureKind)
    requires
        forall|i: int| 0 <= i < evs.len() ==> !(#[trigger] evs[i] is Removed),
    ensures
        transform_run(TransformState::RemovingStale, evs, missing, failed)
            == TransformState::RemovingStale,
        transform_run_count(TransformState::RemovingStale, evs, missing, failed) == 0,
    decreases evs.len(),
{
    if evs.len() > 0 {
        assert(transform_step(TransformState::RemovingStale, evs.first(), missing, failed)
            == TransformState::RemovingStale);
        lemma_removal_blocks(evs.drop_first(), missing, failed);
    }
}

/// After the pre-existing output is removed the stage is at the tool
/// probe: the removal always precedes the invocation.
pub proof fn lemma_removal_then_probe(missing: FailureKind, failed: FailureKind)
    ensures
        transform_run(
            TransformState::ProbeOut,
            seq![Event::Present(true), Event::Removed],
            missing,
            failed,
        ) == TransformState::ProbeTool,
        transform_run_count(
            TransformState::ProbeOut,
            seq![Event::Present(true), Event::Removed],
            missing,
            failed,
        ) == 0,
{
    let evs = seq![Event::Present(true), Event::Removed];
    let s1 = transform_step(TransformState::ProbeOut, evs.first(), missing, failed);
    assert(evs.first() == Event::Present(true));
    assert(s1 == TransformState::RemovingStale);
    assert(transform_run(TransformState::ProbeOut, evs, missing, failed) == transform_run(
        s1,
        evs.drop_first(),
        missing,
        failed,
    ));
    assert(transform_run_count(TransformState::ProbeOut, evs, missing, failed)
        == transform_run_count(s1, evs.drop_first(), missing, failed));
    assert(evs.drop_first().first() == Event::Removed);
    let s2 = transform_step(s1, evs.drop_first().first(), missing, failed);
    assert(s2 == TransformState::ProbeTool);
    assert(transform_run(s1, evs.drop_first(), missing, failed) == transform_run(
        s2,
        evs.drop_first().drop_first(),
        missing,
        failed,
    ));
    assert(transform_run_count(s1, evs.drop_first(), missing, failed) == transform_run_count(
        s2,
        evs.drop_first().drop_first(),
        missing,
        failed,
    ));
    assert(evs.drop_first().drop_first().len() == 0);
}

} // verus!
