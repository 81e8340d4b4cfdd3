//! The reduction stage: invoke the toolchain's size-reduction binary on
//! the intermediate file with the requested profile's tag, producing the
//! final artifact. Any stale output is removed first; a missing binary is
//! the fatal `ReducerMissing`; a non-zero invocation is `ReductionFailed`,
//! not retried.

use vstd::prelude::*;
use crate::effect::{Event, Io, StageStep, ToolCommand};
use crate::model::{FailureKind, ReductionProfile, SourceName, StageResult};
use crate::paths;
use crate::transform::{
    transform_advance, transform_emits_run, transform_expects, transform_step, TransformState,
};

verus! {

/// The reduction stage's transition: the shared remove-check-invoke
/// shape, failing with its own two kinds.
pub open spec fn reduce_step(s: TransformState, ev: Event) -> TransformState {
    transform_step(s, ev, FailureKind::ReducerMissing, FailureKind::ReductionFailed)
}

/// Exactly which request each non-terminal state publishes.
pub open spec fn reduce_pending_io(
    s: TransformState,
    source: SourceName,
    profile: ReductionProfile,
    io: Io,
) -> bool {
    match s {
        TransformState::ProbeOut => io matches Io::Probe { path } && path@
            == paths::final_path_view(source, profile),
        TransformState::RemovingStale => io matches Io::Remove { path } && path@
            == paths::final_path_view(source, profile),
        TransformState::ProbeTool => io matches Io::Probe { path } && path@
            == paths::reducer_path_view(),
        TransformState::Running => io matches Io::Run {
            command: ToolCommand::Reduce { reducer, in_file, out_file, tag },
        } && reducer@ == paths::reducer_path_view() && in_file@ == paths::intermediate_path_view(
            source,
        ) && out_file@ == paths::final_path_view(source, profile) && tag@ == profile.tag_view(),
        TransformState::Complete => false,
        TransformState::Failed { .. } => false,
    }
}

/// The reduction stage machine (`reduce`).
#[derive(Clone, Copy, Debug, PartialEq, Eq, Structural)]
pub struct ReduceTask {
    pub source: SourceName,
    pub profile: ReductionProfile,
    pub state: TransformState,
}

impl ReduceTask {
    /// Starts the stage at the stale-output probe.
    pub fn new(source: SourceName, profile: ReductionProfile) -> (r: ReduceTask)
        ensures
            r.state == TransformState::ProbeOut,
            r.source == source,
            r.profile == profile,
    {
        ReduceTask { source, profile, state: TransformState::ProbeOut }
    }

    /// What the stage wants next: its pending request, or its result. On
    /// completion it stands behind the freshly regenerated final artifact.
    pub fn action(&self) -> (r: StageStep)
        ensures
            self.state is Complete ==> (r matches StageStep::Done(sr) && sr.produced_path@
                == paths::final_path_view(self.source, self.profile) && !sr.already_present),
            self.state matches TransformState::Failed { kind } ==> (r matches StageStep::Fail(k)
                && k == kind),
            !(self.state is Complete) && !(self.state is Failed) ==> (r matches StageStep::Next(io)
                && reduce_pending_io(self.state, self.source, self.profile, io)),
            (r matches StageStep::Next(io) && io is Run) <==> transform_emits_run(self.state),
    {
        match self.state {
            TransformState::ProbeOut => StageStep::Next(
                Io::Probe { path: paths::final_path(self.source, self.profile) },
            ),
            TransformState::RemovingStale => StageStep::Next(
                Io::Remove { path: paths::final_path(self.source, self.profile) },
            ),
            TransformState::ProbeTool => StageStep::Next(
                Io::Probe { path: paths::reducer_path() },
            ),
            TransformState::Running => StageStep::Next(
                Io::Run {
                    command: ToolCommand::Reduce {
                        reducer: paths::reducer_path(),
                        in_file: paths::intermediate_path(self.source),
                        out_file: paths::final_path(self.source, self.profile),
                        tag: self.profile.tag(),
                    },
                },
            ),
            TransformState::Complete => StageStep::Done(
                StageResult {
                    produced_path: paths::final_path(self.source, self.profile),
                    already_present: false,
                },
            ),
            TransformState::Failed { kind } => StageStep::Fail(kind),
        }
    }

    /// Answers the pending request and advances the stage.
    pub fn step(&mut self, ev: Event)
        requires
            transform_expects(old(self).state, ev),
        ensures
            final(self).state == reduce_step(old(self).state, ev),
            final(self).source == old(self).source,
            final(self).profile == old(self).profile,
    {
        self.state = transform_advance(
            self.state,
            ev,
            FailureKind::ReducerMissing,
            FailureKind::ReductionFailed,
        );
    }
}

} // verus!
