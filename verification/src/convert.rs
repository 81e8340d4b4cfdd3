//! The conversion stage: invoke the toolchain's conversion entry point on
//! a fetched artifact, producing the intermediate output file. Any stale
//! output is removed first; a missing entry point is the fatal
//! `ConverterMissing`; a non-zero invocation is `ConversionFailed`, not
//! retried.

use vstd::prelude::*;
use crate::effect::{Event, Io, StageStep, ToolCommand};
use crate::model::{FailureKind, SourceName, StageResult};
use crate::paths;
use crate::transform::{
    transform_advance, transform_emits_run, transform_expects, transform_step, TransformState,
};

verus! {

/// The conversion stage's transition: the shared remove-check-invoke
/// shape, failing with its own two kinds.
pub open spec fn convert_step(s: TransformState, ev: Event) -> TransformState {
    transform_step(s, ev, FailureKind::ConverterMissing, FailureKind::ConversionFailed)
}

/// Exactly which request each non-terminal state publishes.
pub open spec fn convert_pending_io(s: TransformState, source: SourceName, io: Io) -> bool {
    match s {
        TransformState::ProbeOut => io matches Io::Probe { path } && path@
            == paths::intermediate_path_view(source),
        TransformState::RemovingStale => io matches Io::Remove { path } && path@
            == paths::intermediate_path_view(source),
        TransformState::ProbeTool => io matches Io::Probe { path } && path@
            == paths::converter_path_view(),
        TransformState::Running => io matches Io::Run {
            command: ToolCommand::Convert { converter, source_dir, out_file },
        } && converter@ == paths::converter_path_view() && source_dir@ == paths::source_dir_view(
            source,
        ) && out_file@ == paths::intermediate_path_view(source),
        TransformState::Complete => false,
        TransformState::Failed { .. } => false,
    }
}

/// The conversion stage machine (`convert`).
#[derive(Clone, Copy, Debug, PartialEq, Eq, Structural)]
pub struct ConvertTask {
    pub source: SourceName,
    pub state: TransformState,
}

impl ConvertTask {
    /// Starts the stage at the stale-output probe.
    pub fn new(source: SourceName) -> (r: ConvertTask)
        ensures
            r.state == TransformState::ProbeOut,
            r.source == source,
    {
        ConvertTask { source, state: TransformState::ProbeOut }
    }

    /// What the stage wants next: its pending request, or its result. On
    /// completion it stands behind the freshly regenerated intermediate
    /// file, never behind a pre-existing one.
    pub fn action(&self) -> (r: StageStep)
        ensures
            self.state is Complete ==> (r matches StageStep::Done(sr) && sr.produced_path@
                == paths::intermediate_path_view(self.source) && !sr.already_present),
            self.state matches TransformState::Failed { kind } ==> (r matches StageStep::Fail(k)
                && k == kind),
            !(self.state is Complete) && !(self.state is Failed) ==> (r matches StageStep::Next(io)
                && convert_pending_io(self.state, self.source, io)),
            (r matches StageStep::Next(io) && io is Run) <==> transform_emits_run(self.state),
    {
        match self.state {
            TransformState::ProbeOut => StageStep::Next(
                Io::Probe { path: paths::intermediate_path(self.source) },
            ),
            TransformState::RemovingStale => StageStep::Next(
                Io::Remove { path: paths::intermediate_path(self.source) },
            ),
            TransformState::ProbeTool => StageStep::Next(
                Io::Probe { path: paths::converter_path() },
            ),
            TransformState::Running => StageStep::Next(
                Io::Run {
                    command: ToolCommand::Convert {
                        converter: paths::converter_path(),
                        source_dir: paths::source_dir(self.source),
                        out_file: paths::intermediate_path(self.source),
                    },
                },
            ),
            TransformState::Complete => StageStep::Done(
                StageResult {
                    produced_path: paths::intermediate_path(self.source),
                    already_present: false,
                },
            ),
            TransformState::Failed { kind } => StageStep::Fail(kind),
        }
    }

    /// Answers the pending request and advances the stage.
    pub fn step(&mut self, ev: Event)
        requires
            transform_expects(old(self).state, ev),
        ensures
            final(self).state == convert_step(old(self).state, ev),
            final(self).source == old(self).source,
    {
        self.state = transform_advance(
            self.state,
            ev,
            FailureKind::ConverterMissing,
            FailureKind::ConversionFailed,
        );
    }
}

} // verus!
