//! The pipeline orchestrator: one request is served by driving the four
//! stages strictly in order — toolchain, fetch, convert, reduce — each
//! stage's input being the previous stage's output. There is no branching
//! and no parallelism; the first stage failure ends the run with that
//! stage's report, and nothing done by earlier stages is rolled back:
//! their outputs are valid, reusable idempotent state for a later request
//! with the same identifiers.

use vstd::prelude::*;
use crate::convert::{convert_pending_io, convert_step, ConvertTask};
use crate::effect::{Event, Io, StageStep};
use crate::fetch::{fetch_emits_run, fetch_expects, fetch_pending_io, fetch_step, FetchState, FetchTask};
use crate::model::{ConversionRequest, FailureKind, PipelineOutcome, Stage, StageFailure};
use crate::paths;
use crate::reduce::{reduce_pending_io, reduce_step, ReduceTask};
use crate::registry::ArtifactRegistry;
use crate::toolchain::{
    toolchain_emits_run, toolchain_expects, toolchain_pending_io, toolchain_step, ToolchainState,
    ToolchainTask,
};
use crate::transform::{transform_emits_run, transform_expects, TransformState};

verus! {

/// The orchestrator's position, stripped to plain data: which stage is
/// active and where that stage stands.
#[derive(Clone, Copy, Debug, PartialEq, Eq, Structural)]
pub enum PipePhase {
    Toolchain(ToolchainState),
    Fetch(FetchState),
    Convert(TransformState),
    Reduce(TransformState),
    Complete,
    Failed { stage: Stage, kind: FailureKind },
}

/// The transition relation of the whole pipeline: the active stage takes
/// the event; when it completes the next stage starts at its opening
/// probe, and when it fails the pipeline fails with that stage's report.
/// `known` says whether the registry carries the requested source name.
pub open spec fn pipeline_step(p: PipePhase, known: bool, ev: Event) -> PipePhase {
    match p {
        PipePhase::Toolchain(s) => {
            let s2 = toolchain_step(s, ev);
            match s2 {
                ToolchainState::Complete { .. } => PipePhase::Fetch(FetchState::ProbeDir),
                ToolchainState::Failed { kind } => PipePhase::Failed {
                    stage: Stage::Toolchain,
                    kind,
                },
                _ => PipePhase::Toolchain(s2),
            }
        },
        PipePhase::Fetch(s) => {
            let s2 = fetch_step(s, known, ev);
            match s2 {
                FetchState::Complete { .. } => PipePhase::Convert(TransformState::ProbeOut),
                FetchState::Failed { kind } => PipePhase::Failed { stage: Stage::Fetch, kind },
                _ => PipePhase::Fetch(s2),
            }
        },
        PipePhase::Convert(s) => {
            let s2 = convert_step(s, ev);
            match s2 {
                TransformState::Complete => PipePhase::Reduce(TransformState::ProbeOut),
                TransformState::Failed { kind } => PipePhase::Failed { stage: Stage::Convert, kind },
                _ => PipePhase::Convert(s2),
            }
        },
        PipePhase::Reduce(s) => {
            let s2 = reduce_step(s, ev);
            match s2 {
                TransformState::Complete => PipePhase::Complete,
                TransformState::Failed { kind } => PipePhase::Failed { stage: Stage::Reduce, kind },
                _ => PipePhase::Reduce(s2),
            }
        },
        PipePhase::Complete => p,
        PipePhase::Failed { .. } => p,
    }
}

/// Which kind of answer the pipeline is waiting for.
pub open spec fn pipeline_expects(p: PipePhase, ev: Event) -> bool {
    match p {
        PipePhase::Toolchain(s) => toolchain_expects(s, ev),
        PipePhase::Fetch(s) => fetch_expects(s, ev),
        PipePhase::Convert(s) => transform_expects(s, ev),
        PipePhase::Reduce(s) => transform_expects(s, ev),
        PipePhase::Complete => false,
        PipePhase::Failed { .. } => false,
    }
}

/// Whether the pipeline is waiting on an external command run.
pub open spec fn pipeline_emits_run(p: PipePhase) -> bool {
    match p {
        PipePhase::Toolchain(s) => toolchain_emits_run(s),
        PipePhase::Fetch(s) => fetch_emits_run(s),
        PipePhase::Convert(s) => transform_emits_run(s),
        PipePhase::Reduce(s) => transform_emits_run(s),
        PipePhase::Complete => false,
        PipePhase::Failed { .. } => false,
    }
}

/// Whether the pipeline is waiting on the reduction tool invocation
/// itself.
pub open spec fn pipeline_emits_reduce_run(p: PipePhase) -> bool {
    p matches PipePhase::Reduce(s) && transform_emits_run(s)
}

/// The phase left after answering a whole sequence of events.
pub open spec fn pipeline_run(p: PipePhase, known: bool, evs: Seq<Event>) -> PipePhase
    decreases evs.len(),
{
    if evs.len() == 0 {
        p
    } else {
        pipeline_run(pipeline_step(p, known, evs.first()), known, evs.drop_first())
    }
}

/// How many times the reduction tool is invoked while answering a
/// sequence of events.
pub open spec fn pipeline_reduce_count(p: PipePhase, known: bool, evs: Seq<Event>) -> nat
    decreases evs.len(),
{
    if evs.len() == 0 {
        0
    } else {
        (if pipeline_emits_reduce_run(p) {
            1 as nat
        } else {
            0 as nat
        }) + pipeline_reduce_count(pipeline_step(p, known, evs.first()), known, evs.drop_first())
    }
}

/// What the orchestrator reports when asked what to do next.
#[derive(Clone, Debug, PartialEq, Eq)]
pub enum PipelineStep {
    /// The active stage is waiting on this piece of outside work.
    Next(Io),
    /// The whole pipeline succeeded; here lies the final artifact.
    Done(PipelineOutcome),
    /// A stage failed and the pipeline stopped with its report.
    Fail(StageFailure),
}

/// Which stage machine currently holds the request.
pub enum ActiveStage {
    Toolchain(ToolchainTask),
    Fetch(FetchTask),
    Convert(ConvertTask),
    Reduce(ReduceTask),
    Complete,
    Failed(StageFailure),
}

/// The pipeline orchestrator for one request. Drive it like the stage
/// machines: ask [`Pipeline::action`] for the pending request, perform
/// it, answer through [`Pipeline::step`], and repeat until it reports
/// `Done` or `Fail`.
pub struct Pipeline {
    pub request: ConversionRequest,
    pub registry: ArtifactRegistry,
    pub active: ActiveStage,
}

impl Pipeline {
    /// The orchestrator's position as plain data.
    pub open spec fn phase(self) -> PipePhase {
        match self.active {
            ActiveStage::Toolchain(t) => PipePhase::Toolchain(t.state),
            ActiveStage::Fetch(t) => PipePhase::Fetch(t.state),
            ActiveStage::Convert(t) => PipePhase::Convert(t.state),
            ActiveStage::Reduce(t) => PipePhase::Reduce(t.state),
            ActiveStage::Complete => PipePhase::Complete,
            ActiveStage::Failed(f) => PipePhase::Failed { stage: f.stage, kind: f.kind },
        }
    }

    /// Whether the registry carries the requested source name.
    pub open spec fn known(self) -> bool {
        self.registry@.contains_key(self.request.source_name)
    }

    /// The orchestrator's invariant: the active stage machine carries the
    /// request's own identifiers, its fetch configuration agrees with the
    /// registry, and a stage that has ended never stays active — the
    /// orchestrator advances past it in the same step.
    pub open spec fn wf(self) -> bool {
        match self.active {
            ActiveStage::Toolchain(t) => !(t.state is Complete) && !(t.state is Failed),
            ActiveStage::Fetch(t) => {
                &&& t.wf()
                &&& t.source == self.request.source_name
                &&& (t.url is Some <==> self.known())
                &&& (t.url matches Some(u) ==> u@ == self.registry@[self.request.source_name])
                &&& !(t.state is Complete)
                &&& !(t.state is Failed)
            },
            ActiveStage::Convert(t) => t.source == self.request.source_name && !(t.state
                is Complete) && !(t.state is Failed),
            ActiveStage::Reduce(t) => t.source == self.request.source_name && t.profile
                == self.request.reduction_profile && !(t.state is Complete) && !(t.state
                is Failed),
            ActiveStage::Complete => true,
            ActiveStage::Failed(_) => true,
        }
    }

    /// Builds the orchestrator for one request over an immutable registry.
    pub fn new(request: ConversionRequest, registry: ArtifactRegistry) -> (r: Pipeline)
        ensures
            r.request == request,
            r.registry == registry,
            r.phase() == PipePhase::Toolchain(ToolchainState::ProbeDir),
            r.wf(),
    {
        Pipeline { request, registry, active: ActiveStage::Toolchain(ToolchainTask::new()) }
    }

    /// What the pipeline wants next: the active stage's pending request,
    /// the final artifact's location, or the failing stage's report.
    pub fn action(&self) -> (r: PipelineStep)
        requires
            self.wf(),
        ensures
            self.phase() matches PipePhase::Toolchain(s) ==> (r matches PipelineStep::Next(io)
                && toolchain_pending_io(s, io)),
            self.phase() matches PipePhase::Fetch(s) ==> (r matches PipelineStep::Next(io)
                && fetch_pending_io(
                s,
                self.request.source_name,
                self.registry@[self.request.source_name],
                io,
            )),
            self.phase() matches PipePhase::Convert(s) ==> (r matches PipelineStep::Next(io)
                && convert_pending_io(s, self.request.source_name, io)),
            self.phase() matches PipePhase::Reduce(s) ==> (r matches PipelineStep::Next(io)
                && reduce_pending_io(
                s,
                self.request.source_name,
                self.request.reduction_profile,
                io,
            )),
            self.phase() is Complete ==> (r matches PipelineStep::Done(o)
                && o.final_artifact_path@ == paths::final_path_view(
                self.request.source_name,
                self.request.reduction_profile,
            )),
            self.phase() matches PipePhase::Failed { stage, kind } ==> (r matches
                PipelineStep::Fail(f) && f.stage == stage && f.kind == kind),
            (r matches PipelineStep::Next(io) && io is Run) <==> pipeline_emits_run(self.phase()),
    {
        match &self.active {
            ActiveStage::Toolchain(t) => match t.action() {
                StageStep::Next(io) => PipelineStep::Next(io),
                _ => vstd::pervasive::unreached(),
            },
            ActiveStage::Fetch(t) => match t.action() {
                StageStep::Next(io) => PipelineStep::Next(io),
                _ => vstd::pervasive::unreached(),
            },
            ActiveStage::Convert(t) => match t.action() {
                StageStep::Next(io) => PipelineStep::Next(io),
                _ => vstd::pervasive::unreached(),
            },
            ActiveStage::Reduce(t) => match t.action() {
                StageStep::Next(io) => PipelineStep::Next(io),
                _ => vstd::pervasive::unreached(),
            },
            ActiveStage::Complete => PipelineStep::Done(
                PipelineOutcome {
                    final_artifact_path: paths::final_path(
                        self.request.source_name,
                        self.request.reduction_profile,
                    ),
                },
            ),
            ActiveStage::Failed(f) => PipelineStep::Fail(*f),
        }
    }

    /// Answers the pending request: the active stage advances, and when it
    /// ends the orchestrator moves on — to the next stage's opening probe,
    /// to `Complete` after reduction, or to `Failed` with the stage's
    /// report. The request and the registry never change.
    pub fn step(&mut self, ev: Event)
        requires
            old(self).wf(),
            pipeline_expects(old(self).phase(), ev),
        ensures
            final(self).wf(),
            final(self).phase() == pipeline_step(old(self).phase(), old(self).known(), ev),
            final(self).request == old(self).request,
            final(self).registry == old(self).registry,
    {
        match &mut self.active {
            ActiveStage::Toolchain(t) => t.step(ev),
            ActiveStage::Fetch(t) => t.step(ev),
            ActiveStage::Convert(t) => t.step(ev),
            ActiveStage::Reduce(t) => t.step(ev),
            ActiveStage::Complete => (),
            ActiveStage::Failed(_) => (),
        }
        let next: Option<ActiveStage> = match &self.active {
            ActiveStage::Toolchain(t) => match t.state {
                ToolchainState::Complete { .. } => Some(
                    ActiveStage::Fetch(
                        FetchTask::new(
                            self.request.source_name,
                            self.registry.lookup(self.request.source_name),
                        ),
                    ),
                ),
                ToolchainState::Failed { kind } => Some(
                    ActiveStage::Failed(StageFailure { stage: Stage::Toolchain, kind }),
                ),
                _ => None,
            },
            ActiveStage::Fetch(t) => match t.state {
                FetchState::Complete { .. } => Some(
                    ActiveStage::Convert(ConvertTask::new(self.request.source_name)),
                ),
                FetchState::Failed { kind } => Some(
                    ActiveStage::Failed(StageFailure { stage: Stage::Fetch, kind }),
                ),
                _ => None,
            },
            ActiveStage::Convert(t) => match t.state {
                TransformState::Complete => Some(
                    ActiveStage::Reduce(
                        ReduceTask::new(
                            self.request.source_name,
                            self.request.reduction_profile,
                        ),
                    ),
                ),
                TransformState::Failed { kind } => Some(
                    ActiveStage::Failed(StageFailure { stage: Stage::Convert, kind }),
                ),
                _ => None,
            },
            ActiveStage::Reduce(t) => match t.state {
                TransformState::Complete => Some(ActiveStage::Complete),
                TransformState::Failed { kind } => Some(
                    ActiveStage::Failed(StageFailure { stage: Stage::Reduce, kind }),
                ),
                _ => None,
            },
            ActiveStage::Complete => None,
            ActiveStage::Failed(_) => None,
        };
        if let Some(n) = next {
            self.active = n;
        }
    }
}

/// A phase from which the conversion stage lies behind: the reduction
/// stage is active, the pipeline completed, or it failed in reduction.
pub open spec fn past_convert(p: PipePhase) -> bool {
    match p {
        PipePhase::Reduce(_) => true,
        PipePhase::Complete => true,
        PipePhase::Failed { stage, .. } => stage == Stage::Reduce,
        _ => false,
    }
}

/// The orchestrator attempts no cross-stage recovery: once the pipeline
/// has completed or failed, further events change nothing and no tool is
/// invoked again.
pub proof fn lemma_pipeline_terminal_quiet(p: PipePhase, known: bool, evs: Seq<Event>)
    requires
        p is Complete || p is Failed,
    ensures
        pipeline_run(p, known, evs) == p,
        pipeline_reduce_count(p, known, evs) == 0,
    decreases evs.len(),
{
    if evs.len() > 0 {
        lemma_pipeline_terminal_quiet(p, known, evs.drop_first());
    }
}

/// Sequential dependency: when a run of the pipeline ends with the
/// conversion stage's failure, the reduction tool was never invoked along
/// the way — `reduce` is never reached once `convert` has failed for the
/// same request.
pub proof fn lemma_convert_failed_no_reduce(p: PipePhase, known: bool, evs: Seq<Event>)
    requires
        pipeline_run(p, known, evs) matches PipePhase::Failed { stage: Stage::Convert, .. },
    ensures
        pipeline_reduce_count(p, known, evs) == 0,
        !past_convert(p),
    decreases evs.len(),
{
    if evs.len() == 0 {
    } else {
        let p2 = pipeline_step(p, known, evs.first());
        lemma_convert_failed_no_reduce(p2, known, evs.drop_first());
        assert(!past_convert(p)) by {
            if past_convert(p) {
                assert(past_convert(p2));
            }
        }
        assert(!pipeline_emits_reduce_run(p));
    }
}

} // verus!
