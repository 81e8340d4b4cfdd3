//! The data model of the pipeline: identifiers for source artifacts and
//! reduction profiles, the request, and the stage/outcome types.

use vstd::prelude::*;

verus! {

/// A known source artifact. The catalogue is fixed: each identifier has a
/// canonical full name (`namespace/repository`) and a short name (the
/// repository part), which names its local directory and output files.
#[derive(Clone, Copy, Debug, PartialEq, Eq, Structural)]
pub enum SourceName {
    Llama2_7b,
    Llama2Chat7b,
    Llama2Chinese7b,
}

/// A known size-reduction level. Its tag is the argument handed to the
/// reduction binary.
#[derive(Clone, Copy, Debug, PartialEq, Eq, Structural)]
pub enum ReductionProfile {
    Q4,
    Q8,
    F16,
    F32,
}

/// One conversion request: which source artifact to transform, and how
/// aggressively to reduce it. Immutable once built.
#[derive(Clone, Copy, Debug, PartialEq, Eq, Structural)]
pub struct ConversionRequest {
    pub source_name: SourceName,
    pub reduction_profile: ReductionProfile,
}

/// The four ordered stages of the pipeline.
#[derive(Clone, Copy, Debug, PartialEq, Eq, Structural)]
pub enum Stage {
    Toolchain,
    Fetch,
    Convert,
    Reduce,
}

/// Why a stage failed.
///
/// `ToolchainIncomplete`, `ToolchainCheckFailed`, `UnknownArtifact`,
/// `ConverterMissing` and `ReducerMissing` are fatal: retrying cannot fix
/// them. `FetchFailed` is reported only after the fetch retry bound is
/// spent. `ConversionFailed` and `ReductionFailed` are deterministic
/// failures: the same inputs are assumed to fail identically, so they are
/// never retried.
#[derive(Clone, Copy, Debug, PartialEq, Eq, Structural)]
pub enum FailureKind {
    ToolchainIncomplete,
    ToolchainCheckFailed,
    UnknownArtifact,
    FetchFailed,
    ConverterMissing,
    ConversionFailed,
    ReducerMissing,
    ReductionFailed,
}

/// A stage's failure report: which stage gave up, and why.
#[derive(Clone, Copy, Debug, PartialEq, Eq, Structural)]
pub struct StageFailure {
    pub stage: Stage,
    pub kind: FailureKind,
}

/// What a completed stage reports: the path it is responsible for, and
/// whether that path already existed so the expensive work was skipped.
#[derive(Clone, Debug, PartialEq, Eq)]
pub struct StageResult {
    pub produced_path: String,
    pub already_present: bool,
}

/// A successful pipeline run: where the final artifact lies.
#[derive(Clone, Debug, PartialEq, Eq)]
pub struct PipelineOutcome {
    pub final_artifact_path: String,
}

impl SourceName {
    /// The canonical `namespace/repository` name of the artifact.
    pub open spec fn full_name_view(self) -> Seq<char> {
        match self {
            SourceName::Llama2_7b => "meta-llama/Llama-2-7b-hf"@,
            SourceName::Llama2Chat7b => "meta-llama/Llama-2-7b-chat-hf"@,
            SourceName::Llama2Chinese7b => "LinkSoul/Chinese-Llama-2-7b"@,
        }
    }

    /// The repository part of the full name, used for local paths.
    pub open spec fn short_name_view(self) -> Seq<char> {
        match self {
            SourceName::Llama2_7b => "Llama-2-7b-hf"@,
            SourceName::Llama2Chat7b => "Llama-2-7b-chat-hf"@,
            SourceName::Llama2Chinese7b => "Chinese-Llama-2-7b"@,
        }
    }

    pub fn full_name(self) -> (r: String)
        ensures
            r@ == self.full_name_view(),
    {
        match self {
            SourceName::Llama2_7b => "meta-llama/Llama-2-7b-hf".to_owned(),
            SourceName::Llama2Chat7b => "meta-llama/Llama-2-7b-chat-hf".to_owned(),
            SourceName::Llama2Chinese7b => "LinkSoul/Chinese-Llama-2-7b".to_owned(),
        }
    }

    pub fn short_name(self) -> (r: String)
        ensures
            r@ == self.short_name_view(),
    {
        match self {
            SourceName::Llama2_7b => "Llama-2-7b-hf".to_owned(),
            SourceName::Llama2Chat7b => "Llama-2-7b-chat-hf".to_owned(),
            SourceName::Llama2Chinese7b => "Chinese-Llama-2-7b".to_owned(),
        }
    }
}

impl ReductionProfile {
    /// The tag handed to the reduction binary for this profile.
    pub open spec fn tag_view(self) -> Seq<char> {
        match self {
            ReductionProfile::Q4 => "q4_0"@,
            ReductionProfile::Q8 => "q8_0"@,
            ReductionProfile::F16 => "f16"@,
            ReductionProfile::F32 => "f32"@,
        }
    }

    pub fn tag(self) -> (r: String)
        ensures
            r@ == self.tag_view(),
    {
        match self {
            ReductionProfile::Q4 => "q4_0".to_owned(),
            ReductionProfile::Q8 => "q8_0".to_owned(),
            ReductionProfile::F16 => "f16".to_owned(),
            ReductionProfile::F32 => "f32".to_owned(),
        }
    }
}

impl FailureKind {
    /// A human-readable description of the failure.
    pub open spec fn message_view(self) -> Seq<char> {
        match self {
            FailureKind::ToolchainIncomplete => "toolchain directory missing after extraction"@,
            FailureKind::ToolchainCheckFailed => "toolchain binary failed its check run"@,
            FailureKind::UnknownArtifact => "source artifact is not in the registry"@,
            FailureKind::FetchFailed => "artifact fetch failed after 3 attempts"@,
            FailureKind::ConverterMissing => "conversion entry point not found"@,
            FailureKind::ConversionFailed => "conversion command returned a non-zero status"@,
            FailureKind::ReducerMissing => "reduction binary not found"@,
            FailureKind::ReductionFailed => "reduction command returned a non-zero status"@,
        }
    }

    pub fn message(self) -> (r: String)
        ensures
            r@ == self.message_view(),
    {
        match self {
            FailureKind::ToolchainIncomplete => "toolchain directory missing after extraction".to_owned(),
            FailureKind::ToolchainCheckFailed => "toolchain binary failed its check run".to_owned(),
            FailureKind::UnknownArtifact => "source artifact is not in the registry".to_owned(),
            FailureKind::FetchFailed => "artifact fetch failed after 3 attempts".to_owned(),
            FailureKind::ConverterMissing => "conversion entry point not found".to_owned(),
            FailureKind::ConversionFailed => "conversion command returned a non-zero status".to_owned(),
            FailureKind::ReducerMissing => "reduction binary not found".to_owned(),
            FailureKind::ReductionFailed => "reduction command returned a non-zero status".to_owned(),
        }
    }
}

impl StageFailure {
    /// The cause string surfaced to the boundary layer.
    pub fn cause(self) -> (r: String)
        ensures
            r@ == self.kind.message_view(),
    {
        self.kind.message()
    }
}

} // verus!
