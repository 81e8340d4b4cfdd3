//! Stage-level and unit tests: each stage machine driven on its own, the
//! registry, the path builders and the model strings.

use ggml_pipeline::convert::ConvertTask;
use ggml_pipeline::effect::{classify_exit, Event, Io, RunOutcome, StageStep, ToolCommand};
use ggml_pipeline::fetch::{FetchState, FetchTask, RETRY_LIMIT};
use ggml_pipeline::model::{FailureKind, ReductionProfile, SourceName, Stage, StageFailure};
use ggml_pipeline::paths;
use ggml_pipeline::reduce::ReduceTask;
use ggml_pipeline::registry::{ArtifactRegistry, RegistryEntry};
use ggml_pipeline::toolchain::ToolchainTask;

#[test]
fn toolchain_twice_on_untouched_filesystem_runs_nothing_twice() {
    // First call on a clean filesystem: the acquisition and build run.
    let mut present: Vec<String> = Vec::new();
    let mut runs_first = 0;
    let mut task = ToolchainTask::new();
    let first = loop {
        match task.action() {
            StageStep::Next(Io::Probe { path }) => {
                let b = present.iter().any(|p| *p == path);
                task.step(Event::Present(b));
            }
            StageStep::Next(Io::Remove { .. }) => task.step(Event::Removed),
            StageStep::Next(Io::Run { command }) => {
                runs_first += 1;
                match command {
                    ToolCommand::RenameDir { to, .. } => present.push(to),
                    ToolCommand::Build { .. } => present.push("llama.cpp/quantize".to_string()),
                    _ => {}
                }
                task.step(Event::Ran(RunOutcome::Success));
            }
            StageStep::Done(result) => break result,
            StageStep::Fail(kind) => panic!("unexpected failure {:?}", kind),
        }
    };
    assert!(!first.already_present);
    assert!(runs_first > 0);

    // Second call on the filesystem the first one left: probes only.
    let mut runs_second = 0;
    let mut task = ToolchainTask::new();
    let second = loop {
        match task.action() {
            StageStep::Next(Io::Probe { path }) => {
                let b = present.iter().any(|p| *p == path);
                task.step(Event::Present(b));
            }
            StageStep::Next(_) => {
                runs_second += 1;
                task.step(Event::Ran(RunOutcome::Success));
            }
            StageStep::Done(result) => break result,
            StageStep::Fail(kind) => panic!("unexpected failure {:?}", kind),
        }
    };
    assert!(second.already_present);
    assert_eq!(second.produced_path, "llama.cpp");
    assert_eq!(runs_second, 0);
}

#[test]
fn artifact_twice_on_untouched_filesystem_fetches_once() {
    let registry = ArtifactRegistry::defaults();
    let url = registry.lookup(SourceName::Llama2_7b);
    let mut present: Vec<String> = Vec::new();
    let mut clones = 0;

    for round in 0..2 {
        let mut task = FetchTask::new(SourceName::Llama2_7b, url.clone());
        let result = loop {
            match task.action() {
                StageStep::Next(Io::Probe { path }) => {
                    let b = present.iter().any(|p| *p == path);
                    task.step(Event::Present(b));
                }
                StageStep::Next(Io::Run { command }) => {
                    clones += 1;
                    if let ToolCommand::CloneRepo { dest, .. } = command {
                        present.push(dest);
                    }
                    task.step(Event::Ran(RunOutcome::Success));
                }
                StageStep::Next(Io::Remove { .. }) => unreachable!("fetch never removes"),
                StageStep::Done(result) => break result,
                StageStep::Fail(kind) => panic!("unexpected failure {:?}", kind),
            }
        };
        assert_eq!(result.produced_path, "models/Llama-2-7b-hf");
        assert_eq!(result.already_present, round == 1);
    }
    assert_eq!(clones, 1);
}

#[test]
fn fetch_makes_exactly_three_attempts_against_a_failing_tool() {
    let url = ArtifactRegistry::defaults().lookup(SourceName::Llama2Chat7b);
    let mut task = FetchTask::new(SourceName::Llama2Chat7b, url);
    let mut attempts = 0;
    let failure = loop {
        match task.action() {
            StageStep::Next(Io::Probe { .. }) => task.step(Event::Present(false)),
            StageStep::Next(Io::Run { command }) => {
                assert!(matches!(command, ToolCommand::CloneRepo { .. }));
                attempts += 1;
                task.step(Event::Ran(RunOutcome::Failed));
            }
            StageStep::Next(Io::Remove { .. }) => unreachable!("fetch never removes"),
            StageStep::Done(result) => panic!("unexpected success {:?}", result),
            StageStep::Fail(kind) => break kind,
        }
    };
    assert_eq!(attempts, RETRY_LIMIT as usize);
    assert_eq!(attempts, 3);
    assert_eq!(failure, FailureKind::FetchFailed);
}

#[test]
fn unknown_artifact_is_fatal_before_any_invocation() {
    // The default registry deliberately omits the Chinese variant.
    let registry = ArtifactRegistry::defaults();
    let url = registry.lookup(SourceName::Llama2Chinese7b);
    assert!(url.is_none());
    let mut task = FetchTask::new(SourceName::Llama2Chinese7b, url);
    match task.action() {
        StageStep::Next(Io::Probe { path }) => {
            assert_eq!(path, "models/Chinese-Llama-2-7b");
            task.step(Event::Present(false));
        }
        other => panic!("expected the directory probe, got {:?}", other),
    }
    match task.action() {
        StageStep::Fail(kind) => assert_eq!(kind, FailureKind::UnknownArtifact),
        other => panic!("expected a failure, got {:?}", other),
    }
    assert!(matches!(task.state, FetchState::Failed { .. }));
}

#[test]
fn present_artifact_short_circuits_even_when_unknown() {
    let mut task = FetchTask::new(SourceName::Llama2Chinese7b, None);
    task.step(Event::Present(true));
    match task.action() {
        StageStep::Done(result) => {
            assert!(result.already_present);
            assert_eq!(result.produced_path, "models/Chinese-Llama-2-7b");
        }
        other => panic!("expected completion, got {:?}", other),
    }
}

#[test]
fn convert_removes_stale_output_then_checks_tool() {
    let mut task = ConvertTask::new(SourceName::Llama2_7b);
    match task.action() {
        StageStep::Next(Io::Probe { path }) => {
            assert_eq!(path, "outputs/Llama-2-7b-hf-ggml.bin");
        }
        other => panic!("expected the output probe, got {:?}", other),
    }
    task.step(Event::Present(true));
    match task.action() {
        StageStep::Next(Io::Remove { path }) => {
            assert_eq!(path, "outputs/Llama-2-7b-hf-ggml.bin");
        }
        other => panic!("expected the stale-output removal, got {:?}", other),
    }
    task.step(Event::Removed);
    match task.action() {
        StageStep::Next(Io::Probe { path }) => assert_eq!(path, "llama.cpp/convert.py"),
        other => panic!("expected the tool probe, got {:?}", other),
    }
}

#[test]
fn convert_missing_tool_is_fatal() {
    let mut task = ConvertTask::new(SourceName::Llama2_7b);
    task.step(Event::Present(false));
    task.step(Event::Present(false));
    match task.action() {
        StageStep::Fail(kind) => assert_eq!(kind, FailureKind::ConverterMissing),
        other => panic!("expected a failure, got {:?}", other),
    }
}

#[test]
fn convert_invocation_carries_source_and_output() {
    let mut task = ConvertTask::new(SourceName::Llama2Chat7b);
    task.step(Event::Present(false));
    task.step(Event::Present(true));
    match task.action() {
        StageStep::Next(Io::Run { command: ToolCommand::Convert { converter, source_dir, out_file } }) => {
            assert_eq!(converter, "llama.cpp/convert.py");
            assert_eq!(source_dir, "models/Llama-2-7b-chat-hf");
            assert_eq!(out_file, "outputs/Llama-2-7b-chat-hf-ggml.bin");
        }
        other => panic!("expected the convert invocation, got {:?}", other),
    }
    task.step(Event::Ran(RunOutcome::Failed));
    match task.action() {
        StageStep::Fail(kind) => assert_eq!(kind, FailureKind::ConversionFailed),
        other => panic!("expected a failure, got {:?}", other),
    }
}

#[test]
fn reduce_missing_tool_is_fatal() {
    let mut task = ReduceTask::new(SourceName::Llama2_7b, ReductionProfile::Q8);
    task.step(Event::Present(false));
    task.step(Event::Present(false));
    match task.action() {
        StageStep::Fail(kind) => assert_eq!(kind, FailureKind::ReducerMissing),
        other => panic!("expected a failure, got {:?}", other),
    }
}

#[test]
fn reduce_invocation_carries_profile_tag() {
    let mut task = ReduceTask::new(SourceName::Llama2_7b, ReductionProfile::Q8);
    task.step(Event::Present(false));
    task.step(Event::Present(true));
    match task.action() {
        StageStep::Next(Io::Run {
            command: ToolCommand::Reduce { reducer, in_file, out_file, tag },
        }) => {
            assert_eq!(reducer, "llama.cpp/quantize");
            assert_eq!(in_file, "outputs/Llama-2-7b-hf-ggml.bin");
            assert_eq!(out_file, "outputs/Llama-2-7b-hf-ggml-q8_0.bin");
            assert_eq!(tag, "q8_0");
        }
        other => panic!("expected the reduce invocation, got {:?}", other),
    }
}

#[test]
fn registry_lookup_finds_seeded_urls() {
    let registry = ArtifactRegistry::defaults();
    assert_eq!(
        registry.lookup(SourceName::Llama2_7b).as_deref(),
        Some("https://huggingface.co/meta-llama/Llama-2-7b-hf")
    );
    assert_eq!(
        registry.lookup(SourceName::Llama2Chat7b).as_deref(),
        Some("https://huggingface.co/meta-llama/Llama-2-7b-chat-hf")
    );
    assert!(registry.lookup(SourceName::Llama2Chinese7b).is_none());
}

#[test]
fn registry_earlier_rows_win() {
    let entries = vec![
        RegistryEntry { name: SourceName::Llama2_7b, url: "first".to_string() },
        RegistryEntry { name: SourceName::Llama2_7b, url: "second".to_string() },
    ];
    let registry = ArtifactRegistry::new(entries);
    assert_eq!(registry.lookup(SourceName::Llama2_7b).as_deref(), Some("first"));
}

#[test]
fn path_builders_follow_the_layout() {
    assert_eq!(paths::toolchain_dir(), "llama.cpp");
    assert_eq!(paths::archive_name(), "master-d2a4366.tar.gz");
    assert_eq!(
        paths::archive_url(),
        "https://github.com/ggerganov/llama.cpp/archive/refs/tags/master-d2a4366.tar.gz"
    );
    assert_eq!(paths::extracted_dir(), "llama.cpp-master-d2a4366");
    assert_eq!(paths::reducer_path(), "llama.cpp/quantize");
    assert_eq!(paths::converter_path(), "llama.cpp/convert.py");
    assert_eq!(paths::source_dir(SourceName::Llama2Chinese7b), "models/Chinese-Llama-2-7b");
    assert_eq!(
        paths::intermediate_path(SourceName::Llama2Chat7b),
        "outputs/Llama-2-7b-chat-hf-ggml.bin"
    );
    assert_eq!(
        paths::final_path(SourceName::Llama2_7b, ReductionProfile::F16),
        "outputs/Llama-2-7b-hf-ggml-f16.bin"
    );
}

#[test]
fn source_names_and_profile_tags() {
    assert_eq!(SourceName::Llama2_7b.full_name(), "meta-llama/Llama-2-7b-hf");
    assert_eq!(SourceName::Llama2Chat7b.full_name(), "meta-llama/Llama-2-7b-chat-hf");
    assert_eq!(SourceName::Llama2Chinese7b.full_name(), "LinkSoul/Chinese-Llama-2-7b");
    assert_eq!(SourceName::Llama2_7b.short_name(), "Llama-2-7b-hf");
    assert_eq!(ReductionProfile::Q4.tag(), "q4_0");
    assert_eq!(ReductionProfile::Q8.tag(), "q8_0");
    assert_eq!(ReductionProfile::F16.tag(), "f16");
    assert_eq!(ReductionProfile::F32.tag(), "f32");
}

#[test]
fn classify_exit_tells_missing_from_failed() {
    assert_eq!(classify_exit(false, 0), RunOutcome::Missing);
    assert_eq!(classify_exit(true, 0), RunOutcome::Success);
    assert_eq!(classify_exit(true, 1), RunOutcome::Failed);
    assert_eq!(classify_exit(true, -9), RunOutcome::Failed);
}

#[test]
fn failure_causes_name_their_reason() {
    let failure = StageFailure { stage: Stage::Fetch, kind: FailureKind::FetchFailed };
    assert_eq!(failure.cause(), "artifact fetch failed after 3 attempts");
    let failure = StageFailure { stage: Stage::Fetch, kind: FailureKind::UnknownArtifact };
    assert_eq!(failure.cause(), "source artifact is not in the registry");
    let failure = StageFailure { stage: Stage::Convert, kind: FailureKind::ConverterMissing };
    assert_eq!(failure.cause(), "conversion entry point not found");
    let failure = StageFailure { stage: Stage::Toolchain, kind: FailureKind::ToolchainIncomplete };
    assert_eq!(failure.cause(), "toolchain directory missing after extraction");
}
