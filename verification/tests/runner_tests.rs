use ignis_core::builder::{BuildStep, Builder};
use ignis_core::config::Config;
use ignis_core::executor::{ExecutionResult, ProcessExit, StepsExecution};
use ignis_core::stage::Stage;
use ignis_core::stage_context::{StageContext, StageResult, StageStatus};
use ignis_core::stage_runner::{
    stage_result_from_steps, BuildContext, LayerDirective, StageDecision, StageRunner,
};
use ignis_core::target::{Target, TargetKind};

fn create_test_builder() -> Builder {
    let root_config = Config::default();
    let root = Target {
        path: "/tmp/test".to_string(),
        kind: TargetKind::Root,
        config: root_config,
    };
    Builder::new(root, "debug".to_string())
}

fn create_test_context() -> BuildContext {
    BuildContext::new(create_test_builder())
}

fn ok_result() -> ExecutionResult {
    ExecutionResult {
        success: true,
        duration_ms: 5,
        stdout: vec![],
        stderr: vec![],
        exit_code: Some(0),
        failure_reason: None,
    }
}

fn failed_result(reason: &str) -> ExecutionResult {
    ExecutionResult {
        success: false,
        duration_ms: 5,
        stdout: vec![],
        stderr: vec![],
        exit_code: Some(1),
        failure_reason: Some(reason.to_string()),
    }
}

fn step(description: &str) -> BuildStep {
    BuildStep::new(description.to_string(), vec!["true".to_string()])
}

#[test]
fn test_stage_result_success() {
    let result = StageResult::Success { duration_ms: 1500, steps_executed: 3 };

    match result {
        StageResult::Success { duration_ms, steps_executed } => {
            assert_eq!(duration_ms, 1500);
            assert_eq!(steps_executed, 3);
        }
        _ => panic!("Expected Success"),
    }
}

#[test]
fn test_stage_status() {
    assert_eq!(StageStatus::Pending, StageStatus::Pending);
    assert_ne!(StageStatus::Running, StageStatus::Completed);
}

#[test]
fn test_stage_context_creation() {
    let builder = create_test_builder();
    let context = StageContext::new(builder);
    assert!(context.executable_info().is_none());
}

#[test]
fn test_generate_steps_for_stage() {
    let builder = create_test_builder();
    let context = StageContext::new(builder);

    let steps = context.generate_steps_for_stage(Stage::PreValidation);
    assert_eq!(steps.len(), 0);

    let steps = context.generate_steps_for_stage(Stage::Exec);
    assert_eq!(steps.len(), 0);
}

#[test]
fn test_stage_runner_creation() {
    let ctx = create_test_context();
    let runner = StageRunner::new(ctx);
    assert!(runner.get_status(Stage::Build).is_none());
}

#[test]
fn test_stage_runner_clear() {
    let ctx = create_test_context();
    let mut runner = StageRunner::new(ctx);

    runner.complete_stage(Stage::Build, StageResult::Success { duration_ms: 1000, steps_executed: 1 });
    assert!(runner.get_result(Stage::Build).is_some());

    runner.clear();

    assert!(runner.get_result(Stage::Build).is_none());
}

#[test]
fn test_execute_steps_stops_at_first_failure() {
    let steps = vec![step("one"), step("two"), step("three")];
    let mut run = StepsExecution::new(steps);

    let first = run.next_step().expect("first step expected");
    assert_eq!(first.description, "one");
    run.record(ok_result());

    let second = run.next_step().expect("second step expected");
    assert_eq!(second.description, "two");
    run.record(failed_result("Exit code 1"));

    assert!(run.next_step().is_none());
    assert!(run.is_finished());

    let results = run.into_results();
    assert_eq!(results.len(), 2);
    assert!(!results[1].success);
}

#[test]
fn test_execute_steps_runs_all_when_successful() {
    let steps = vec![step("one"), step("two")];
    let mut run = StepsExecution::new(steps);
    while let Some(_next) = run.next_step() {
        run.record(ok_result());
    }
    let results = run.into_results();
    assert_eq!(results.len(), 2);
    assert!(results.iter().all(|r| r.success));
}

#[test]
fn test_fail_fast_skips_later_layer() {
    let ctx = create_test_context();
    let mut runner = StageRunner::new(ctx);

    runner.complete_stage(
        Stage::Build,
        StageResult::Failed { error: "Exit code 2".to_string(), duration_ms: 10, steps_executed: 1 },
    );

    let layer = vec![Stage::Install, Stage::PostBuild];
    let mut generator_calls = 0;
    match runner.layer_directive(&layer) {
        LayerDirective::SkipAll => runner.skip_layer(&layer),
        _ => {
            generator_calls += 1;
        }
    }
    assert_eq!(generator_calls, 0);

    for stage in [Stage::Install, Stage::PostBuild] {
        match runner.get_result(stage) {
            Some(StageResult::Skipped { reason }) => {
                assert_eq!(reason, "Previous stage failed");
            }
            other => panic!("expected Skipped, got {:?}", other),
        }
        assert_eq!(runner.get_status(stage), Some(StageStatus::Skipped));
    }
}

#[test]
fn test_concurrent_layer_directive() {
    let ctx = create_test_context();
    let runner = StageRunner::new(ctx);

    let layer = vec![Stage::Install, Stage::PostBuild];
    assert_eq!(runner.layer_directive(&layer), LayerDirective::RunConcurrent);

    let mixed = vec![Stage::Build, Stage::PostBuild];
    assert_eq!(runner.layer_directive(&mixed), LayerDirective::RunSequential);

    let single = vec![Stage::Install];
    assert_eq!(runner.layer_directive(&single), LayerDirective::RunSequential);
}

#[test]
fn test_empty_step_list_yields_skipped() {
    let ctx = create_test_context();
    let mut runner = StageRunner::new(ctx);
    let context = StageContext::new(create_test_builder());

    // Settle an earlier stage successfully so position in the order is shown
    // not to matter.
    runner.complete_stage(Stage::Configure, StageResult::Success { duration_ms: 1, steps_executed: 1 });

    match runner.prepare_stage(Stage::Build, &context) {
        StageDecision::Done(StageResult::Skipped { reason }) => {
            assert_eq!(reason, "No steps to execute");
        }
        _ => panic!("expected the empty stage to settle as Skipped"),
    }
    assert_eq!(runner.get_status(Stage::Build), Some(StageStatus::Skipped));
    match runner.get_result(Stage::Build) {
        Some(StageResult::Skipped { reason }) => assert_eq!(reason, "No steps to execute"),
        other => panic!("expected Skipped, got {:?}", other),
    }
}

#[test]
fn test_exec_stage_without_executable_fails() {
    let ctx = create_test_context();
    let mut runner = StageRunner::new(ctx);
    let context = StageContext::new(create_test_builder());

    match runner.prepare_stage(Stage::Exec, &context) {
        StageDecision::Done(StageResult::Failed { error, duration_ms, steps_executed }) => {
            assert_eq!(error, "Exec stage requires executable info");
            assert_eq!(duration_ms, 0);
            assert_eq!(steps_executed, 0);
        }
        _ => panic!("expected the launch stage to fail without an executable"),
    }
    assert_eq!(runner.get_status(Stage::Exec), Some(StageStatus::Failed));
}

#[test]
fn test_stage_result_from_steps() {
    let all_ok = vec![ok_result(), ok_result()];
    match stage_result_from_steps(&all_ok, 77) {
        StageResult::Success { duration_ms, steps_executed } => {
            assert_eq!(duration_ms, 77);
            assert_eq!(steps_executed, 2);
        }
        other => panic!("expected Success, got {:?}", other),
    }

    let with_failure = vec![ok_result(), failed_result("Exit code 9")];
    match stage_result_from_steps(&with_failure, 88) {
        StageResult::Failed { error, duration_ms, steps_executed } => {
            assert_eq!(error, "Exit code 9");
            assert_eq!(duration_ms, 88);
            assert_eq!(steps_executed, 2);
        }
        other => panic!("expected Failed, got {:?}", other),
    }
}

#[test]
fn test_step_execution_result_classifies_exit() {
    let ok = ignis_core::executor::step_execution_result(
        &ProcessExit { exit_code: Some(0), signal: None },
        12,
        vec![],
        vec![],
    );
    assert!(ok.success);
    assert_eq!(ok.failure_reason, None);

    let failed = ignis_core::executor::step_execution_result(
        &ProcessExit { exit_code: Some(2), signal: None },
        12,
        vec![],
        vec![],
    );
    assert!(!failed.success);
    assert_eq!(failed.failure_reason, Some("Exit code 2".to_string()));

    let killed = ignis_core::executor::step_execution_result(
        &ProcessExit { exit_code: None, signal: Some(9) },
        12,
        vec![],
        vec![],
    );
    assert!(!killed.success);
    assert_eq!(killed.failure_reason, None);
}

#[test]
fn test_classify_program_exit_signal() {
    let (result, logs) = ignis_core::executor::classify_program_exit(
        &ProcessExit { exit_code: None, signal: Some(11) },
        30,
    );
    assert!(!result.success);
    assert_eq!(
        result.failure_reason,
        Some("Signal 11 (SIGSEGV (Segmentation fault))".to_string())
    );
    assert_eq!(logs.len(), 1);
    assert_eq!(logs[0].index, 999999);
}

#[test]
fn test_classify_program_exit_code() {
    let (result, logs) = ignis_core::executor::classify_program_exit(
        &ProcessExit { exit_code: Some(3), signal: None },
        30,
    );
    assert!(!result.success);
    assert_eq!(result.failure_reason, Some("Exit code 3".to_string()));
    assert_eq!(logs.len(), 1);
    assert_eq!(logs[0].message, "Process exited with code: 3");
    assert_eq!(logs[0].index, 999998);
}

#[test]
fn test_signal_name_table() {
    assert_eq!(ignis_core::executor::signal_name(9), "SIGKILL (Killed)");
    assert_eq!(ignis_core::executor::signal_name(15), "SIGTERM (Terminated)");
    assert_eq!(ignis_core::executor::signal_name(7), "Unknown signal");
}

#[test]
fn test_program_stage_result() {
    let launched = ExecutionResult {
        success: false,
        duration_ms: 40,
        stdout: vec![],
        stderr: vec![],
        exit_code: None,
        failure_reason: None,
    };
    match ignis_core::stage_runner::program_stage_result(&launched) {
        StageResult::Failed { error, duration_ms, steps_executed } => {
            assert_eq!(error, "Execution failed");
            assert_eq!(duration_ms, 40);
            assert_eq!(steps_executed, 1);
        }
        other => panic!("expected Failed, got {:?}", other),
    }
}
