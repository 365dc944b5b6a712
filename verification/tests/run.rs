use std::sync::Arc;

use cli_worker::error::WorkerError;
use cli_worker::options::{CliMainWorkerOptions, SharedWorkerState, WorkerLogLevel};
use cli_worker::protocol::Step;
use cli_worker::worker::{
    execute_step, Activity, CliMainWorker, Driver, ExecuteOutcome, ExecuteStage, RunStage,
    WatcherRestartMode, WorkerAction, WorkerEvent,
};

fn run_options(coverage_dir: Option<&str>, hmr: bool) -> CliMainWorkerOptions {
    CliMainWorkerOptions {
        argv: vec![],
        log_level: WorkerLogLevel::Info,
        coverage_dir: coverage_dir.map(str::to_string),
        enable_op_summary_metrics: false,
        enable_testing_features: false,
        has_node_modules_dir: false,
        hmr,
        inspect_brk: true,
        inspect_wait: false,
        strace_ops: None,
        is_inspecting: false,
        is_npm_main: false,
        location: None,
        maybe_binary_npm_command_name: None,
        origin_data_folder_path: None,
        seed: None,
        unsafely_ignore_certificate_errors: None,
        unstable: false,
        skip_op_registration: false,
        maybe_root_package_json_deps: None,
    }
}

fn unit(coverage_dir: Option<&str>, hmr: bool, is_main_cjs: bool) -> CliMainWorker {
    unit_in(coverage_dir, hmr, is_main_cjs, true, true)
}

fn unit_in(
    coverage_dir: Option<&str>,
    hmr: bool,
    is_main_cjs: bool,
    has_file_watcher_communicator: bool,
    has_emitter: bool,
) -> CliMainWorker {
    let shared = Arc::new(SharedWorkerState {
        options: run_options(coverage_dir, hmr),
        needs_test: false,
        npm_resolver_is_managed: true,
        has_lockfile: false,
        has_file_watcher_communicator,
        has_emitter,
        node_ipc: None,
        disable_deprecated_api_warning: false,
        verbose_deprecated_api_warning: false,
    });
    CliMainWorker::new(
        "file:///main.js".to_string(),
        is_main_cjs,
        Some("/main.js".to_string()),
        shared,
    )
}

/// Feeds the events to a run and gathers what it asks for and how it ends.
fn drive(unit: &mut CliMainWorker, events: Vec<WorkerEvent>) -> (Vec<WorkerAction>, Option<Result<i32, WorkerError>>) {
    let mut actions = Vec::new();
    let mut end = None;
    for event in events {
        match unit.run(event) {
            Step::Perform(action) => actions.push(action),
            Step::Finished(result) => {
                assert!(end.is_none());
                end = Some(result);
            },
            Step::Ignored => {},
        }
    }
    (actions, end)
}

fn ok() -> WorkerEvent {
    WorkerEvent::Completed(Ok(()))
}

fn failed(text: &str) -> WorkerEvent {
    WorkerEvent::Completed(Err(text.to_string()))
}

fn main_module() -> String {
    "file:///main.js".to_string()
}

#[test]
fn plain_run_dispatches_unload_once_and_returns_the_exit_code() {
    let mut unit = unit(None, false, false);
    let (actions, end) = drive(
        &mut unit,
        vec![
            WorkerEvent::Start,
            WorkerEvent::Preloaded(Ok(11)),
            ok(),
            ok(),
            ok(),
            WorkerEvent::BeforeUnload(Ok(false)),
            ok(),
            WorkerEvent::ExitCode(3),
        ],
    );
    assert_eq!(
        actions,
        vec![
            WorkerAction::PreloadMainModule { main_module: main_module() },
            WorkerAction::EvaluateModule { id: 11 },
            WorkerAction::DispatchLoad,
            WorkerAction::RunEventLoop { exhaustive: true },
            WorkerAction::DispatchBeforeUnload,
            WorkerAction::DispatchUnload,
            WorkerAction::ReadExitCode,
        ]
    );
    assert_eq!(end, Some(Ok(3)));
    assert_eq!(unit.activity(), Activity::Terminated);
    assert_eq!(actions.iter().filter(|a| **a == WorkerAction::DispatchUnload).count(), 1);
}

#[test]
fn loop_goes_on_while_the_default_is_prevented() {
    let mut unit = unit(None, false, false);
    let (actions, end) = drive(
        &mut unit,
        vec![
            WorkerEvent::Start,
            WorkerEvent::Preloaded(Ok(0)),
            ok(),
            ok(),
            ok(),
            WorkerEvent::BeforeUnload(Ok(true)),
            ok(),
            WorkerEvent::BeforeUnload(Ok(true)),
            ok(),
            WorkerEvent::BeforeUnload(Ok(false)),
            ok(),
            WorkerEvent::ExitCode(0),
        ],
    );
    let pump = WorkerAction::RunEventLoop { exhaustive: true };
    assert_eq!(actions.iter().filter(|a| **a == pump).count(), 3);
    assert_eq!(actions.iter().filter(|a| **a == WorkerAction::DispatchBeforeUnload).count(), 3);
    assert_eq!(actions.iter().filter(|a| **a == WorkerAction::DispatchUnload).count(), 1);
    let unload = actions.iter().position(|a| *a == WorkerAction::DispatchUnload).unwrap();
    assert!(actions[unload + 1..].iter().all(|a| *a != pump
        && *a != WorkerAction::DispatchBeforeUnload
        && *a != WorkerAction::DispatchUnload));
    assert_eq!(end, Some(Ok(0)));
}

#[test]
fn commonjs_module_is_loaded_through_its_loader() {
    let mut unit = unit(None, false, true);
    let (actions, end) = drive(
        &mut unit,
        vec![
            WorkerEvent::Start,
            ok(),
            ok(),
            ok(),
            WorkerEvent::BeforeUnload(Ok(false)),
            ok(),
            WorkerEvent::ExitCode(-1),
        ],
    );
    assert_eq!(
        actions[0],
        WorkerAction::LoadCjsModule { path: "/main.js".to_string(), break_on_first_statement: true }
    );
    assert_eq!(actions[1], WorkerAction::DispatchLoad);
    assert!(!actions.iter().any(|a| matches!(a, WorkerAction::PreloadMainModule { .. })));
    assert_eq!(end, Some(Ok(-1)));
}

#[test]
fn failed_commonjs_load_is_an_evaluation_failure() {
    let mut unit = unit(None, false, true);
    let (actions, end) = drive(&mut unit, vec![WorkerEvent::Start, failed("require failed")]);
    assert_eq!(actions.len(), 1);
    assert_eq!(end, Some(Err(WorkerError::Evaluation("require failed".to_string()))));
}

#[test]
fn coverage_is_attached_first_and_the_pump_does_not_wait() {
    let mut unit = unit(Some("/cov"), false, false);
    let (actions, end) = drive(
        &mut unit,
        vec![
            WorkerEvent::Start,
            ok(),
            WorkerEvent::Preloaded(Ok(1)),
            ok(),
            ok(),
            ok(),
            WorkerEvent::BeforeUnload(Ok(false)),
            ok(),
            ok(),
            WorkerEvent::ExitCode(0),
        ],
    );
    assert_eq!(
        actions,
        vec![
            WorkerAction::StartCoverage { coverage_dir: "/cov".to_string() },
            WorkerAction::PreloadMainModule { main_module: main_module() },
            WorkerAction::EvaluateModule { id: 1 },
            WorkerAction::DispatchLoad,
            WorkerAction::RunEventLoop { exhaustive: false },
            WorkerAction::DispatchBeforeUnload,
            WorkerAction::DispatchUnload,
            WorkerAction::StopCoverage,
            WorkerAction::ReadExitCode,
        ]
    );
    assert_eq!(end, Some(Ok(0)));
}

#[test]
fn run_with_both_sessions_attaches_coverage_first_and_stops_it_last() {
    let mut unit = unit(Some("/cov"), true, false);
    let (actions, end) = drive(
        &mut unit,
        vec![
            WorkerEvent::Start,
            ok(),
            ok(),
            WorkerEvent::Preloaded(Ok(1)),
            ok(),
            ok(),
            WorkerEvent::Raced(Driver::EventLoop, Ok(())),
            WorkerEvent::BeforeUnload(Ok(true)),
            WorkerEvent::Raced(Driver::Hmr, Ok(())),
            WorkerEvent::BeforeUnload(Ok(false)),
            ok(),
            ok(),
            ok(),
            WorkerEvent::ExitCode(9),
        ],
    );
    assert_eq!(
        actions,
        vec![
            WorkerAction::StartCoverage { coverage_dir: "/cov".to_string() },
            WorkerAction::StartHmr,
            WorkerAction::PreloadMainModule { main_module: main_module() },
            WorkerAction::EvaluateModule { id: 1 },
            WorkerAction::DispatchLoad,
            WorkerAction::RaceHmr,
            WorkerAction::DispatchBeforeUnload,
            WorkerAction::RaceHmr,
            WorkerAction::DispatchBeforeUnload,
            WorkerAction::DispatchUnload,
            WorkerAction::StopHmr,
            WorkerAction::StopCoverage,
            WorkerAction::ReadExitCode,
        ]
    );
    assert_eq!(end, Some(Ok(9)));
}

#[test]
fn event_loop_failure_under_hmr_switches_to_automatic_restart_first() {
    let mut unit = unit(None, true, false);
    let (actions, end) = drive(
        &mut unit,
        vec![
            WorkerEvent::Start,
            ok(),
            WorkerEvent::Preloaded(Ok(1)),
            ok(),
            ok(),
            WorkerEvent::Raced(Driver::EventLoop, Err("loop broke".to_string())),
        ],
    );
    assert_eq!(
        actions.last(),
        Some(&WorkerAction::ChangeRestartMode(WatcherRestartMode::Automatic))
    );
    assert_eq!(end, None);
    assert_eq!(unit.activity(), Activity::Running(RunStage::ChangingRestartMode));
    let (actions, end) = drive(&mut unit, vec![ok()]);
    assert!(actions.is_empty());
    assert_eq!(end, Some(Err(WorkerError::Hmr("loop broke".to_string()))));
    assert_eq!(unit.activity(), Activity::Terminated);
}

#[test]
fn hmr_driver_failure_switches_to_automatic_restart_first() {
    let mut unit = unit(None, true, false);
    let (actions, end) = drive(
        &mut unit,
        vec![
            WorkerEvent::Start,
            ok(),
            WorkerEvent::Preloaded(Ok(1)),
            ok(),
            ok(),
            WorkerEvent::Raced(Driver::Hmr, Err("reload broke".to_string())),
            ok(),
            ok(),
            WorkerEvent::BeforeUnload(Ok(false)),
        ],
    );
    assert_eq!(
        actions.last(),
        Some(&WorkerAction::ChangeRestartMode(WatcherRestartMode::Automatic))
    );
    assert!(!actions.contains(&WorkerAction::DispatchBeforeUnload));
    assert!(!actions.contains(&WorkerAction::DispatchUnload));
    assert_eq!(end, Some(Err(WorkerError::Hmr("reload broke".to_string()))));
}

#[test]
fn event_loop_failure_without_hmr_ends_the_run_at_once() {
    let mut unit = unit(None, false, false);
    let (actions, end) = drive(
        &mut unit,
        vec![
            WorkerEvent::Start,
            WorkerEvent::Preloaded(Ok(1)),
            ok(),
            ok(),
            failed("loop broke"),
        ],
    );
    assert!(!actions.iter().any(|a| matches!(a, WorkerAction::ChangeRestartMode(_))));
    assert!(!actions.contains(&WorkerAction::DispatchUnload));
    assert_eq!(end, Some(Err(WorkerError::EventLoop("loop broke".to_string()))));
}

#[test]
fn each_failure_is_classified_by_where_it_came_from() {
    let mut u = unit(Some("/cov"), false, false);
    let (_, end) = drive(&mut u, vec![WorkerEvent::Start, failed("no session")]);
    assert_eq!(end, Some(Err(WorkerError::Session("no session".to_string()))));

    let mut u = unit(None, true, false);
    let (_, end) = drive(&mut u, vec![WorkerEvent::Start, failed("no hmr")]);
    assert_eq!(end, Some(Err(WorkerError::Session("no hmr".to_string()))));

    let mut u = unit(None, false, false);
    let (_, end) =
        drive(&mut u, vec![WorkerEvent::Start, WorkerEvent::Preloaded(Err("404".to_string()))]);
    assert_eq!(end, Some(Err(WorkerError::Evaluation("404".to_string()))));

    let mut u = unit(None, false, false);
    let (_, end) =
        drive(&mut u, vec![WorkerEvent::Start, WorkerEvent::Preloaded(Ok(1)), failed("threw")]);
    assert_eq!(end, Some(Err(WorkerError::Evaluation("threw".to_string()))));

    let mut u = unit(None, false, false);
    let (_, end) = drive(
        &mut u,
        vec![WorkerEvent::Start, WorkerEvent::Preloaded(Ok(1)), ok(), failed("onload threw")],
    );
    assert_eq!(end, Some(Err(WorkerError::LifecycleEvent("onload threw".to_string()))));

    let mut u = unit(None, false, false);
    let (_, end) = drive(
        &mut u,
        vec![
            WorkerEvent::Start,
            WorkerEvent::Preloaded(Ok(1)),
            ok(),
            ok(),
            ok(),
            WorkerEvent::BeforeUnload(Err("handler threw".to_string())),
        ],
    );
    assert_eq!(end, Some(Err(WorkerError::LifecycleEvent("handler threw".to_string()))));

    let mut u = unit(Some("/cov"), true, false);
    let (_, end) = drive(
        &mut u,
        vec![
            WorkerEvent::Start,
            ok(),
            ok(),
            WorkerEvent::Preloaded(Ok(1)),
            ok(),
            ok(),
            WorkerEvent::Raced(Driver::Hmr, Ok(())),
            WorkerEvent::BeforeUnload(Ok(false)),
            ok(),
            ok(),
            failed("coverage stop"),
        ],
    );
    assert_eq!(end, Some(Err(WorkerError::Session("coverage stop".to_string()))));
}

#[test]
fn events_that_answer_nothing_change_nothing() {
    let mut u = unit(None, false, false);
    assert_eq!(u.run(ok()), Step::Ignored);
    assert_eq!(u.activity(), Activity::Idle);
    assert!(matches!(u.run(WorkerEvent::Start), Step::Perform(_)));
    let before = u.activity();
    assert_eq!(u.run(WorkerEvent::Start), Step::Ignored);
    assert_eq!(u.run(ok()), Step::Ignored);
    assert_eq!(u.run(WorkerEvent::ExitCode(1)), Step::Ignored);
    assert_eq!(u.activity(), before);
}

#[test]
fn terminated_unit_asks_for_nothing() {
    let mut u = unit(None, false, true);
    let (_, end) = drive(&mut u, vec![WorkerEvent::Start, failed("x")]);
    assert!(end.is_some());
    assert_eq!(u.run(WorkerEvent::Start), Step::Ignored);
    assert_eq!(u.setup_repl(WorkerEvent::Start), Step::Ignored);
    assert_eq!(u.execute_main_module_possibly_with_npm(WorkerEvent::Start), Step::Ignored);
    assert_eq!(u.activity(), Activity::Terminated);
}

#[test]
fn repl_setup_pumps_once_without_executing() {
    let mut u = unit(None, false, false);
    assert_eq!(
        u.setup_repl(WorkerEvent::Start),
        Step::Perform(WorkerAction::RunEventLoop { exhaustive: false })
    );
    assert_eq!(u.activity(), Activity::SettingUpRepl);
    assert_eq!(u.setup_repl(ok()), Step::Finished(Ok(())));
    assert_eq!(u.activity(), Activity::Idle);
    assert!(matches!(u.setup_repl(WorkerEvent::Start), Step::Perform(_)));
    assert_eq!(
        u.setup_repl(failed("loop")),
        Step::Finished(Err(WorkerError::EventLoop("loop".to_string())))
    );
}

#[test]
fn execute_mod_preloads_then_evaluates() {
    let mut u = unit(None, false, false);
    assert_eq!(
        u.execute_main_module_possibly_with_npm(WorkerEvent::Start),
        Step::Perform(WorkerAction::PreloadMainModule { main_module: main_module() })
    );
    assert_eq!(
        u.execute_main_module_possibly_with_npm(WorkerEvent::Preloaded(Ok(4))),
        Step::Perform(WorkerAction::EvaluateModule { id: 4 })
    );
    assert_eq!(u.execute_main_module_possibly_with_npm(ok()), Step::Finished(Ok(())));
    assert_eq!(u.activity(), Activity::Idle);
}

#[test]
fn execute_mod_that_cannot_be_resolved_is_an_error() {
    let mut u = unit(None, false, false);
    u.execute_main_module_possibly_with_npm(WorkerEvent::Start);
    let step = u.execute_main_module_possibly_with_npm(WorkerEvent::Preloaded(Err(
        "Module not found \"file:///does-not-exist\"".to_string(),
    )));
    assert!(matches!(step, Step::Finished(Err(WorkerError::Evaluation(_)))));
    assert_eq!(u.activity(), Activity::Idle);
}

#[test]
fn side_module_is_preloaded_as_a_side_module() {
    let mut u = unit(None, false, false);
    assert_eq!(
        u.execute_side_module_possibly_with_npm(WorkerEvent::Start),
        Step::Perform(WorkerAction::PreloadSideModule { main_module: main_module() })
    );
    assert_eq!(u.execute_main_module_possibly_with_npm(WorkerEvent::Preloaded(Ok(1))), Step::Ignored);
    assert_eq!(
        u.execute_side_module_possibly_with_npm(WorkerEvent::Preloaded(Ok(1))),
        Step::Perform(WorkerAction::EvaluateModule { id: 1 })
    );
    assert_eq!(
        u.execute_side_module_possibly_with_npm(failed("threw")),
        Step::Finished(Err(WorkerError::Evaluation("threw".to_string())))
    );
}

#[test]
fn coverage_collector_is_set_up_only_with_a_directory() {
    let mut u = unit(None, false, false);
    assert_eq!(u.maybe_setup_coverage_collector(WorkerEvent::Start), Step::Finished(Ok(false)));
    assert_eq!(u.activity(), Activity::Idle);
    let mut u = unit(Some("/cov"), false, false);
    assert_eq!(
        u.maybe_setup_coverage_collector(WorkerEvent::Start),
        Step::Perform(WorkerAction::StartCoverage { coverage_dir: "/cov".to_string() })
    );
    assert_eq!(u.maybe_setup_coverage_collector(ok()), Step::Finished(Ok(true)));
    assert_eq!(u.activity(), Activity::Idle);
    u.maybe_setup_coverage_collector(WorkerEvent::Start);
    assert_eq!(
        u.maybe_setup_coverage_collector(failed("no inspector")),
        Step::Finished(Err(WorkerError::Session("no inspector".to_string())))
    );
}

#[test]
fn hmr_runner_is_set_up_only_where_configured() {
    let mut u = unit(None, false, false);
    assert_eq!(u.maybe_setup_hmr_runner(WorkerEvent::Start), Step::Finished(Ok(false)));
    let mut u = unit(None, true, false);
    assert_eq!(u.maybe_setup_hmr_runner(WorkerEvent::Start), Step::Perform(WorkerAction::StartHmr));
    assert_eq!(u.maybe_setup_hmr_runner(ok()), Step::Finished(Ok(true)));
    u.maybe_setup_hmr_runner(WorkerEvent::Start);
    assert_eq!(
        u.maybe_setup_hmr_runner(failed("no emitter")),
        Step::Finished(Err(WorkerError::Session("no emitter".to_string())))
    );
}

#[test]
fn execution_of_a_module_step_by_step() {
    assert_eq!(
        execute_step(ExecuteStage::Preloading, WorkerEvent::Preloaded(Ok(2))),
        ExecuteOutcome::Continue(ExecuteStage::Evaluating, WorkerAction::EvaluateModule { id: 2 })
    );
    assert_eq!(execute_step(ExecuteStage::Preloading, ok()), ExecuteOutcome::Ignored);
    assert_eq!(execute_step(ExecuteStage::Evaluating, ok()), ExecuteOutcome::Done(Ok(())));
    assert_eq!(
        execute_step(ExecuteStage::Evaluating, WorkerEvent::Preloaded(Ok(2))),
        ExecuteOutcome::Ignored
    );
}

#[test]
fn hot_reload_without_a_file_watcher_or_an_emitter_ends_the_run() {
    for (watcher, emitter) in [(false, true), (true, false), (false, false)] {
        let mut u = unit_in(None, true, false, watcher, emitter);
        let (actions, end) = drive(&mut u, vec![WorkerEvent::Start, ok()]);
        assert!(actions.is_empty());
        assert_eq!(end, Some(Err(WorkerError::HmrUnavailable)));
        assert_eq!(u.activity(), Activity::Terminated);

        let mut u = unit_in(Some("/cov"), true, false, watcher, emitter);
        let (actions, end) = drive(&mut u, vec![WorkerEvent::Start, ok()]);
        assert_eq!(actions, vec![WorkerAction::StartCoverage { coverage_dir: "/cov".to_string() }]);
        assert_eq!(end, Some(Err(WorkerError::HmrUnavailable)));

        let mut u = unit_in(None, true, false, watcher, emitter);
        assert_eq!(
            u.maybe_setup_hmr_runner(WorkerEvent::Start),
            Step::Finished(Err(WorkerError::HmrUnavailable))
        );
        assert_eq!(u.activity(), Activity::Idle);
    }
    let mut u = unit_in(None, false, false, false, false);
    assert_eq!(u.maybe_setup_hmr_runner(WorkerEvent::Start), Step::Finished(Ok(false)));
    let (actions, _) = drive(&mut u, vec![WorkerEvent::Start]);
    assert_eq!(actions, vec![WorkerAction::PreloadMainModule { main_module: main_module() }]);
}

#[test]
fn commonjs_module_without_a_file_path_ends_the_run() {
    let shared = Arc::new(SharedWorkerState {
        options: run_options(None, false),
        needs_test: false,
        npm_resolver_is_managed: true,
        has_lockfile: false,
        has_file_watcher_communicator: true,
        has_emitter: true,
        node_ipc: None,
        disable_deprecated_api_warning: false,
        verbose_deprecated_api_warning: false,
    });
    let mut u = CliMainWorker::new("https://example.com/m.cjs".to_string(), true, None, shared);
    let (actions, end) = drive(&mut u, vec![WorkerEvent::Start, ok()]);
    assert!(actions.is_empty());
    let error = WorkerError::NoFilePath { specifier: "https://example.com/m.cjs".to_string() };
    assert_eq!(error.message(), "No file path names the module 'https://example.com/m.cjs'");
    assert_eq!(end, Some(Err(error)));
    assert_eq!(u.activity(), Activity::Terminated);
}

#[test]
fn standard_module_needs_no_file_path() {
    let shared = Arc::new(SharedWorkerState {
        options: run_options(None, false),
        needs_test: false,
        npm_resolver_is_managed: true,
        has_lockfile: false,
        has_file_watcher_communicator: true,
        has_emitter: true,
        node_ipc: None,
        disable_deprecated_api_warning: false,
        verbose_deprecated_api_warning: false,
    });
    let mut u = CliMainWorker::new("https://example.com/m.js".to_string(), false, None, shared);
    assert_eq!(
        u.run(WorkerEvent::Start),
        Step::Perform(WorkerAction::PreloadMainModule {
            main_module: "https://example.com/m.js".to_string(),
        })
    );
}
