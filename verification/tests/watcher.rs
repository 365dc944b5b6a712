use std::sync::Arc;

use cli_worker::error::WorkerError;
use cli_worker::options::{CliMainWorkerOptions, SharedWorkerState, WorkerLogLevel};
use cli_worker::protocol::Step;
use cli_worker::watcher::{FileWatcherModuleExecutor, WatchStage};
use cli_worker::worker::{CliMainWorker, ExecuteStage, WorkerAction, WorkerEvent};

fn executor() -> FileWatcherModuleExecutor {
    let options = CliMainWorkerOptions {
        argv: vec![],
        log_level: WorkerLogLevel::Info,
        coverage_dir: Some("/cov".to_string()),
        enable_op_summary_metrics: false,
        enable_testing_features: false,
        has_node_modules_dir: false,
        hmr: true,
        inspect_brk: false,
        inspect_wait: false,
        strace_ops: None,
        is_inspecting: false,
        is_npm_main: false,
        location: None,
        maybe_binary_npm_command_name: None,
        origin_data_folder_path: None,
        seed: None,
        unsafely_ignore_certificate_errors: None,
        unstable: false,
        skip_op_registration: false,
        maybe_root_package_json_deps: None,
    };
    let shared = Arc::new(SharedWorkerState {
        options,
        needs_test: false,
        npm_resolver_is_managed: true,
        has_lockfile: false,
        has_file_watcher_communicator: true,
        has_emitter: true,
        node_ipc: None,
        disable_deprecated_api_warning: false,
        verbose_deprecated_api_warning: false,
    });
    CliMainWorker::new("file:///watched.js".to_string(), false, None, shared).run_for_watcher()
}

fn done() -> WorkerEvent {
    WorkerEvent::Completed(Ok(()))
}

fn broke(text: &str) -> WorkerEvent {
    WorkerEvent::Completed(Err(text.to_string()))
}

/// Advances a fresh executor until `load` has been dispatched.
fn loaded() -> FileWatcherModuleExecutor {
    let mut executor = executor();
    executor.execute(WorkerEvent::Start);
    executor.execute(WorkerEvent::Preloaded(Ok(1)));
    assert_eq!(executor.execute(done()), Step::Perform(WorkerAction::DispatchLoad));
    assert!(!executor.pending_unload());
    assert_eq!(
        executor.execute(done()),
        Step::Perform(WorkerAction::RunEventLoop { exhaustive: false })
    );
    assert!(executor.pending_unload());
    executor
}

#[test]
fn watched_execution_runs_from_load_to_unload() {
    let mut executor = executor();
    assert_eq!(executor.stage(), WatchStage::Created);
    assert_eq!(
        executor.execute(WorkerEvent::Start),
        Step::Perform(WorkerAction::PreloadMainModule { main_module: "file:///watched.js".to_string() })
    );
    assert_eq!(executor.stage(), WatchStage::Executing(ExecuteStage::Preloading));
    assert_eq!(
        executor.execute(WorkerEvent::Preloaded(Ok(5))),
        Step::Perform(WorkerAction::EvaluateModule { id: 5 })
    );
    assert_eq!(executor.execute(done()), Step::Perform(WorkerAction::DispatchLoad));
    assert_eq!(
        executor.execute(done()),
        Step::Perform(WorkerAction::RunEventLoop { exhaustive: false })
    );
    assert_eq!(executor.execute(done()), Step::Perform(WorkerAction::DispatchBeforeUnload));
    assert_eq!(
        executor.execute(WorkerEvent::BeforeUnload(Ok(true))),
        Step::Perform(WorkerAction::RunEventLoop { exhaustive: false })
    );
    assert_eq!(executor.execute(done()), Step::Perform(WorkerAction::DispatchBeforeUnload));
    assert_eq!(
        executor.execute(WorkerEvent::BeforeUnload(Ok(false))),
        Step::Perform(WorkerAction::DispatchUnload)
    );
    assert!(executor.pending_unload());
    assert_eq!(executor.execute(done()), Step::Finished(Ok(())));
    assert!(!executor.pending_unload());
    assert_eq!(executor.stage(), WatchStage::Finished);
}

#[test]
fn teardown_after_a_completed_unload_dispatches_nothing() {
    let mut executor = loaded();
    executor.execute(done());
    executor.execute(WorkerEvent::BeforeUnload(Ok(false)));
    assert_eq!(executor.execute(done()), Step::Finished(Ok(())));
    assert_eq!(executor.teardown(), None);
    assert_eq!(executor.teardown(), None);
}

#[test]
fn teardown_of_an_abandoned_execution_dispatches_unload_once() {
    let mut executor = loaded();
    assert_eq!(executor.teardown(), Some(WorkerAction::DispatchUnload));
    assert!(!executor.pending_unload());
    assert_eq!(executor.teardown(), None);
    assert_eq!(executor.execute(done()), Step::Ignored);
    assert_eq!(executor.stage(), WatchStage::Finished);
}

#[test]
fn teardown_while_the_handlers_are_asked_dispatches_unload() {
    let mut executor = loaded();
    executor.execute(done());
    assert_eq!(executor.stage(), WatchStage::DispatchingBeforeUnload);
    assert_eq!(executor.teardown(), Some(WorkerAction::DispatchUnload));
}

#[test]
fn teardown_before_load_dispatches_nothing() {
    let mut fresh = executor();
    assert_eq!(fresh.teardown(), None);
    let mut preloading = executor();
    preloading.execute(WorkerEvent::Start);
    assert_eq!(preloading.teardown(), None);
    let mut loading = executor();
    loading.execute(WorkerEvent::Start);
    loading.execute(WorkerEvent::Preloaded(Ok(1)));
    loading.execute(done());
    assert_eq!(loading.stage(), WatchStage::DispatchingLoad);
    assert_eq!(loading.teardown(), None);
}

#[test]
fn failed_event_loop_still_owes_unload() {
    let mut executor = loaded();
    assert_eq!(
        executor.execute(broke("loop broke")),
        Step::Finished(Err(WorkerError::EventLoop("loop broke".to_string())))
    );
    assert!(executor.pending_unload());
    assert_eq!(executor.teardown(), Some(WorkerAction::DispatchUnload));
    assert_eq!(executor.teardown(), None);
}

#[test]
fn failed_before_unload_still_owes_unload() {
    let mut executor = loaded();
    executor.execute(done());
    assert_eq!(
        executor.execute(WorkerEvent::BeforeUnload(Err("threw".to_string()))),
        Step::Finished(Err(WorkerError::LifecycleEvent("threw".to_string())))
    );
    assert_eq!(executor.teardown(), Some(WorkerAction::DispatchUnload));
}

#[test]
fn failed_load_owes_nothing() {
    let mut executor = executor();
    executor.execute(WorkerEvent::Start);
    executor.execute(WorkerEvent::Preloaded(Ok(1)));
    executor.execute(done());
    assert_eq!(
        executor.execute(broke("onload threw")),
        Step::Finished(Err(WorkerError::LifecycleEvent("onload threw".to_string())))
    );
    assert!(!executor.pending_unload());
    assert_eq!(executor.teardown(), None);
}

#[test]
fn failed_evaluation_owes_nothing() {
    let mut executor = executor();
    executor.execute(WorkerEvent::Start);
    assert_eq!(
        executor.execute(WorkerEvent::Preloaded(Err("404".to_string()))),
        Step::Finished(Err(WorkerError::Evaluation("404".to_string())))
    );
    assert_eq!(executor.teardown(), None);
}

#[test]
fn watched_execution_attaches_no_sessions() {
    let mut executor = executor();
    let first = executor.execute(WorkerEvent::Start);
    assert!(matches!(first, Step::Perform(WorkerAction::PreloadMainModule { .. })));
}

#[test]
fn failed_unload_is_not_dispatched_again() {
    let mut executor = loaded();
    executor.execute(done());
    assert_eq!(
        executor.execute(WorkerEvent::BeforeUnload(Ok(false))),
        Step::Perform(WorkerAction::DispatchUnload)
    );
    assert!(executor.pending_unload());
    assert_eq!(
        executor.execute(broke("onunload threw")),
        Step::Finished(Err(WorkerError::LifecycleEvent("onunload threw".to_string())))
    );
    assert!(!executor.pending_unload());
    assert_eq!(executor.teardown(), None);
}

#[test]
fn teardown_while_unload_is_under_way_dispatches_unload() {
    let mut executor = loaded();
    executor.execute(done());
    executor.execute(WorkerEvent::BeforeUnload(Ok(false)));
    assert_eq!(executor.stage(), WatchStage::DispatchingUnload);
    assert_eq!(executor.teardown(), Some(WorkerAction::DispatchUnload));
    assert_eq!(executor.teardown(), None);
}
