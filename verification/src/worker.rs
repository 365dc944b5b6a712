//! One execution unit: the module it starts from and the order in which its
//! engine is driven, from the first preload to the exit code.

use vstd::prelude::*;
use std::sync::Arc;
use crate::error::{WorkerError, WorkerErrorView};
use crate::options::{SharedWorkerState, SharedWorkerStateView};
use crate::protocol::{outcome_view, Step, StepView};
use crate::text::clone_text;

verus! {

/// The two drivers that race while hot reload is attached.
#[derive(Clone, Copy, Debug, PartialEq, Eq, Structural)]
pub enum Driver {
    Hmr,
    EventLoop,
}

/// How the file watcher restarts the process after a change.
#[derive(Clone, Copy, Debug, PartialEq, Eq, Structural)]
pub enum WatcherRestartMode {
    Automatic,
    Manual,
}

/// What a driver reports back to a unit.
#[derive(Debug, PartialEq, Eq)]
pub enum WorkerEvent {
    /// The operation is to begin.
    Start,
    /// The action that was asked for is done, or has failed.
    Completed(Result<(), String>),
    /// The module was preloaded under this identifier, or preloading failed.
    Preloaded(Result<usize, String>),
    /// One of the two racing drivers came in first, with this outcome.
    Raced(Driver, Result<(), String>),
    /// The `beforeunload` handlers ran; `true` where one of them prevented the
    /// default and so asks the unit to keep running.
    BeforeUnload(Result<bool, String>),
    /// The unit's exit code.
    ExitCode(i32),
}

pub enum WorkerEventView {
    Start,
    Completed(Result<(), Seq<char>>),
    Preloaded(Result<usize, Seq<char>>),
    Raced(Driver, Result<(), Seq<char>>),
    BeforeUnload(Result<bool, Seq<char>>),
    ExitCode(i32),
}

impl View for WorkerEvent {
    type V = WorkerEventView;

    open spec fn view(&self) -> WorkerEventView {
        match self {
            WorkerEvent::Start => WorkerEventView::Start,
            WorkerEvent::Completed(outcome) => WorkerEventView::Completed(outcome_view(*outcome)),
            WorkerEvent::Preloaded(outcome) => WorkerEventView::Preloaded(outcome_view(*outcome)),
            WorkerEvent::Raced(driver, outcome) => WorkerEventView::Raced(
                *driver,
                outcome_view(*outcome),
            ),
            WorkerEvent::BeforeUnload(outcome) => WorkerEventView::BeforeUnload(
                outcome_view(*outcome),
            ),
            WorkerEvent::ExitCode(code) => WorkerEventView::ExitCode(*code),
        }
    }
}

/// What a unit asks its driver to do with the engine.
#[derive(Debug, PartialEq, Eq)]
pub enum WorkerAction {
    /// Open an inspector session, attach a coverage collector that writes to
    /// the directory, and start it while the event loop runs.
    StartCoverage { coverage_dir: String },
    /// Open an inspector session, attach the hot-reload runner, and start it
    /// while the event loop runs.
    StartHmr,
    /// Load the main module, the file at the path, through the CommonJS
    /// loader.
    LoadCjsModule { path: String, break_on_first_statement: bool },
    /// Preload the module as the main module.
    PreloadMainModule { main_module: String },
    /// Preload the module as a side module.
    PreloadSideModule { main_module: String },
    /// Evaluate the preloaded module.
    EvaluateModule { id: usize },
    /// Dispatch the `load` event.
    DispatchLoad,
    /// Pump the event loop; where `exhaustive`, until no work is left at all,
    /// work that would not keep the unit alive included.
    RunEventLoop { exhaustive: bool },
    /// Race the hot-reload driver against one pump of the event loop that
    /// does not wait, and report whichever ends first.
    RaceHmr,
    /// Tell the file-watch communicator how to restart.
    ChangeRestartMode(WatcherRestartMode),
    /// Dispatch the `beforeunload` event.
    DispatchBeforeUnload,
    /// Dispatch the `unload` event.
    DispatchUnload,
    /// Stop the coverage collector while the event loop runs.
    StopCoverage,
    /// Stop the hot-reload runner while the event loop runs.
    StopHmr,
    /// Read the unit's exit code.
    ReadExitCode,
}

pub enum WorkerActionView {
    StartCoverage { coverage_dir: Seq<char> },
    StartHmr,
    LoadCjsModule { path: Seq<char>, break_on_first_statement: bool },
    PreloadMainModule { main_module: Seq<char> },
    PreloadSideModule { main_module: Seq<char> },
    EvaluateModule { id: usize },
    DispatchLoad,
    RunEventLoop { exhaustive: bool },
    RaceHmr,
    ChangeRestartMode(WatcherRestartMode),
    DispatchBeforeUnload,
    DispatchUnload,
    StopCoverage,
    StopHmr,
    ReadExitCode,
}

impl View for WorkerAction {
    type V = WorkerActionView;

    open spec fn view(&self) -> WorkerActionView {
        match self {
            WorkerAction::StartCoverage { coverage_dir } => WorkerActionView::StartCoverage {
                coverage_dir: coverage_dir@,
            },
            WorkerAction::StartHmr => WorkerActionView::StartHmr,
            WorkerAction::LoadCjsModule {
                path,
                break_on_first_statement,
            } => WorkerActionView::LoadCjsModule {
                path: path@,
                break_on_first_statement: *break_on_first_statement,
            },
            WorkerAction::PreloadMainModule { main_module } => WorkerActionView::PreloadMainModule {
                main_module: main_module@,
            },
            WorkerAction::PreloadSideModule { main_module } => WorkerActionView::PreloadSideModule {
                main_module: main_module@,
            },
            WorkerAction::EvaluateModule { id } => WorkerActionView::EvaluateModule { id: *id },
            WorkerAction::DispatchLoad => WorkerActionView::DispatchLoad,
            WorkerAction::RunEventLoop { exhaustive } => WorkerActionView::RunEventLoop {
                exhaustive: *exhaustive,
            },
            WorkerAction::RaceHmr => WorkerActionView::RaceHmr,
            WorkerAction::ChangeRestartMode(mode) => WorkerActionView::ChangeRestartMode(*mode),
            WorkerAction::DispatchBeforeUnload => WorkerActionView::DispatchBeforeUnload,
            WorkerAction::DispatchUnload => WorkerActionView::DispatchUnload,
            WorkerAction::StopCoverage => WorkerActionView::StopCoverage,
            WorkerAction::StopHmr => WorkerActionView::StopHmr,
            WorkerAction::ReadExitCode => WorkerActionView::ReadExitCode,
        }
    }
}

impl DeepView for WorkerAction {
    type V = WorkerActionView;

    open spec fn deep_view(&self) -> WorkerActionView {
        self@
    }
}

/// How far the execution of a module has come.
#[derive(Clone, Copy, Debug, PartialEq, Eq, Structural)]
pub enum ExecuteStage {
    Preloading,
    Evaluating,
}

/// How far a run has come: the outcome that it waits for.
#[derive(Clone, Copy, Debug, PartialEq, Eq, Structural)]
pub enum RunStage {
    StartingCoverage,
    StartingHmr,
    LoadingCjs,
    Executing(ExecuteStage),
    DispatchingLoad,
    Pumping,
    Racing,
    ChangingRestartMode,
    DispatchingBeforeUnload,
    DispatchingUnload,
    StoppingHmr,
    StoppingCoverage,
    ReadingExitCode,
}

/// What a unit is in the middle of.
#[derive(Clone, Copy, Debug, PartialEq, Eq, Structural)]
pub enum Activity {
    /// Nothing: the unit is ready for an operation.
    Idle,
    /// A run.
    Running(RunStage),
    /// The pump that readies the unit for an interactive session.
    SettingUpRepl,
    /// The execution of its module as the main module.
    ExecutingMainModule(ExecuteStage),
    /// The execution of its module as a side module.
    ExecutingSideModule(ExecuteStage),
    /// The attachment of a coverage collector.
    SettingUpCoverage,
    /// The attachment of the hot-reload runner.
    SettingUpHmr,
    /// Nothing any more: the unit has run.
    Terminated,
}

/// One execution unit, as far as its driver's decisions go: the module it
/// starts from, how that module is bootstrapped, and what it is in the middle
/// of. The engine itself is the driver's.
#[derive(Debug, PartialEq, Eq)]
pub struct CliMainWorker {
    main_module: String,
    is_main_cjs: bool,
    /// The path of the file that the main module's URL names, where it
    /// names one.
    file_path: Option<String>,
    shared: Arc<SharedWorkerState>,
    activity: Activity,
    /// The failure that ended a race, kept until the restart mode is changed.
    failure: Option<String>,
}

pub struct CliMainWorkerView {
    pub main_module: Seq<char>,
    pub is_main_cjs: bool,
    pub file_path: Option<Seq<char>>,
    pub shared: SharedWorkerStateView,
    pub activity: Activity,
    pub failure: Option<Seq<char>>,
}

impl View for CliMainWorker {
    type V = CliMainWorkerView;

    closed spec fn view(&self) -> CliMainWorkerView {
        CliMainWorkerView {
            main_module: self.main_module@,
            is_main_cjs: self.is_main_cjs,
            file_path: self.file_path.deep_view(),
            shared: self.shared@,
            activity: self.activity,
            failure: self.failure.deep_view(),
        }
    }
}


/// What the execution of a module comes to after an event.
#[derive(Debug, PartialEq, Eq)]
pub enum ExecuteOutcome {
    /// The execution goes on in this stage, after this action.
    Continue(ExecuteStage, WorkerAction),
    /// The execution has ended.
    Done(Result<(), WorkerError>),
    /// The event answers nothing that was asked.
    Ignored,
}

pub enum ExecuteOutcomeView {
    Continue(ExecuteStage, WorkerActionView),
    Done(Result<(), WorkerErrorView>),
    Ignored,
}

impl View for ExecuteOutcome {
    type V = ExecuteOutcomeView;

    open spec fn view(&self) -> ExecuteOutcomeView {
        match self {
            ExecuteOutcome::Continue(stage, action) => ExecuteOutcomeView::Continue(
                *stage,
                action@,
            ),
            ExecuteOutcome::Done(Ok(())) => ExecuteOutcomeView::Done(Ok(())),
            ExecuteOutcome::Done(Err(error)) => ExecuteOutcomeView::Done(Err(error@)),
            ExecuteOutcome::Ignored => ExecuteOutcomeView::Ignored,
        }
    }
}

/// The execution of a module: once preloaded it is evaluated under the
/// identifier that preloading gave it, and a failure of either ends it.
pub open spec fn execute_model(stage: ExecuteStage, event: WorkerEventView) -> ExecuteOutcomeView {
    match (stage, event) {
        (ExecuteStage::Preloading, WorkerEventView::Preloaded(Ok(id))) => ExecuteOutcomeView::Continue(
            ExecuteStage::Evaluating,
            WorkerActionView::EvaluateModule { id },
        ),
        (ExecuteStage::Preloading, WorkerEventView::Preloaded(Err(text))) => ExecuteOutcomeView::Done(
            Err(WorkerErrorView::Evaluation(text)),
        ),
        (ExecuteStage::Evaluating, WorkerEventView::Completed(Ok(()))) => ExecuteOutcomeView::Done(
            Ok(()),
        ),
        (ExecuteStage::Evaluating, WorkerEventView::Completed(Err(text))) => ExecuteOutcomeView::Done(
            Err(WorkerErrorView::Evaluation(text)),
        ),
        _ => ExecuteOutcomeView::Ignored,
    }
}

/// Advances the execution of a module by one event.
pub fn execute_step(stage: ExecuteStage, event: WorkerEvent) -> (res: ExecuteOutcome)
    ensures
        res@ == execute_model(stage, event@),
{
    match stage {
        ExecuteStage::Preloading => match event {
            WorkerEvent::Preloaded(Ok(id)) => ExecuteOutcome::Continue(
                ExecuteStage::Evaluating,
                WorkerAction::EvaluateModule { id },
            ),
            WorkerEvent::Preloaded(Err(text)) => ExecuteOutcome::Done(
                Err(WorkerError::Evaluation(text)),
            ),
            _ => ExecuteOutcome::Ignored,
        },
        ExecuteStage::Evaluating => match event {
            WorkerEvent::Completed(Ok(())) => ExecuteOutcome::Done(Ok(())),
            WorkerEvent::Completed(Err(text)) => ExecuteOutcome::Done(
                Err(WorkerError::Evaluation(text)),
            ),
            _ => ExecuteOutcome::Ignored,
        },
    }
}

impl CliMainWorkerView {
    /// The unit in the middle of `activity`.
    pub open spec fn doing(self, activity: Activity) -> CliMainWorkerView {
        CliMainWorkerView { activity, ..self }
    }

    /// The unit in the given stage of its run.
    pub open spec fn running(self, stage: RunStage) -> CliMainWorkerView {
        self.doing(Activity::Running(stage))
    }

    /// Whether a run of the unit has a coverage collector attached.
    pub open spec fn collects_coverage(self) -> bool {
        self.shared.options.coverage_dir is Some
    }

    /// Whether a run of the unit has the hot-reload runner attached.
    pub open spec fn reloads(self) -> bool {
        self.shared.options.hmr
    }

    /// Whether the process has what the hot-reload runner needs: a file
    /// watcher to talk to and an emitter to transpile with.
    pub open spec fn can_reload(self) -> bool {
        self.shared.has_file_watcher_communicator && self.shared.has_emitter
    }

    /// A run that ends here with `error`.
    pub open spec fn fail(self, error: WorkerErrorView) -> (CliMainWorkerView, StepView<
        WorkerActionView,
        i32,
    >) {
        (self.doing(Activity::Terminated), StepView::Finished(Err(error)))
    }

    /// The start of a run: coverage is attached first, where a directory for
    /// it is configured.
    pub open spec fn begin_run(self) -> (CliMainWorkerView, StepView<WorkerActionView, i32>) {
        match self.shared.options.coverage_dir {
            Some(coverage_dir) => (
                self.running(RunStage::StartingCoverage),
                StepView::Perform(WorkerActionView::StartCoverage { coverage_dir }),
            ),
            None => self.begin_hmr(),
        }
    }

    /// After coverage: hot reload is attached, where it is configured. A
    /// process without what hot reload needs cannot run a unit with it.
    pub open spec fn begin_hmr(self) -> (CliMainWorkerView, StepView<WorkerActionView, i32>) {
        if self.reloads() {
            if self.can_reload() {
                (self.running(RunStage::StartingHmr), StepView::Perform(WorkerActionView::StartHmr))
            } else {
                self.fail(WorkerErrorView::HmrUnavailable)
            }
        } else {
            self.begin_execution()
        }
    }

    /// After the sessions: the main module is loaded, through the CommonJS
    /// loader where it is classified so, else by preloading and evaluating.
    /// The CommonJS loader loads from a file: a CommonJS module whose URL
    /// names no file path ends the run.
    pub open spec fn begin_execution(self) -> (CliMainWorkerView, StepView<WorkerActionView, i32>) {
        if self.is_main_cjs {
            match self.file_path {
                Some(path) => (
                    self.running(RunStage::LoadingCjs),
                    StepView::Perform(
                        WorkerActionView::LoadCjsModule {
                            path,
                            break_on_first_statement: self.shared.options.inspect_brk,
                        },
                    ),
                ),
                None => self.fail(WorkerErrorView::NoFilePath { specifier: self.main_module }),
            }
        } else {
            (
                self.running(RunStage::Executing(ExecuteStage::Preloading)),
                StepView::Perform(
                    WorkerActionView::PreloadMainModule { main_module: self.main_module },
                ),
            )
        }
    }

    /// After the module: the `load` event.
    pub open spec fn begin_load(self) -> (CliMainWorkerView, StepView<WorkerActionView, i32>) {
        (self.running(RunStage::DispatchingLoad), StepView::Perform(WorkerActionView::DispatchLoad))
    }

    /// One turn of the loop: with hot reload attached, its driver races one
    /// pump of the event loop; else the event loop is pumped to its end,
    /// waiting for all work unless a coverage collector is attached.
    pub open spec fn begin_pump(self) -> (CliMainWorkerView, StepView<WorkerActionView, i32>) {
        if self.reloads() {
            (self.running(RunStage::Racing), StepView::Perform(WorkerActionView::RaceHmr))
        } else {
            (
                self.running(RunStage::Pumping),
                StepView::Perform(
                    WorkerActionView::RunEventLoop { exhaustive: !self.collects_coverage() },
                ),
            )
        }
    }

    /// After a pump: the `beforeunload` event.
    pub open spec fn begin_before_unload(self) -> (CliMainWorkerView, StepView<
        WorkerActionView,
        i32,
    >) {
        (
            self.running(RunStage::DispatchingBeforeUnload),
            StepView::Perform(WorkerActionView::DispatchBeforeUnload),
        )
    }

    /// After the `unload` event: the sessions are stopped in the reverse of
    /// the order in which they were attached. The hot-reload runner is
    /// stopped first, where it is attached.
    pub open spec fn end_hmr(self) -> (CliMainWorkerView, StepView<WorkerActionView, i32>) {
        if self.reloads() {
            (self.running(RunStage::StoppingHmr), StepView::Perform(WorkerActionView::StopHmr))
        } else {
            self.end_coverage()
        }
    }

    /// After the hot-reload runner is stopped: the coverage collector is
    /// stopped, where one is attached.
    pub open spec fn end_coverage(self) -> (CliMainWorkerView, StepView<WorkerActionView, i32>) {
        if self.collects_coverage() {
            (
                self.running(RunStage::StoppingCoverage),
                StepView::Perform(WorkerActionView::StopCoverage),
            )
        } else {
            self.end_run()
        }
    }

    /// After the sessions are stopped: the exit code is read.
    pub open spec fn end_run(self) -> (CliMainWorkerView, StepView<WorkerActionView, i32>) {
        (self.running(RunStage::ReadingExitCode), StepView::Perform(WorkerActionView::ReadExitCode))
    }

    /// A run in `stage`, advanced by one event.
    pub open spec fn advance_run(self, stage: RunStage, event: WorkerEventView) -> (
        CliMainWorkerView,
        StepView<WorkerActionView, i32>,
    ) {
        match (stage, event) {
            (RunStage::StartingCoverage, WorkerEventView::Completed(Ok(()))) => self.begin_hmr(),
            (RunStage::StartingCoverage, WorkerEventView::Completed(Err(text))) => self.fail(
                WorkerErrorView::Session(text),
            ),
            (RunStage::StartingHmr, WorkerEventView::Completed(Ok(()))) => self.begin_execution(),
            (RunStage::StartingHmr, WorkerEventView::Completed(Err(text))) => self.fail(
                WorkerErrorView::Session(text),
            ),
            (RunStage::LoadingCjs, WorkerEventView::Completed(Ok(()))) => self.begin_load(),
            (RunStage::LoadingCjs, WorkerEventView::Completed(Err(text))) => self.fail(
                WorkerErrorView::Evaluation(text),
            ),
            (RunStage::Executing(execution), event) => match execute_model(execution, event) {
                ExecuteOutcomeView::Continue(next, action) => (
                    self.running(RunStage::Executing(next)),
                    StepView::Perform(action),
                ),
                ExecuteOutcomeView::Done(Ok(())) => self.begin_load(),
                ExecuteOutcomeView::Done(Err(error)) => self.fail(error),
                ExecuteOutcomeView::Ignored => (self, StepView::Ignored),
            },
            (RunStage::DispatchingLoad, WorkerEventView::Completed(Ok(()))) => self.begin_pump(),
            (RunStage::DispatchingLoad, WorkerEventView::Completed(Err(text))) => self.fail(
                WorkerErrorView::LifecycleEvent(text),
            ),
            (RunStage::Pumping, WorkerEventView::Completed(Ok(()))) => self.begin_before_unload(),
            (RunStage::Pumping, WorkerEventView::Completed(Err(text))) => self.fail(
                WorkerErrorView::EventLoop(text),
            ),
            (RunStage::Racing, WorkerEventView::Raced(_, Ok(()))) => self.begin_before_unload(),
            (RunStage::Racing, WorkerEventView::Raced(_, Err(text))) => (
                CliMainWorkerView {
                    failure: Some(text),
                    ..self.running(RunStage::ChangingRestartMode)
                },
                StepView::Perform(
                    WorkerActionView::ChangeRestartMode(WatcherRestartMode::Automatic),
                ),
            ),
            (RunStage::ChangingRestartMode, WorkerEventView::Completed(_)) => match self.failure {
                Some(text) => CliMainWorkerView { failure: None, ..self }.fail(
                    WorkerErrorView::Hmr(text),
                ),
                None => (self, StepView::Ignored),
            },
            (
                RunStage::DispatchingBeforeUnload,
                WorkerEventView::BeforeUnload(Ok(prevented)),
            ) => if prevented {
                self.begin_pump()
            } else {
                (
                    self.running(RunStage::DispatchingUnload),
                    StepView::Perform(WorkerActionView::DispatchUnload),
                )
            },
            (RunStage::DispatchingBeforeUnload, WorkerEventView::BeforeUnload(Err(text))) => self.fail(
                WorkerErrorView::LifecycleEvent(text),
            ),
            (RunStage::DispatchingUnload, WorkerEventView::Completed(Ok(()))) => self.end_hmr(),
            (RunStage::DispatchingUnload, WorkerEventView::Completed(Err(text))) => self.fail(
                WorkerErrorView::LifecycleEvent(text),
            ),
            (RunStage::StoppingCoverage, WorkerEventView::Completed(Ok(()))) => self.end_run(),
            (RunStage::StoppingCoverage, WorkerEventView::Completed(Err(text))) => self.fail(
                WorkerErrorView::Session(text),
            ),
            (RunStage::StoppingHmr, WorkerEventView::Completed(Ok(()))) => self.end_coverage(),
            (RunStage::StoppingHmr, WorkerEventView::Completed(Err(text))) => self.fail(
                WorkerErrorView::Session(text),
            ),
            (RunStage::ReadingExitCode, WorkerEventView::ExitCode(code)) => (
                self.doing(Activity::Terminated),
                StepView::Finished(Ok(code)),
            ),
            _ => (self, StepView::Ignored),
        }
    }

    /// A run of the unit, advanced by one event: the unit afterwards, and
    /// what its driver is to do. A run begins on an idle unit and ends with
    /// the unit terminated.
    pub open spec fn run(self, event: WorkerEventView) -> (CliMainWorkerView, StepView<
        WorkerActionView,
        i32,
    >) {
        match (self.activity, event) {
            (Activity::Idle, WorkerEventView::Start) => self.begin_run(),
            (Activity::Running(stage), event) => self.advance_run(stage, event),
            _ => (self, StepView::Ignored),
        }
    }
}


impl CliMainWorker {
    /// An idle unit that starts from `main_module`, loaded through the
    /// CommonJS loader where `is_main_cjs` says so. `file_path` is the path
    /// of the file that the module's URL names, where it names one.
    pub fn new(
        main_module: String,
        is_main_cjs: bool,
        file_path: Option<String>,
        shared: Arc<SharedWorkerState>,
    ) -> (res: CliMainWorker)
        ensures
            res@ == (CliMainWorkerView {
                main_module: main_module@,
                is_main_cjs,
                file_path: file_path.deep_view(),
                shared: shared@,
                activity: Activity::Idle,
                failure: None,
            }),
    {
        CliMainWorker {
            main_module,
            is_main_cjs,
            file_path,
            shared,
            activity: Activity::Idle,
            failure: None,
        }
    }

    /// The path of the file that the main module's URL names, where it
    /// names one.
    pub fn file_path(&self) -> (res: &Option<String>)
        ensures
            res.deep_view() == self@.file_path,
    {
        &self.file_path
    }

    /// The module that the unit starts from.
    pub fn main_module(&self) -> (res: &String)
        ensures
            res@ == self@.main_module,
    {
        &self.main_module
    }

    /// Whether the main module is loaded through the CommonJS loader.
    pub fn is_main_cjs(&self) -> (res: bool)
        ensures
            res == self@.is_main_cjs,
    {
        self.is_main_cjs
    }

    /// What the unit is in the middle of.
    pub fn activity(&self) -> (res: Activity)
        ensures
            res == self@.activity,
    {
        self.activity
    }

    fn fail(&mut self, error: WorkerError) -> (res: Step<WorkerAction, i32>)
        ensures
            (final(self)@, res@) == old(self)@.fail(error@),
    {
        self.activity = Activity::Terminated;
        Step::Finished(Err(error))
    }

    fn begin_run(&mut self) -> (res: Step<WorkerAction, i32>)
        ensures
            (final(self)@, res@) == old(self)@.begin_run(),
    {
        match &self.shared.options.coverage_dir {
            Some(coverage_dir) => {
                let coverage_dir = clone_text(coverage_dir);
                self.activity = Activity::Running(RunStage::StartingCoverage);
                Step::Perform(WorkerAction::StartCoverage { coverage_dir })
            },
            None => self.begin_hmr(),
        }
    }

    fn begin_hmr(&mut self) -> (res: Step<WorkerAction, i32>)
        ensures
            (final(self)@, res@) == old(self)@.begin_hmr(),
    {
        if self.shared.options.hmr {
            if self.shared.has_file_watcher_communicator && self.shared.has_emitter {
                self.activity = Activity::Running(RunStage::StartingHmr);
                Step::Perform(WorkerAction::StartHmr)
            } else {
                self.fail(WorkerError::HmrUnavailable)
            }
        } else {
            self.begin_execution()
        }
    }

    fn begin_execution(&mut self) -> (res: Step<WorkerAction, i32>)
        ensures
            (final(self)@, res@) == old(self)@.begin_execution(),
    {
        let main_module = clone_text(&self.main_module);
        if self.is_main_cjs {
            match &self.file_path {
                Some(path) => {
                    let path = clone_text(path);
                    self.activity = Activity::Running(RunStage::LoadingCjs);
                    Step::Perform(
                        WorkerAction::LoadCjsModule {
                            path,
                            break_on_first_statement: self.shared.options.inspect_brk,
                        },
                    )
                },
                None => self.fail(WorkerError::NoFilePath { specifier: main_module }),
            }
        } else {
            self.activity = Activity::Running(RunStage::Executing(ExecuteStage::Preloading));
            Step::Perform(WorkerAction::PreloadMainModule { main_module })
        }
    }

    fn begin_load(&mut self) -> (res: Step<WorkerAction, i32>)
        ensures
            (final(self)@, res@) == old(self)@.begin_load(),
    {
        self.activity = Activity::Running(RunStage::DispatchingLoad);
        Step::Perform(WorkerAction::DispatchLoad)
    }

    fn begin_pump(&mut self) -> (res: Step<WorkerAction, i32>)
        ensures
            (final(self)@, res@) == old(self)@.begin_pump(),
    {
        if self.shared.options.hmr {
            self.activity = Activity::Running(RunStage::Racing);
            Step::Perform(WorkerAction::RaceHmr)
        } else {
            let exhaustive = self.shared.options.coverage_dir.is_none();
            self.activity = Activity::Running(RunStage::Pumping);
            Step::Perform(WorkerAction::RunEventLoop { exhaustive })
        }
    }

    fn begin_before_unload(&mut self) -> (res: Step<WorkerAction, i32>)
        ensures
            (final(self)@, res@) == old(self)@.begin_before_unload(),
    {
        self.activity = Activity::Running(RunStage::DispatchingBeforeUnload);
        Step::Perform(WorkerAction::DispatchBeforeUnload)
    }

    fn end_hmr(&mut self) -> (res: Step<WorkerAction, i32>)
        ensures
            (final(self)@, res@) == old(self)@.end_hmr(),
    {
        if self.shared.options.hmr {
            self.activity = Activity::Running(RunStage::StoppingHmr);
            Step::Perform(WorkerAction::StopHmr)
        } else {
            self.end_coverage()
        }
    }

    fn end_coverage(&mut self) -> (res: Step<WorkerAction, i32>)
        ensures
            (final(self)@, res@) == old(self)@.end_coverage(),
    {
        if self.shared.options.coverage_dir.is_some() {
            self.activity = Activity::Running(RunStage::StoppingCoverage);
            Step::Perform(WorkerAction::StopCoverage)
        } else {
            self.end_run()
        }
    }

    fn end_run(&mut self) -> (res: Step<WorkerAction, i32>)
        ensures
            (final(self)@, res@) == old(self)@.end_run(),
    {
        self.activity = Activity::Running(RunStage::ReadingExitCode);
        Step::Perform(WorkerAction::ReadExitCode)
    }

    fn advance_run(&mut self, stage: RunStage, event: WorkerEvent) -> (res: Step<WorkerAction, i32>)
        ensures
            (final(self)@, res@) == old(self)@.advance_run(stage, event@),
    {
        match stage {
            RunStage::StartingCoverage => match event {
                WorkerEvent::Completed(Ok(())) => self.begin_hmr(),
                WorkerEvent::Completed(Err(text)) => self.fail(WorkerError::Session(text)),
                _ => Step::Ignored,
            },
            RunStage::StartingHmr => match event {
                WorkerEvent::Completed(Ok(())) => self.begin_execution(),
                WorkerEvent::Completed(Err(text)) => self.fail(WorkerError::Session(text)),
                _ => Step::Ignored,
            },
            RunStage::LoadingCjs => match event {
                WorkerEvent::Completed(Ok(())) => self.begin_load(),
                WorkerEvent::Completed(Err(text)) => self.fail(WorkerError::Evaluation(text)),
                _ => Step::Ignored,
            },
            RunStage::Executing(execution) => match execute_step(execution, event) {
                ExecuteOutcome::Continue(next, action) => {
                    self.activity = Activity::Running(RunStage::Executing(next));
                    Step::Perform(action)
                },
                ExecuteOutcome::Done(Ok(())) => self.begin_load(),
                ExecuteOutcome::Done(Err(error)) => self.fail(error),
                ExecuteOutcome::Ignored => Step::Ignored,
            },
            RunStage::DispatchingLoad => match event {
                WorkerEvent::Completed(Ok(())) => self.begin_pump(),
                WorkerEvent::Completed(Err(text)) => self.fail(WorkerError::LifecycleEvent(text)),
                _ => Step::Ignored,
            },
            RunStage::Pumping => match event {
                WorkerEvent::Completed(Ok(())) => self.begin_before_unload(),
                WorkerEvent::Completed(Err(text)) => self.fail(WorkerError::EventLoop(text)),
                _ => Step::Ignored,
            },
            RunStage::Racing => match event {
                WorkerEvent::Raced(_, Ok(())) => self.begin_before_unload(),
                WorkerEvent::Raced(_, Err(text)) => {
                    self.failure = Some(text);
                    self.activity = Activity::Running(RunStage::ChangingRestartMode);
                    Step::Perform(WorkerAction::ChangeRestartMode(WatcherRestartMode::Automatic))
                },
                _ => Step::Ignored,
            },
            RunStage::ChangingRestartMode => match event {
                WorkerEvent::Completed(_) => match self.failure.take() {
                    Some(text) => self.fail(WorkerError::Hmr(text)),
                    None => Step::Ignored,
                },
                _ => Step::Ignored,
            },
            RunStage::DispatchingBeforeUnload => match event {
                WorkerEvent::BeforeUnload(Ok(prevented)) => {
                    if prevented {
                        self.begin_pump()
                    } else {
                        self.activity = Activity::Running(RunStage::DispatchingUnload);
                        Step::Perform(WorkerAction::DispatchUnload)
                    }
                },
                WorkerEvent::BeforeUnload(Err(text)) => self.fail(
                    WorkerError::LifecycleEvent(text),
                ),
                _ => Step::Ignored,
            },
            RunStage::DispatchingUnload => match event {
                WorkerEvent::Completed(Ok(())) => self.end_hmr(),
                WorkerEvent::Completed(Err(text)) => self.fail(WorkerError::LifecycleEvent(text)),
                _ => Step::Ignored,
            },
            RunStage::StoppingCoverage => match event {
                WorkerEvent::Completed(Ok(())) => self.end_run(),
                WorkerEvent::Completed(Err(text)) => self.fail(WorkerError::Session(text)),
                _ => Step::Ignored,
            },
            RunStage::StoppingHmr => match event {
                WorkerEvent::Completed(Ok(())) => self.end_coverage(),
                WorkerEvent::Completed(Err(text)) => self.fail(WorkerError::Session(text)),
                _ => Step::Ignored,
            },
            RunStage::ReadingExitCode => match event {
                WorkerEvent::ExitCode(code) => {
                    self.activity = Activity::Terminated;
                    Step::Finished(Ok(code))
                },
                _ => Step::Ignored,
            },
        }
    }

    /// Advances a run of the unit by one event.
    ///
    /// A run attaches the configured sessions, loads the main module,
    /// dispatches `load`, pumps the event loop until no `beforeunload`
    /// handler asks to go on, dispatches `unload`, stops the sessions in
    /// reverse order and ends with the exit code. Any failure ends it at
    /// once; one that ends a race with the hot-reload driver first switches
    /// the file watcher to automatic restarts.
    pub fn run(&mut self, event: WorkerEvent) -> (res: Step<WorkerAction, i32>)
        ensures
            (final(self)@, res@) == old(self)@.run(event@),
    {
        match self.activity {
            Activity::Idle => match event {
                WorkerEvent::Start => self.begin_run(),
                _ => Step::Ignored,
            },
            Activity::Running(stage) => self.advance_run(stage, event),
            _ => Step::Ignored,
        }
    }
}


impl CliMainWorkerView {
    /// The pump that readies the unit for an interactive session, advanced by
    /// one event: the event loop is pumped once without waiting for all
    /// work, and no module is executed.
    pub open spec fn setup_repl(self, event: WorkerEventView) -> (CliMainWorkerView, StepView<
        WorkerActionView,
        (),
    >) {
        match (self.activity, event) {
            (Activity::Idle, WorkerEventView::Start) => (
                self.doing(Activity::SettingUpRepl),
                StepView::Perform(WorkerActionView::RunEventLoop { exhaustive: false }),
            ),
            (Activity::SettingUpRepl, WorkerEventView::Completed(Ok(()))) => (
                self.doing(Activity::Idle),
                StepView::Finished(Ok(())),
            ),
            (Activity::SettingUpRepl, WorkerEventView::Completed(Err(text))) => (
                self.doing(Activity::Idle),
                StepView::Finished(Err(WorkerErrorView::EventLoop(text))),
            ),
            _ => (self, StepView::Ignored),
        }
    }

    /// The execution of the unit's module as the main module, advanced by
    /// one event.
    pub open spec fn execute_main_module(self, event: WorkerEventView) -> (
        CliMainWorkerView,
        StepView<WorkerActionView, ()>,
    ) {
        match (self.activity, event) {
            (Activity::Idle, WorkerEventView::Start) => (
                self.doing(Activity::ExecutingMainModule(ExecuteStage::Preloading)),
                StepView::Perform(
                    WorkerActionView::PreloadMainModule { main_module: self.main_module },
                ),
            ),
            (Activity::ExecutingMainModule(stage), event) => match execute_model(stage, event) {
                ExecuteOutcomeView::Continue(next, action) => (
                    self.doing(Activity::ExecutingMainModule(next)),
                    StepView::Perform(action),
                ),
                ExecuteOutcomeView::Done(result) => (
                    self.doing(Activity::Idle),
                    StepView::Finished(result),
                ),
                ExecuteOutcomeView::Ignored => (self, StepView::Ignored),
            },
            _ => (self, StepView::Ignored),
        }
    }

    /// The execution of the unit's module as a side module, advanced by one
    /// event.
    pub open spec fn execute_side_module(self, event: WorkerEventView) -> (
        CliMainWorkerView,
        StepView<WorkerActionView, ()>,
    ) {
        match (self.activity, event) {
            (Activity::Idle, WorkerEventView::Start) => (
                self.doing(Activity::ExecutingSideModule(ExecuteStage::Preloading)),
                StepView::Perform(
                    WorkerActionView::PreloadSideModule { main_module: self.main_module },
                ),
            ),
            (Activity::ExecutingSideModule(stage), event) => match execute_model(stage, event) {
                ExecuteOutcomeView::Continue(next, action) => (
                    self.doing(Activity::ExecutingSideModule(next)),
                    StepView::Perform(action),
                ),
                ExecuteOutcomeView::Done(result) => (
                    self.doing(Activity::Idle),
                    StepView::Finished(result),
                ),
                ExecuteOutcomeView::Ignored => (self, StepView::Ignored),
            },
            _ => (self, StepView::Ignored),
        }
    }

    /// The attachment of a coverage collector, advanced by one event. It
    /// ends with whether a collector is attached: one is where a directory
    /// for it is configured, and only then is anything asked of the driver.
    pub open spec fn setup_coverage_collector(self, event: WorkerEventView) -> (
        CliMainWorkerView,
        StepView<WorkerActionView, bool>,
    ) {
        match (self.activity, event) {
            (Activity::Idle, WorkerEventView::Start) => match self.shared.options.coverage_dir {
                Some(coverage_dir) => (
                    self.doing(Activity::SettingUpCoverage),
                    StepView::Perform(WorkerActionView::StartCoverage { coverage_dir }),
                ),
                None => (self, StepView::Finished(Ok(false))),
            },
            (Activity::SettingUpCoverage, WorkerEventView::Completed(Ok(()))) => (
                self.doing(Activity::Idle),
                StepView::Finished(Ok(true)),
            ),
            (Activity::SettingUpCoverage, WorkerEventView::Completed(Err(text))) => (
                self.doing(Activity::Idle),
                StepView::Finished(Err(WorkerErrorView::Session(text))),
            ),
            _ => (self, StepView::Ignored),
        }
    }

    /// The attachment of the hot-reload runner, advanced by one event. It
    /// ends with whether the runner is attached: it is where hot reload is
    /// configured, and only then is anything asked of the driver. In a
    /// process without what hot reload needs it fails at once.
    pub open spec fn setup_hmr_runner(self, event: WorkerEventView) -> (
        CliMainWorkerView,
        StepView<WorkerActionView, bool>,
    ) {
        match (self.activity, event) {
            (Activity::Idle, WorkerEventView::Start) => if !self.shared.options.hmr {
                (self, StepView::Finished(Ok(false)))
            } else if self.can_reload() {
                (self.doing(Activity::SettingUpHmr), StepView::Perform(WorkerActionView::StartHmr))
            } else {
                (self, StepView::Finished(Err(WorkerErrorView::HmrUnavailable)))
            },
            (Activity::SettingUpHmr, WorkerEventView::Completed(Ok(()))) => (
                self.doing(Activity::Idle),
                StepView::Finished(Ok(true)),
            ),
            (Activity::SettingUpHmr, WorkerEventView::Completed(Err(text))) => (
                self.doing(Activity::Idle),
                StepView::Finished(Err(WorkerErrorView::Session(text))),
            ),
            _ => (self, StepView::Ignored),
        }
    }
}

impl CliMainWorker {
    /// Advances the pump that readies the unit for an interactive session.
    pub fn setup_repl(&mut self, event: WorkerEvent) -> (res: Step<WorkerAction, ()>)
        ensures
            (final(self)@, res@) == old(self)@.setup_repl(event@),
    {
        match self.activity {
            Activity::Idle => match event {
                WorkerEvent::Start => {
                    self.activity = Activity::SettingUpRepl;
                    Step::Perform(WorkerAction::RunEventLoop { exhaustive: false })
                },
                _ => Step::Ignored,
            },
            Activity::SettingUpRepl => match event {
                WorkerEvent::Completed(Ok(())) => {
                    self.activity = Activity::Idle;
                    Step::Finished(Ok(()))
                },
                WorkerEvent::Completed(Err(text)) => {
                    self.activity = Activity::Idle;
                    Step::Finished(Err(WorkerError::EventLoop(text)))
                },
                _ => Step::Ignored,
            },
            _ => Step::Ignored,
        }
    }

    /// Advances the execution of the unit's module as the main module: it is
    /// preloaded, then evaluated.
    pub fn execute_main_module_possibly_with_npm(&mut self, event: WorkerEvent) -> (res: Step<
        WorkerAction,
        (),
    >)
        ensures
            (final(self)@, res@) == old(self)@.execute_main_module(event@),
    {
        match self.activity {
            Activity::Idle => match event {
                WorkerEvent::Start => {
                    let main_module = clone_text(&self.main_module);
                    self.activity = Activity::ExecutingMainModule(ExecuteStage::Preloading);
                    Step::Perform(WorkerAction::PreloadMainModule { main_module })
                },
                _ => Step::Ignored,
            },
            Activity::ExecutingMainModule(stage) => match execute_step(stage, event) {
                ExecuteOutcome::Continue(next, action) => {
                    self.activity = Activity::ExecutingMainModule(next);
                    Step::Perform(action)
                },
                ExecuteOutcome::Done(result) => {
                    self.activity = Activity::Idle;
                    Step::Finished(result)
                },
                ExecuteOutcome::Ignored => Step::Ignored,
            },
            _ => Step::Ignored,
        }
    }

    /// Advances the execution of the unit's module as a side module: it is
    /// preloaded, then evaluated.
    pub fn execute_side_module_possibly_with_npm(&mut self, event: WorkerEvent) -> (res: Step<
        WorkerAction,
        (),
    >)
        ensures
            (final(self)@, res@) == old(self)@.execute_side_module(event@),
    {
        match self.activity {
            Activity::Idle => match event {
                WorkerEvent::Start => {
                    let main_module = clone_text(&self.main_module);
                    self.activity = Activity::ExecutingSideModule(ExecuteStage::Preloading);
                    Step::Perform(WorkerAction::PreloadSideModule { main_module })
                },
                _ => Step::Ignored,
            },
            Activity::ExecutingSideModule(stage) => match execute_step(stage, event) {
                ExecuteOutcome::Continue(next, action) => {
                    self.activity = Activity::ExecutingSideModule(next);
                    Step::Perform(action)
                },
                ExecuteOutcome::Done(result) => {
                    self.activity = Activity::Idle;
                    Step::Finished(result)
                },
                ExecuteOutcome::Ignored => Step::Ignored,
            },
            _ => Step::Ignored,
        }
    }

    /// Advances the attachment of a coverage collector.
    pub fn maybe_setup_coverage_collector(&mut self, event: WorkerEvent) -> (res: Step<
        WorkerAction,
        bool,
    >)
        ensures
            (final(self)@, res@) == old(self)@.setup_coverage_collector(event@),
    {
        match self.activity {
            Activity::Idle => match event {
                WorkerEvent::Start => match &self.shared.options.coverage_dir {
                    Some(coverage_dir) => {
                        let coverage_dir = clone_text(coverage_dir);
                        self.activity = Activity::SettingUpCoverage;
                        Step::Perform(WorkerAction::StartCoverage { coverage_dir })
                    },
                    None => Step::Finished(Ok(false)),
                },
                _ => Step::Ignored,
            },
            Activity::SettingUpCoverage => match event {
                WorkerEvent::Completed(Ok(())) => {
                    self.activity = Activity::Idle;
                    Step::Finished(Ok(true))
                },
                WorkerEvent::Completed(Err(text)) => {
                    self.activity = Activity::Idle;
                    Step::Finished(Err(WorkerError::Session(text)))
                },
                _ => Step::Ignored,
            },
            _ => Step::Ignored,
        }
    }

    /// Advances the attachment of the hot-reload runner.
    pub fn maybe_setup_hmr_runner(&mut self, event: WorkerEvent) -> (res: Step<WorkerAction, bool>)
        ensures
            (final(self)@, res@) == old(self)@.setup_hmr_runner(event@),
    {
        match self.activity {
            Activity::Idle => match event {
                WorkerEvent::Start => {
                    if !self.shared.options.hmr {
                        Step::Finished(Ok(false))
                    } else if self.shared.has_file_watcher_communicator && self.shared.has_emitter {
                        self.activity = Activity::SettingUpHmr;
                        Step::Perform(WorkerAction::StartHmr)
                    } else {
                        Step::Finished(Err(WorkerError::HmrUnavailable))
                    }
                },
                _ => Step::Ignored,
            },
            Activity::SettingUpHmr => match event {
                WorkerEvent::Completed(Ok(())) => {
                    self.activity = Activity::Idle;
                    Step::Finished(Ok(true))
                },
                WorkerEvent::Completed(Err(text)) => {
                    self.activity = Activity::Idle;
                    Step::Finished(Err(WorkerError::Session(text)))
                },
                _ => Step::Ignored,
            },
            _ => Step::Ignored,
        }
    }
}

} // verus!
