//! The execution of a unit's main module under a file watcher, which may
//! abandon it at any moment: whatever happens, a unit that was told `load` is
//! told `unload`.

use vstd::prelude::*;
use crate::error::{WorkerError, WorkerErrorView};
use crate::protocol::{Step, StepView};
use crate::text::clone_text;
use crate::worker::{
    execute_model, execute_step, CliMainWorker, CliMainWorkerView, ExecuteOutcome,
    ExecuteOutcomeView, ExecuteStage, WorkerAction, WorkerActionView, WorkerEvent,
    WorkerEventView,
};

verus! {

/// How far an execution under the file watcher has come: the outcome that it
/// waits for.
#[derive(Clone, Copy, Debug, PartialEq, Eq, Structural)]
pub enum WatchStage {
    Created,
    Executing(ExecuteStage),
    DispatchingLoad,
    Pumping,
    DispatchingBeforeUnload,
    DispatchingUnload,
    Finished,
}

/// Executes a unit's main module with its lifecycle events, and keeps track
/// of whether `unload` is still owed so that its teardown can make up for it.
#[derive(Debug, PartialEq, Eq)]
pub struct FileWatcherModuleExecutor {
    inner: CliMainWorker,
    pending_unload: bool,
    stage: WatchStage,
}

pub struct FileWatcherModuleExecutorView {
    pub inner: CliMainWorkerView,
    pub pending_unload: bool,
    pub stage: WatchStage,
}

impl View for FileWatcherModuleExecutor {
    type V = FileWatcherModuleExecutorView;

    closed spec fn view(&self) -> FileWatcherModuleExecutorView {
        FileWatcherModuleExecutorView {
            inner: self.inner@,
            pending_unload: self.pending_unload,
            stage: self.stage,
        }
    }
}

impl FileWatcherModuleExecutorView {
    /// The executor in `stage`.
    pub open spec fn at(self, stage: WatchStage) -> FileWatcherModuleExecutorView {
        FileWatcherModuleExecutorView { stage, ..self }
    }

    /// An execution that ends here with `error`. What is owed stays owed.
    pub open spec fn fail(self, error: WorkerErrorView) -> (
        FileWatcherModuleExecutorView,
        StepView<WorkerActionView, ()>,
    ) {
        (self.at(WatchStage::Finished), StepView::Finished(Err(error)))
    }

    /// One turn of the loop: a pump of the event loop that does not wait for
    /// all work.
    pub open spec fn begin_pump(self) -> (FileWatcherModuleExecutorView, StepView<
        WorkerActionView,
        (),
    >) {
        (
            self.at(WatchStage::Pumping),
            StepView::Perform(WorkerActionView::RunEventLoop { exhaustive: false }),
        )
    }

    /// The execution, advanced by one event. The main module is preloaded and
    /// evaluated and `load` is dispatched; from the moment `load` has been
    /// dispatched `unload` is owed. The event loop is then pumped until no
    /// `beforeunload` handler asks to go on, and `unload` is dispatched; once
    /// that dispatch has come back nothing is owed any more, whether it
    /// succeeded or failed: `unload` is never dispatched a second time.
    pub open spec fn execute(self, event: WorkerEventView) -> (
        FileWatcherModuleExecutorView,
        StepView<WorkerActionView, ()>,
    ) {
        match (self.stage, event) {
            (WatchStage::Created, WorkerEventView::Start) => (
                self.at(WatchStage::Executing(ExecuteStage::Preloading)),
                StepView::Perform(
                    WorkerActionView::PreloadMainModule { main_module: self.inner.main_module },
                ),
            ),
            (WatchStage::Executing(execution), event) => match execute_model(execution, event) {
                ExecuteOutcomeView::Continue(next, action) => (
                    self.at(WatchStage::Executing(next)),
                    StepView::Perform(action),
                ),
                ExecuteOutcomeView::Done(Ok(())) => (
                    self.at(WatchStage::DispatchingLoad),
                    StepView::Perform(WorkerActionView::DispatchLoad),
                ),
                ExecuteOutcomeView::Done(Err(error)) => self.fail(error),
                ExecuteOutcomeView::Ignored => (self, StepView::Ignored),
            },
            (WatchStage::DispatchingLoad, WorkerEventView::Completed(Ok(()))) => FileWatcherModuleExecutorView {
                pending_unload: true,
                ..self
            }.begin_pump(),
            (WatchStage::DispatchingLoad, WorkerEventView::Completed(Err(text))) => self.fail(
                WorkerErrorView::LifecycleEvent(text),
            ),
            (WatchStage::Pumping, WorkerEventView::Completed(Ok(()))) => (
                self.at(WatchStage::DispatchingBeforeUnload),
                StepView::Perform(WorkerActionView::DispatchBeforeUnload),
            ),
            (WatchStage::Pumping, WorkerEventView::Completed(Err(text))) => self.fail(
                WorkerErrorView::EventLoop(text),
            ),
            (
                WatchStage::DispatchingBeforeUnload,
                WorkerEventView::BeforeUnload(Ok(prevented)),
            ) => if prevented {
                self.begin_pump()
            } else {
                (
                    self.at(WatchStage::DispatchingUnload),
                    StepView::Perform(WorkerActionView::DispatchUnload),
                )
            },
            (
                WatchStage::DispatchingBeforeUnload,
                WorkerEventView::BeforeUnload(Err(text)),
            ) => self.fail(WorkerErrorView::LifecycleEvent(text)),
            (WatchStage::DispatchingUnload, WorkerEventView::Completed(Ok(()))) => (
                FileWatcherModuleExecutorView { pending_unload: false, ..self }.at(
                    WatchStage::Finished,
                ),
                StepView::Finished(Ok(())),
            ),
            (
                WatchStage::DispatchingUnload,
                WorkerEventView::Completed(Err(text)),
            ) => FileWatcherModuleExecutorView { pending_unload: false, ..self }.fail(
                WorkerErrorView::LifecycleEvent(text),
            ),
            _ => (self, StepView::Ignored),
        }
    }

    /// The teardown of the executor: where `unload` is owed it is dispatched
    /// now, and whatever comes of that is dropped. Afterwards nothing is owed
    /// and the execution is over.
    pub open spec fn teardown(self) -> (FileWatcherModuleExecutorView, Option<WorkerActionView>) {
        (
            FileWatcherModuleExecutorView { pending_unload: false, ..self }.at(
                WatchStage::Finished,
            ),
            if self.pending_unload {
                Some(WorkerActionView::DispatchUnload)
            } else {
                None
            },
        )
    }
}

impl FileWatcherModuleExecutor {
    /// An executor for `worker` that has not begun and owes nothing.
    pub fn new(worker: CliMainWorker) -> (res: FileWatcherModuleExecutor)
        ensures
            res@ == (FileWatcherModuleExecutorView {
                inner: worker@,
                pending_unload: false,
                stage: WatchStage::Created,
            }),
    {
        FileWatcherModuleExecutor { inner: worker, pending_unload: false, stage: WatchStage::Created }
    }

    /// Whether `unload` is owed.
    pub fn pending_unload(&self) -> (res: bool)
        ensures
            res == self@.pending_unload,
    {
        self.pending_unload
    }

    /// How far the execution has come.
    pub fn stage(&self) -> (res: WatchStage)
        ensures
            res == self@.stage,
    {
        self.stage
    }

    fn fail(&mut self, error: WorkerError) -> (res: Step<WorkerAction, ()>)
        ensures
            (final(self)@, res@) == old(self)@.fail(error@),
    {
        self.stage = WatchStage::Finished;
        Step::Finished(Err(error))
    }

    fn begin_pump(&mut self) -> (res: Step<WorkerAction, ()>)
        ensures
            (final(self)@, res@) == old(self)@.begin_pump(),
    {
        self.stage = WatchStage::Pumping;
        Step::Perform(WorkerAction::RunEventLoop { exhaustive: false })
    }

    /// Advances the execution of the main module, with its `load` and
    /// `unload` events before and after, by one event.
    pub fn execute(&mut self, event: WorkerEvent) -> (res: Step<WorkerAction, ()>)
        ensures
            (final(self)@, res@) == old(self)@.execute(event@),
    {
        match self.stage {
            WatchStage::Created => match event {
                WorkerEvent::Start => {
                    let main_module = clone_text(self.inner.main_module());
                    self.stage = WatchStage::Executing(ExecuteStage::Preloading);
                    Step::Perform(WorkerAction::PreloadMainModule { main_module })
                },
                _ => Step::Ignored,
            },
            WatchStage::Executing(execution) => match execute_step(execution, event) {
                ExecuteOutcome::Continue(next, action) => {
                    self.stage = WatchStage::Executing(next);
                    Step::Perform(action)
                },
                ExecuteOutcome::Done(Ok(())) => {
                    self.stage = WatchStage::DispatchingLoad;
                    Step::Perform(WorkerAction::DispatchLoad)
                },
                ExecuteOutcome::Done(Err(error)) => self.fail(error),
                ExecuteOutcome::Ignored => Step::Ignored,
            },
            WatchStage::DispatchingLoad => match event {
                WorkerEvent::Completed(Ok(())) => {
                    self.pending_unload = true;
                    self.begin_pump()
                },
                WorkerEvent::Completed(Err(text)) => self.fail(WorkerError::LifecycleEvent(text)),
                _ => Step::Ignored,
            },
            WatchStage::Pumping => match event {
                WorkerEvent::Completed(Ok(())) => {
                    self.stage = WatchStage::DispatchingBeforeUnload;
                    Step::Perform(WorkerAction::DispatchBeforeUnload)
                },
                WorkerEvent::Completed(Err(text)) => self.fail(WorkerError::EventLoop(text)),
                _ => Step::Ignored,
            },
            WatchStage::DispatchingBeforeUnload => match event {
                WorkerEvent::BeforeUnload(Ok(prevented)) => {
                    if prevented {
                        self.begin_pump()
                    } else {
                        self.stage = WatchStage::DispatchingUnload;
                        Step::Perform(WorkerAction::DispatchUnload)
                    }
                },
                WorkerEvent::BeforeUnload(Err(text)) => self.fail(
                    WorkerError::LifecycleEvent(text),
                ),
                _ => Step::Ignored,
            },
            WatchStage::DispatchingUnload => match event {
                WorkerEvent::Completed(Ok(())) => {
                    self.pending_unload = false;
                    self.stage = WatchStage::Finished;
                    Step::Finished(Ok(()))
                },
                WorkerEvent::Completed(Err(text)) => {
                    self.pending_unload = false;
                    self.fail(WorkerError::LifecycleEvent(text))
                },
                _ => Step::Ignored,
            },
            WatchStage::Finished => Step::Ignored,
        }
    }

    /// Tears the executor down, as its holder must when it lets go of it,
    /// whether the execution has ended or was abandoned: the result is the
    /// `unload` that is still owed, for the driver to dispatch without regard
    /// to its outcome.
    pub fn teardown(&mut self) -> (res: Option<WorkerAction>)
        ensures
            (final(self)@, res.deep_view()) == old(self)@.teardown(),
    {
        let owed = self.pending_unload;
        self.pending_unload = false;
        self.stage = WatchStage::Finished;
        if owed {
            Some(WorkerAction::DispatchUnload)
        } else {
            None
        }
    }
}

impl CliMainWorker {
    /// Hands the unit to the file watcher's executor, which executes its main
    /// module and sees to it that `unload` follows `load`.
    pub fn run_for_watcher(self) -> (res: FileWatcherModuleExecutor)
        ensures
            res@ == (FileWatcherModuleExecutorView {
                inner: self@,
                pending_unload: false,
                stage: WatchStage::Created,
            }),
    {
        FileWatcherModuleExecutor::new(self)
    }
}

/// The executor after its execution was advanced by each of the events in
/// turn.
pub open spec fn watch_state(
    executor: FileWatcherModuleExecutorView,
    events: Seq<WorkerEventView>,
) -> FileWatcherModuleExecutorView
    decreases events.len(),
{
    if events.len() == 0 {
        executor
    } else {
        watch_state(executor, events.drop_last()).execute(events.last()).0
    }
}

/// Whether, among the events, one reported that `load` was dispatched.
pub open spec fn load_dispatched(
    executor: FileWatcherModuleExecutorView,
    events: Seq<WorkerEventView>,
) -> bool
    decreases events.len(),
{
    if events.len() == 0 {
        false
    } else {
        load_dispatched(executor, events.drop_last()) || (watch_state(
            executor,
            events.drop_last(),
        ).stage == WatchStage::DispatchingLoad && events.last() matches WorkerEventView::Completed(
            Ok(_),
        ))
    }
}

/// Whether, among the events, one reported what came of the dispatch of
/// `unload`, be it a failure.
pub open spec fn unload_dispatched(
    executor: FileWatcherModuleExecutorView,
    events: Seq<WorkerEventView>,
) -> bool
    decreases events.len(),
{
    if events.len() == 0 {
        false
    } else {
        unload_dispatched(executor, events.drop_last()) || (watch_state(
            executor,
            events.drop_last(),
        ).stage == WatchStage::DispatchingUnload && events.last() is Completed)
    }
}

/// Whether the executor has not begun and owes nothing.
pub open spec fn is_fresh(executor: FileWatcherModuleExecutorView) -> bool {
    executor.stage == WatchStage::Created && !executor.pending_unload
}

/// Whether `load` was not dispatched yet in this stage.
pub open spec fn before_load(stage: WatchStage) -> bool {
    stage is Created || stage is Executing || stage is DispatchingLoad
}

/// Whether the loop, or the `unload` that follows it, is under way in this
/// stage.
pub open spec fn in_loop(stage: WatchStage) -> bool {
    stage is Pumping || stage is DispatchingBeforeUnload || stage is DispatchingUnload
}

/// `unload` is owed from the moment `load` was dispatched until the dispatch
/// of `unload` has come back, however the execution went in between.
pub proof fn law_unload_owed_after_load(
    executor: FileWatcherModuleExecutorView,
    events: Seq<WorkerEventView>,
)
    requires
        is_fresh(executor),
    ensures
        watch_state(executor, events).pending_unload <==> load_dispatched(executor, events)
            && !unload_dispatched(executor, events),
        unload_dispatched(executor, events) ==> load_dispatched(executor, events) && watch_state(
            executor,
            events,
        ).stage == WatchStage::Finished,
        before_load(watch_state(executor, events).stage) ==> !load_dispatched(executor, events),
        in_loop(watch_state(executor, events).stage) ==> watch_state(
            executor,
            events,
        ).pending_unload,
    decreases events.len(),
{
    if events.len() > 0 {
        law_unload_owed_after_load(executor, events.drop_last());
    }
}

/// An executor that is torn down after `load` was dispatched and before the
/// dispatch of `unload` has come back dispatches `unload` in its teardown;
/// one whose `unload` was dispatched, or whose `load` never was, dispatches
/// nothing: the execution and the teardown never both dispatch an `unload`
/// that has come back. Torn down again, it dispatches nothing: a teardown
/// dispatches `unload` at most once.
pub proof fn law_teardown_dispatches_owed_unload(
    executor: FileWatcherModuleExecutorView,
    events: Seq<WorkerEventView>,
)
    requires
        is_fresh(executor),
    ensures
        load_dispatched(executor, events) && !unload_dispatched(executor, events) ==> watch_state(
            executor,
            events,
        ).teardown().1 == Some(WorkerActionView::DispatchUnload),
        unload_dispatched(executor, events) || !load_dispatched(executor, events) ==> watch_state(
            executor,
            events,
        ).teardown().1 is None,
        watch_state(executor, events).teardown().0.teardown().1 is None,
{
    law_unload_owed_after_load(executor, events);
}

/// After its teardown an executor asks for nothing more.
pub proof fn law_torn_down_executor_rests(
    executor: FileWatcherModuleExecutorView,
    event: WorkerEventView,
)
    ensures
        executor.teardown().0.execute(event) == (
            executor.teardown().0,
            StepView::<WorkerActionView, ()>::Ignored,
        ),
{
}

} // verus!
