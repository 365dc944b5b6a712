//! What holds of every run of a unit, whatever its driver reports.

use vstd::prelude::*;
use crate::error::WorkerErrorView;
use crate::protocol::StepView;
use crate::worker::{
    Activity, CliMainWorkerView, Driver, RunStage, WatcherRestartMode, WorkerActionView,
    WorkerEventView,
};

verus! {

/// The unit after its run was advanced by each of the events in turn.
pub open spec fn run_state(worker: CliMainWorkerView, events: Seq<WorkerEventView>) -> CliMainWorkerView
    decreases events.len(),
{
    if events.len() == 0 {
        worker
    } else {
        run_state(worker, events.drop_last()).run(events.last()).0
    }
}

/// The actions that the unit asked for while its run was advanced by each of
/// the events in turn, in the order in which it asked.
pub open spec fn run_actions(worker: CliMainWorkerView, events: Seq<WorkerEventView>) -> Seq<
    WorkerActionView,
>
    decreases events.len(),
{
    if events.len() == 0 {
        Seq::empty()
    } else {
        let before = run_actions(worker, events.drop_last());
        match run_state(worker, events.drop_last()).run(events.last()).1 {
            StepView::Perform(action) => before.push(action),
            _ => before,
        }
    }
}

/// Whether the action is part of the loop that pumps the event loop and
/// asks the `beforeunload` handlers.
pub open spec fn is_loop_action(action: WorkerActionView) -> bool {
    action is RunEventLoop || action is RaceHmr || action is DispatchBeforeUnload
}

/// Whether the `i`-th action dispatches `unload`.
pub open spec fn unloads_at(actions: Seq<WorkerActionView>, i: int) -> bool {
    0 <= i < actions.len() && actions[i] is DispatchUnload
}

/// Whether a run in this activity has its `unload` event still before it.
pub open spec fn before_unload(activity: Activity) -> bool {
    match activity {
        Activity::Idle => true,
        Activity::Running(stage) => !after_unload(activity),
        _ => false,
    }
}

/// Whether a run in this activity has asked for its `unload` event and goes
/// on.
pub open spec fn after_unload(activity: Activity) -> bool {
    match activity {
        Activity::Running(RunStage::DispatchingUnload) => true,
        Activity::Running(RunStage::StoppingCoverage) => true,
        Activity::Running(RunStage::StoppingHmr) => true,
        Activity::Running(RunStage::ReadingExitCode) => true,
        _ => false,
    }
}

/// What links a unit in the middle of a run to the actions it has asked for.
pub open spec fn run_invariant(worker: CliMainWorkerView, actions: Seq<WorkerActionView>) -> bool {
    &&& before_unload(worker.activity) || after_unload(worker.activity) || worker.activity
        is Terminated
    &&& before_unload(worker.activity) ==> forall|i: int| !unloads_at(actions, i)
    &&& after_unload(worker.activity) ==> exists|i: int| unloads_at(actions, i)
    &&& forall|i: int, j: int|
        #![trigger unloads_at(actions, i), actions[j]]
        unloads_at(actions, i) && i < j < actions.len() ==> !is_loop_action(actions[j])
            && !unloads_at(actions, j)
    &&& worker.activity == Activity::Running(RunStage::ChangingRestartMode) ==> {
        &&& worker.failure is Some
        &&& actions.len() > 0
        &&& actions.last() == WorkerActionView::ChangeRestartMode(WatcherRestartMode::Automatic)
    }
    &&& worker.activity matches Activity::Running(stage) ==> {
        &&& needs_hot_reload(stage) ==> worker.reloads()
        &&& stage != RunStage::StartingCoverage && worker.reloads() ==> worker.can_reload()
    }
    &&& forall|i: int|
        0 <= i < actions.len() && needs_hot_reload_to_perform(#[trigger] actions[i])
            ==> worker.reloads() && worker.can_reload()
}

/// Whether a run is in this stage only with the hot-reload runner attached.
pub open spec fn needs_hot_reload(stage: RunStage) -> bool {
    stage is StartingHmr || stage is Racing || stage is ChangingRestartMode || stage is StoppingHmr
}

/// Whether the action can be performed only with the hot-reload runner and
/// the file watcher at hand.
pub open spec fn needs_hot_reload_to_perform(action: WorkerActionView) -> bool {
    action is StartHmr || action is RaceHmr || action is ChangeRestartMode || action is StopHmr
}

/// One event keeps the link between a unit and the actions it has asked for.
#[verifier::rlimit(50)]
proof fn lemma_run_invariant_step(
    worker: CliMainWorkerView,
    actions: Seq<WorkerActionView>,
    event: WorkerEventView,
)
    requires
        run_invariant(worker, actions),
    ensures
        run_invariant(
            worker.run(event).0,
            match worker.run(event).1 {
                StepView::Perform(action) => actions.push(action),
                _ => actions,
            },
        ),
{
    let (next, step) = worker.run(event);
    match step {
        StepView::Perform(action) => {
            let longer = actions.push(action);
            assert(longer.last() == action);
            assert forall|i: int| unloads_at(actions, i) implies unloads_at(longer, i) by {}
            if after_unload(worker.activity) {
                let i = choose|i: int| unloads_at(actions, i);
                assert(unloads_at(longer, i));
            }
            if action is DispatchUnload {
                assert(unloads_at(longer, actions.len() as int));
            }
            assert forall|i: int, j: int|
                #![trigger unloads_at(longer, i), longer[j]]
                unloads_at(longer, i) && i < j < longer.len() implies !is_loop_action(longer[j])
                    && !unloads_at(longer, j) by {
                assert(unloads_at(actions, i));
                if j < actions.len() {
                    assert(longer[j] == actions[j]);
                    assert(!unloads_at(actions, j));
                }
            }
            if before_unload(next.activity) {
                assert forall|i: int| !unloads_at(longer, i) by {
                    if i < actions.len() {
                        assert(!unloads_at(actions, i));
                    }
                }
            }
            assert forall|i: int|
                0 <= i < longer.len() && needs_hot_reload_to_perform(
                    #[trigger] longer[i],
                ) implies next.reloads() && next.can_reload() by {
                if i < actions.len() {
                    assert(longer[i] == actions[i]);
                }
            }
        },
        _ => {},
    }
}

/// A run that began on an idle unit keeps the link between the unit and the
/// actions it has asked for.
pub proof fn lemma_run_invariant(worker: CliMainWorkerView, events: Seq<WorkerEventView>)
    requires
        worker.activity == Activity::Idle,
    ensures
        run_invariant(run_state(worker, events), run_actions(worker, events)),
    decreases events.len(),
{
    if events.len() > 0 {
        lemma_run_invariant(worker, events.drop_last());
        lemma_run_invariant_step(
            run_state(worker, events.drop_last()),
            run_actions(worker, events.drop_last()),
            events.last(),
        );
    }
}

/// The loop ends on the first turn whose `beforeunload` handlers do not
/// prevent the default: `unload` is asked for at once. Where they do prevent
/// it, the loop takes another turn and `unload` is not asked for.
pub proof fn law_before_unload_decides(worker: CliMainWorkerView, prevented: bool)
    requires
        worker.activity == Activity::Running(RunStage::DispatchingBeforeUnload),
    ensures
        !prevented ==> worker.run(WorkerEventView::BeforeUnload(Ok(prevented))).1
            == StepView::<WorkerActionView, i32>::Perform(WorkerActionView::DispatchUnload),
        prevented ==> worker.run(WorkerEventView::BeforeUnload(Ok(prevented)))
            == worker.begin_pump(),
        prevented ==> (worker.run(WorkerEventView::BeforeUnload(Ok(prevented))).1 matches StepView::Perform(
            action,
        ) && is_loop_action(action)),
{
}

/// In a run, `unload` is asked for at most once, and once it has been asked
/// for the loop is over: the event loop is not pumped again and the
/// `beforeunload` handlers are not asked again.
pub proof fn law_unload_once_after_loop(
    worker: CliMainWorkerView,
    events: Seq<WorkerEventView>,
    i: int,
    j: int,
)
    requires
        worker.activity == Activity::Idle,
        unloads_at(run_actions(worker, events), i),
        i < j < run_actions(worker, events).len(),
    ensures
        !unloads_at(run_actions(worker, events), j),
        !is_loop_action(run_actions(worker, events)[j]),
{
    lemma_run_invariant(worker, events);
}

/// A run that ends with an exit code has asked for `unload` exactly once.
pub proof fn law_finished_run_unloaded_once(
    worker: CliMainWorkerView,
    events: Seq<WorkerEventView>,
    event: WorkerEventView,
)
    requires
        worker.activity == Activity::Idle,
        run_state(worker, events).run(event).1 matches StepView::Finished(Ok(_)),
    ensures
        exists|i: int| unloads_at(run_actions(worker, events), i),
        forall|i: int, j: int|
            unloads_at(run_actions(worker, events), i) && unloads_at(
                run_actions(worker, events),
                j,
            ) ==> i == j,
{
    lemma_run_invariant(worker, events);
    let actions = run_actions(worker, events);
    assert(after_unload(run_state(worker, events).activity));
    assert forall|i: int, j: int| unloads_at(actions, i) && unloads_at(actions, j) implies i
        == j by {
        if i < j {
            assert(!is_loop_action(actions[j]) && !unloads_at(actions, j));
        } else if j < i {
            assert(!is_loop_action(actions[i]) && !unloads_at(actions, i));
        }
    }
}

/// A race that fails, whichever driver the failure comes from, switches the
/// file watcher to automatic restarts; only then does the run end, with that
/// failure.
pub proof fn law_race_failure_changes_restart_mode(
    worker: CliMainWorkerView,
    driver: Driver,
    text: Seq<char>,
    outcome: Result<(), Seq<char>>,
)
    requires
        worker.activity == Activity::Running(RunStage::Racing),
    ensures
        worker.run(WorkerEventView::Raced(driver, Err(text))).1 == StepView::<
            WorkerActionView,
            i32,
        >::Perform(WorkerActionView::ChangeRestartMode(WatcherRestartMode::Automatic)),
        worker.run(WorkerEventView::Raced(driver, Err(text))).0.run(
            WorkerEventView::Completed(outcome),
        ).1 == StepView::<WorkerActionView, i32>::Finished(Err(WorkerErrorView::Hmr(text))),
{
}

/// A run pumps the event loop under the eyes of the hot-reload driver
/// exactly where hot reload is configured, so with it attached every failure
/// of the event loop is a failure of the race.
pub proof fn law_pump_races_with_hmr(worker: CliMainWorkerView)
    ensures
        worker.begin_pump().1 == StepView::<WorkerActionView, i32>::Perform(
            WorkerActionView::RaceHmr,
        ) <==> worker.reloads(),
{
}

/// A run never surfaces a failure of the race before the file watcher was
/// told to restart automatically: that request is the last action asked for
/// before the failure.
pub proof fn law_hmr_failure_follows_restart_mode_change(
    worker: CliMainWorkerView,
    events: Seq<WorkerEventView>,
    event: WorkerEventView,
)
    requires
        worker.activity == Activity::Idle,
        run_state(worker, events).run(event).1 matches StepView::Finished(
            Err(WorkerErrorView::Hmr(_)),
        ),
    ensures
        run_actions(worker, events).len() > 0,
        run_actions(worker, events).last() == WorkerActionView::ChangeRestartMode(
            WatcherRestartMode::Automatic,
        ),
{
    lemma_run_invariant(worker, events);
}

/// Once a run has ended, nothing more is asked of the driver.
pub proof fn law_terminated_unit_rests(worker: CliMainWorkerView, event: WorkerEventView)
    requires
        worker.activity == Activity::Terminated,
    ensures
        worker.run(event) == (worker, StepView::<WorkerActionView, i32>::Ignored),
{
}

/// The module a unit starts from, how that module is loaded, and the shared
/// configuration are settled when the unit is made: no event of any of its
/// operations changes them.
pub proof fn law_identity_is_settled(worker: CliMainWorkerView, event: WorkerEventView)
    ensures
        worker.run(event).0.main_module == worker.main_module,
        worker.run(event).0.is_main_cjs == worker.is_main_cjs,
        worker.run(event).0.file_path == worker.file_path,
        worker.run(event).0.shared == worker.shared,
        worker.setup_repl(event).0.main_module == worker.main_module,
        worker.setup_repl(event).0.is_main_cjs == worker.is_main_cjs,
        worker.execute_main_module(event).0.main_module == worker.main_module,
        worker.execute_main_module(event).0.is_main_cjs == worker.is_main_cjs,
        worker.execute_side_module(event).0.main_module == worker.main_module,
        worker.execute_side_module(event).0.is_main_cjs == worker.is_main_cjs,
        worker.setup_coverage_collector(event).0.main_module == worker.main_module,
        worker.setup_coverage_collector(event).0.is_main_cjs == worker.is_main_cjs,
        worker.setup_hmr_runner(event).0.main_module == worker.main_module,
        worker.setup_hmr_runner(event).0.is_main_cjs == worker.is_main_cjs,
{
}

/// Where both are configured, the coverage collector is attached before the
/// hot-reload runner, and stopped after it.
pub proof fn law_coverage_comes_first(worker: CliMainWorkerView, coverage_dir: Seq<char>)
    requires
        worker.shared.options.coverage_dir == Some(coverage_dir),
        worker.shared.options.hmr,
        worker.can_reload(),
    ensures
        worker.begin_run().1 == StepView::<WorkerActionView, i32>::Perform(
            WorkerActionView::StartCoverage { coverage_dir },
        ),
        worker.begin_run().0.run(WorkerEventView::Completed(Ok(()))).1 == StepView::<
            WorkerActionView,
            i32,
        >::Perform(WorkerActionView::StartHmr),
        worker.end_hmr().1 == StepView::<WorkerActionView, i32>::Perform(
            WorkerActionView::StopHmr,
        ),
        worker.end_hmr().0.run(WorkerEventView::Completed(Ok(()))).1 == StepView::<
            WorkerActionView,
            i32,
        >::Perform(WorkerActionView::StopCoverage),
{
}

/// A unit whose module is classified as CommonJS loads the module's file
/// through the CommonJS loader, honouring the request to break on the first
/// statement, and ends its run where the module has no file; any other unit
/// preloads its module.
pub proof fn law_classification_picks_the_loader(worker: CliMainWorkerView)
    ensures
        worker.is_main_cjs ==> match worker.file_path {
            Some(path) => worker.begin_execution().1 == StepView::<
                WorkerActionView,
                i32,
            >::Perform(
                WorkerActionView::LoadCjsModule {
                    path,
                    break_on_first_statement: worker.shared.options.inspect_brk,
                },
            ),
            None => worker.begin_execution().1 == StepView::<WorkerActionView, i32>::Finished(
                Err(WorkerErrorView::NoFilePath { specifier: worker.main_module }),
            ),
        },
        !worker.is_main_cjs ==> worker.begin_execution().1 == StepView::<
            WorkerActionView,
            i32,
        >::Perform(WorkerActionView::PreloadMainModule { main_module: worker.main_module }),
{
}

/// A run asks for the hot-reload runner to be started, raced or stopped, and
/// for the file watcher's restart mode to be changed, only where hot reload
/// is configured in a process that has what it needs: a file watcher to talk
/// to and an emitter.
pub proof fn law_hot_reload_needs_its_collaborators(
    worker: CliMainWorkerView,
    events: Seq<WorkerEventView>,
    i: int,
)
    requires
        worker.activity == Activity::Idle,
        0 <= i < run_actions(worker, events).len(),
        needs_hot_reload_to_perform(run_actions(worker, events)[i]),
    ensures
        worker.reloads(),
        worker.can_reload(),
{
    lemma_run_keeps_shared(worker, events);
    lemma_run_invariant(worker, events);
}

/// Hot reload that is configured in a process without what it needs ends
/// the run before the runner is attached.
pub proof fn law_hot_reload_without_collaborators_fails(worker: CliMainWorkerView)
    requires
        worker.reloads(),
        !worker.can_reload(),
    ensures
        worker.begin_hmr().1 == StepView::<WorkerActionView, i32>::Finished(
            Err(WorkerErrorView::HmrUnavailable),
        ),
{
}

/// The shared configuration stays what it is along a run.
pub proof fn lemma_run_keeps_shared(worker: CliMainWorkerView, events: Seq<WorkerEventView>)
    ensures
        run_state(worker, events).shared == worker.shared,
    decreases events.len(),
{
    if events.len() > 0 {
        lemma_run_keeps_shared(worker, events.drop_last());
    }
}

} // verus!
