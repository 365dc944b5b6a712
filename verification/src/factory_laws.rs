//! What holds of every making of a unit, whatever its driver reports.

use vstd::prelude::*;
use crate::error::{FallbackErrorView, WorkerErrorView};
use crate::factory::{
    main_worker_options, CreateActionView, CreateEventView, CreateStageView, WorkerCreationView,
};
use crate::package::{
    is_first_requirement, lemma_first_requirement_at, NpmPackageReqReferenceView,
    PackageJsonDepView,
};
use crate::protocol::StepView;
use crate::text::{contains_text, stands_at};
use crate::resolution::{directory_url, NodeModuleKind, NodeResolutionView};
use crate::worker::{Activity, CliMainWorkerView};

verus! {

/// A wildcard reference whose package the root manifest requires is
/// registered with the manifest's requirement, not with the wildcard, and
/// keeps its subpath.
pub proof fn law_registers_manifest_requirement(
    creation: WorkerCreationView,
    reference: NpmPackageReqReferenceView,
    deps: Seq<PackageJsonDepView>,
    i: int,
)
    requires
        creation.stage is Created,
        creation.shared.npm_resolver_is_managed,
        creation.shared.options.maybe_root_package_json_deps == Some(deps),
        reference.req.is_wildcard(),
        is_first_requirement(deps, reference.req.name, i),
    ensures
        creation.begin(Some(reference)).1 == StepView::<
            CreateActionView,
            CliMainWorkerView,
        >::Perform(CreateActionView::AddPackageReqs { req: deps[i].req->0 }),
        creation.begin(Some(reference)).0.stage == (CreateStageView::RegisteringPackage {
            reference: NpmPackageReqReferenceView {
                req: deps[i].req->0,
                sub_path: reference.sub_path,
            },
        }),
{
    lemma_first_requirement_at(deps, reference.req.name, i);
}

/// The generic subpath resolution is asked for if and only if the package's
/// declared binary export was not found and a subpath was written, and then
/// whenever the package's folder has a URL to resolve from.
pub proof fn law_fallback_needs_subpath(creation: WorkerCreationView, event: CreateEventView)
    ensures
        creation.step(event).1 matches StepView::Perform(
            CreateActionView::ResolvePackageSubpath { .. },
        ) <==> (creation.stage matches CreateStageView::ResolvingBinaryExport {
            package_folder,
            sub_path,
        } && sub_path is Some && directory_url(package_folder) is Some
            && event matches CreateEventView::Resolved(Err(_))),
{
}

/// A package folder without a URL, as one that is not absolute, ends the
/// making where the fallback would have to resolve from it; where no subpath
/// was written the folder's URL plays no part. A working directory without a
/// URL ends the making likewise, before any folder is looked for.
pub proof fn law_directory_without_url_ends_the_making(
    creation: WorkerCreationView,
    primary: Seq<char>,
    directory: Seq<char>,
    url: Option<Seq<char>>,
    other: Option<Seq<char>>,
)
    ensures
        creation.stage matches CreateStageView::ResolvingBinaryExport { package_folder, sub_path }
            ==> {
            &&& sub_path is Some ==> creation.given_binary_export(Err(primary), None).1
                == StepView::<CreateActionView, CliMainWorkerView>::Finished(
                Err(WorkerErrorView::NoReferrer { directory: package_folder }),
            )
            &&& sub_path is None ==> creation.given_binary_export(Err(primary), url)
                == creation.given_binary_export(Err(primary), other)
        },
        creation.stage is ReadingWorkingDirectory ==> creation.given_working_directory(
            directory,
            None,
        ).1 == StepView::<CreateActionView, CliMainWorkerView>::Finished(
            Err(WorkerErrorView::NoReferrer { directory }),
        ),
{
}

/// Without a subpath, a binary export that was not found ends the making
/// with the resolver's own failure.
pub proof fn law_no_subpath_keeps_primary_failure(
    creation: WorkerCreationView,
    package_folder: Seq<char>,
    primary: Seq<char>,
)
    requires
        creation.stage == (CreateStageView::ResolvingBinaryExport { package_folder, sub_path: None }),
    ensures
        creation.step(CreateEventView::Resolved(Err(primary))).1 == StepView::<
            CreateActionView,
            CliMainWorkerView,
        >::Finished(Err(WorkerErrorView::Resolution(primary))),
{
}

/// A fallback that arrives at a module built into the runtime, or at
/// nothing, ends the making with the primary failure as it was.
pub proof fn law_builtin_fallback_keeps_primary_failure(
    creation: WorkerCreationView,
    primary: Seq<char>,
    fallback: Option<NodeResolutionView>,
)
    requires
        creation.stage == (CreateStageView::ResolvingPackageSubpath { primary }),
        fallback matches Some(resolution) ==> resolution.kind == NodeModuleKind::BuiltIn,
    ensures
        creation.step(CreateEventView::SubpathResolved(Ok(fallback))).1 == StepView::<
            CreateActionView,
            CliMainWorkerView,
        >::Finished(Err(WorkerErrorView::Resolution(primary))),
{
}

/// A fallback that arrives at a module whose file is on disk makes that
/// module the entry point: the unit starts from its URL and loads it through
/// the CommonJS loader exactly where the module is classified as CommonJS.
pub proof fn law_existing_fallback_is_entry_point(
    creation: WorkerCreationView,
    primary: Seq<char>,
    resolution: NodeResolutionView,
)
    requires
        creation.stage == (CreateStageView::ResolvingPackageSubpath { primary }),
        resolution.kind != NodeModuleKind::BuiltIn,
        resolution.file_path is Some,
    ensures
        ({
            let asked = creation.step(CreateEventView::SubpathResolved(Ok(Some(resolution))));
            let found = asked.0.step(CreateEventView::FileExists(true));
            let written = found.0.step(CreateEventView::Completed(Ok(())));
            let entered = if creation.shared.has_lockfile {
                written
            } else {
                found
            };
            &&& asked.1 == StepView::<CreateActionView, CliMainWorkerView>::Perform(
                CreateActionView::ProbeFile { specifier: resolution.url },
            )
            &&& found == asked.0.entry_point_found(resolution)
            &&& creation.shared.has_lockfile ==> found.1 == StepView::<
                CreateActionView,
                CliMainWorkerView,
            >::Perform(CreateActionView::WriteLockfile)
            &&& entered.0.stage == (CreateStageView::ResolvingStorageKey {
                main_module: resolution.url,
                is_main_cjs: resolution.kind == NodeModuleKind::CommonJs,
                file_path: resolution.file_path,
            })
            &&& entered.0.step(CreateEventView::StorageKey(None)).0.stage
                == (CreateStageView::Bootstrapping {
                main_module: resolution.url,
                is_main_cjs: resolution.kind == NodeModuleKind::CommonJs,
                file_path: resolution.file_path,
            })
            &&& entered.0.step(CreateEventView::StorageKey(None)).1 matches StepView::Perform(
                CreateActionView::Bootstrap { main_module, .. },
            ) && main_module == resolution.url
        }),
{
}

/// A fallback that arrives at a module whose file is not on disk ends the
/// making with a failure that says so: it holds the primary failure and the
/// module that was not found, and its text names that module.
pub proof fn law_missing_fallback_is_not_found(
    creation: WorkerCreationView,
    primary: Seq<char>,
    resolution: NodeResolutionView,
)
    requires
        creation.stage == (CreateStageView::ProbingFile { primary, resolution }),
    ensures
        ({
            let error = WorkerErrorView::BinaryEntrypoint {
                primary,
                fallback: FallbackErrorView::ModuleNotFound { specifier: resolution.url },
            };
            &&& creation.step(CreateEventView::FileExists(false)).1 == StepView::<
                CreateActionView,
                CliMainWorkerView,
            >::Finished(Err(error))
            &&& contains_text(error.message(), resolution.url)
            &&& contains_text(error.message(), "Cannot find module"@)
            &&& contains_text(error.message(), primary)
        }),
{
    let error = WorkerErrorView::BinaryEntrypoint {
        primary,
        fallback: FallbackErrorView::ModuleNotFound { specifier: resolution.url },
    };
    let message = error.message();
    let label = "\n\nFallback failed: "@;
    let words = "Cannot find module '"@;
    let close = "'"@;
    assert(message == primary + label + (words + resolution.url + close));
    reveal_strlit("Cannot find module '");
    reveal_strlit("Cannot find module");
    assert(stands_at(
        message,
        resolution.url,
        (primary.len() + label.len() + words.len()) as int,
    ));
    assert(stands_at(message, "Cannot find module"@, (primary.len() + label.len()) as int));
    assert(stands_at(message, primary, 0));
}

/// A fallback that arrives at a module whose URL names no file path has no
/// file on disk: nothing is looked for, and the making ends as it does for a
/// file that is not there.
pub proof fn law_fallback_without_file_path_is_not_found(
    creation: WorkerCreationView,
    primary: Seq<char>,
    resolution: NodeResolutionView,
)
    requires
        creation.stage == (CreateStageView::ResolvingPackageSubpath { primary }),
        resolution.kind != NodeModuleKind::BuiltIn,
        resolution.file_path is None,
    ensures
        creation.step(CreateEventView::SubpathResolved(Ok(Some(resolution)))).1 == StepView::<
            CreateActionView,
            CliMainWorkerView,
        >::Finished(
            Err(
                WorkerErrorView::BinaryEntrypoint {
                    primary,
                    fallback: FallbackErrorView::ModuleNotFound { specifier: resolution.url },
                },
            ),
        ),
{
}

/// Both failures of a search that failed twice are reported together: the
/// text holds the primary failure, then the fallback's behind its label.
pub proof fn law_failed_fallback_reports_both(
    creation: WorkerCreationView,
    primary: Seq<char>,
    fallback: Seq<char>,
)
    requires
        creation.stage == (CreateStageView::ResolvingPackageSubpath { primary }),
    ensures
        ({
            let error = WorkerErrorView::BinaryEntrypoint {
                primary,
                fallback: FallbackErrorView::Resolution(fallback),
            };
            &&& creation.step(CreateEventView::SubpathResolved(Err(fallback))).1 == StepView::<
                CreateActionView,
                CliMainWorkerView,
            >::Finished(Err(error))
            &&& error.message() == primary + "\n\nFallback failed: "@ + fallback
        }),
{
}

/// Where a lockfile is configured, the entry point of a package is not
/// brought up before the lockfile was persisted, and a lockfile that cannot
/// be persisted ends the making.
pub proof fn law_lockfile_written_before_bootstrap(
    creation: WorkerCreationView,
    resolution: NodeResolutionView,
    text: Seq<char>,
)
    requires
        creation.shared.has_lockfile,
    ensures
        creation.entry_point_found(resolution).1 == StepView::<
            CreateActionView,
            CliMainWorkerView,
        >::Perform(CreateActionView::WriteLockfile),
        creation.entry_point_found(resolution).0.step(CreateEventView::Completed(Err(text))).1
            == StepView::<CreateActionView, CliMainWorkerView>::Finished(
            Err(WorkerErrorView::LockfileWrite(text)),
        ),
{
}

/// The engine is brought up for the module that the resolution arrived at,
/// loaded as it was classified, with the storage folders of its origin: the
/// cache folder below the folder for temporary files, and the data folder
/// below the configured one. An origin without a key has neither.
pub proof fn law_unit_is_brought_up_with_its_storage(
    creation: WorkerCreationView,
    main_module: Seq<char>,
    is_main_cjs: bool,
    file_path: Option<Seq<char>>,
    storage_key: Option<Seq<char>>,
)
    requires
        creation.stage == (CreateStageView::ResolvingStorageKey {
            main_module,
            is_main_cjs,
            file_path,
        }),
        creation.can_store(storage_key),
    ensures
        creation.step(CreateEventView::StorageKey(storage_key)).0.stage
            == (CreateStageView::Bootstrapping { main_module, is_main_cjs, file_path }),
        creation.step(CreateEventView::StorageKey(storage_key)).1 == StepView::<
            CreateActionView,
            CliMainWorkerView,
        >::Perform(
            CreateActionView::Bootstrap {
                main_module,
                options: main_worker_options(creation.shared, creation.environment, storage_key),
            },
        ),
        storage_key is None ==> main_worker_options(
            creation.shared,
            creation.environment,
            storage_key,
        ).cache_storage_dir is None && main_worker_options(
            creation.shared,
            creation.environment,
            storage_key,
        ).origin_storage_dir is None,
        storage_key is Some ==> main_worker_options(
            creation.shared,
            creation.environment,
            storage_key,
        ).cache_storage_dir is Some && main_worker_options(
            creation.shared,
            creation.environment,
            storage_key,
        ).origin_storage_dir is Some,
{
}

/// A module that is neither a package reference, nor flagged as an npm main
/// module, nor inside an installed package tree is the entry point as it is,
/// and is never loaded through the CommonJS loader.
pub proof fn law_plain_module_is_taken_as_is(creation: WorkerCreationView)
    requires
        creation.stage is Created,
        !creation.shared.options.is_npm_main,
    ensures
        ({
            let asked = creation.begin(None);
            let entered = asked.0.step(CreateEventView::InNpmPackage(false));
            &&& asked.1 == StepView::<CreateActionView, CliMainWorkerView>::Perform(
                CreateActionView::CheckInNpmPackage { specifier: creation.main_module },
            )
            &&& entered.0.stage == (CreateStageView::ResolvingStorageKey {
                main_module: creation.main_module,
                is_main_cjs: false,
                file_path: None,
            })
        }),
{
}

/// The shared configuration, the requested module and the host's
/// environment stay what they are throughout a making.
pub proof fn law_making_keeps_its_inputs(creation: WorkerCreationView, event: CreateEventView)
    ensures
        creation.step(event).0.shared == creation.shared,
        creation.step(event).0.main_module == creation.main_module,
        creation.step(event).0.environment == creation.environment,
{
}

/// A module that is flagged as an npm main module, or that lies inside an
/// installed package tree, is resolved the node way, and the unit starts
/// from what that arrives at, classified as it says.
pub proof fn law_package_tree_module_is_resolved_node_way(
    creation: WorkerCreationView,
    resolution: NodeResolutionView,
)
    requires
        creation.stage is Created,
    ensures
        ({
            let asked = if creation.shared.options.is_npm_main {
                creation.begin(None)
            } else {
                creation.begin(None).0.step(CreateEventView::InNpmPackage(true))
            };
            let entered = asked.0.step(CreateEventView::Resolved(Ok(resolution)));
            &&& asked.1 == StepView::<CreateActionView, CliMainWorkerView>::Perform(
                CreateActionView::UrlToNodeResolution { specifier: creation.main_module },
            )
            &&& entered.0.stage == (CreateStageView::ResolvingStorageKey {
                main_module: resolution.url,
                is_main_cjs: resolution.kind == NodeModuleKind::CommonJs,
                file_path: resolution.file_path,
            })
        }),
{
}

/// A finished making asks for nothing more, whatever it is told.
pub proof fn lemma_finished_stage_rests(creation: WorkerCreationView, later: CreateEventView)
    requires
        creation.stage is Finished,
    ensures
        creation.step(later) == (creation, StepView::<CreateActionView, CliMainWorkerView>::Ignored),
{
}

/// A making that ends is finished.
#[verifier::rlimit(50)]
pub proof fn lemma_ended_making_is_finished(creation: WorkerCreationView, event: CreateEventView)
    requires
        creation.step(event).1 is Finished,
    ensures
        creation.step(event).0.stage is Finished,
{
    if creation.stage is Created {
    } else {
        assert(creation.step(event) == creation.advance(event));
        match creation.stage {
            CreateStageView::ReadingWorkingDirectory { .. } => {},
            CreateStageView::ResolvingBinaryExport { .. } => {},
            CreateStageView::ResolvingPackageSubpath { .. } => {},
            CreateStageView::ProbingFile { .. } => {},
            _ => {},
        }
    }
}

/// A making that ends, ends for good: it is finished, and asks for nothing
/// more whatever it is told.
pub proof fn law_finished_making_rests(
    creation: WorkerCreationView,
    event: CreateEventView,
    later: CreateEventView,
)
    requires
        creation.step(event).1 is Finished,
    ensures
        creation.step(event).0.stage is Finished,
        creation.step(event).0.step(later) == (
            creation.step(event).0,
            StepView::<CreateActionView, CliMainWorkerView>::Ignored,
        ),
{
    lemma_ended_making_is_finished(creation, event);
    lemma_finished_stage_rests(creation.step(event).0, later);
}

/// The unit that a making ends with is idle, shares the factory's
/// configuration, and starts from the module that the engine was brought up
/// for, loaded as that module was classified.
pub proof fn law_unit_is_what_was_brought_up(
    creation: WorkerCreationView,
    event: CreateEventView,
    unit: CliMainWorkerView,
)
    requires
        creation.step(event).1 == StepView::<CreateActionView, CliMainWorkerView>::Finished(
            Ok(unit),
        ),
    ensures
        unit.activity == Activity::Idle,
        unit.shared == creation.shared,
        creation.stage matches CreateStageView::Bootstrapping {
            main_module,
            is_main_cjs,
            file_path,
        } ==> unit.main_module == main_module && unit.is_main_cjs == is_main_cjs
            && unit.file_path == file_path,
        creation.stage matches CreateStageView::LoadingTestModules {
            main_module,
            is_main_cjs,
            file_path,
        } ==> unit.main_module == main_module && unit.is_main_cjs == is_main_cjs
            && unit.file_path == file_path,
        creation.stage is Bootstrapping || creation.stage is LoadingTestModules,
{
}

/// The making after it was advanced by each of the events in turn.
pub open spec fn making_state(creation: WorkerCreationView, events: Seq<CreateEventView>) -> WorkerCreationView
    decreases events.len(),
{
    if events.len() == 0 {
        creation
    } else {
        making_state(creation, events.drop_last()).step(events.last()).0
    }
}

/// The actions that the making asked for while it was advanced by each of
/// the events in turn, in the order in which it asked.
pub open spec fn making_actions(creation: WorkerCreationView, events: Seq<CreateEventView>) -> Seq<
    CreateActionView,
>
    decreases events.len(),
{
    if events.len() == 0 {
        Seq::empty()
    } else {
        let before = making_actions(creation, events.drop_last());
        match making_state(creation, events.drop_last()).step(events.last()).1 {
            StepView::Perform(action) => before.push(action),
            _ => before,
        }
    }
}

/// Whether the stage belongs to the search for a package's entry point,
/// before its lockfile is written.
pub open spec fn in_package_search(stage: CreateStageView) -> bool {
    stage is RegisteringPackage || stage is ReadingWorkingDirectory || stage
        is ResolvingPackageFolder || stage is ResolvingBinaryExport || stage
        is ResolvingPackageSubpath || stage is ProbingFile
}

/// Whether the engine is brought up, or was, in this stage.
pub open spec fn bringing_up(stage: CreateStageView) -> bool {
    stage is Bootstrapping || stage is LoadingTestModules
}

/// What links a making to the actions it has asked for.
pub open spec fn making_invariant(
    creation: WorkerCreationView,
    actions: Seq<CreateActionView>,
) -> bool {
    let searched = exists|i: int| 0 <= i < actions.len() && #[trigger] actions[i] is ResolvePackageFolder;
    let written = exists|i: int| 0 <= i < actions.len() && #[trigger] actions[i] is WriteLockfile;
    let brought_up = exists|i: int| 0 <= i < actions.len() && #[trigger] actions[i] is Bootstrap;
    &&& creation.stage is Created ==> actions.len() == 0
    &&& (in_package_search(creation.stage) || creation.stage is WritingLockfile
        || creation.stage is CheckingNpmPackage || creation.stage is ResolvingNodeModule
        || creation.stage is ResolvingStorageKey) ==> !brought_up
    &&& creation.stage is ResolvingStorageKey && searched && creation.shared.has_lockfile
        ==> written
    &&& (creation.stage is CheckingNpmPackage || creation.stage is ResolvingNodeModule)
        ==> !searched
    &&& creation.stage is WritingLockfile ==> written
    &&& brought_up && searched && creation.shared.has_lockfile ==> written
    &&& forall|i: int, j: int|
        #![trigger actions[i], actions[j]]
        0 <= i < j < actions.len() && actions[i] is Bootstrap ==> !(actions[j] is Bootstrap)
            && !(actions[j] is WriteLockfile)
    &&& brought_up ==> bringing_up(creation.stage) || creation.stage is Finished
}

/// One event keeps the link between a making and the actions it has asked
/// for.
#[verifier::rlimit(50)]
proof fn lemma_making_invariant_step(
    creation: WorkerCreationView,
    actions: Seq<CreateActionView>,
    event: CreateEventView,
)
    requires
        making_invariant(creation, actions),
    ensures
        making_invariant(
            creation.step(event).0,
            match creation.step(event).1 {
                StepView::Perform(action) => actions.push(action),
                _ => actions,
            },
        ),
{
    let (next, step) = creation.step(event);
    match step {
        StepView::Perform(action) => {
            let longer = actions.push(action);
            let at = actions.len() as int;
            assert(longer[at] == action);
            assert forall|i: int| 0 <= i < actions.len() implies longer[i] == actions[i] by {}
            if exists|i: int| 0 <= i < actions.len() && #[trigger] actions[i] is WriteLockfile {
                let i = choose|i: int| 0 <= i < actions.len() && #[trigger] actions[i] is WriteLockfile;
                assert(longer[i] is WriteLockfile);
            }
            if exists|i: int| 0 <= i < longer.len() && #[trigger] longer[i] is Bootstrap {
                let i = choose|i: int| 0 <= i < longer.len() && #[trigger] longer[i] is Bootstrap;
                if i < at {
                    assert(actions[i] is Bootstrap);
                }
            }
            if exists|i: int| 0 <= i < longer.len() && #[trigger] longer[i] is ResolvePackageFolder {
                let i = choose|i: int|
                    0 <= i < longer.len() && #[trigger] longer[i] is ResolvePackageFolder;
                if i < at {
                    assert(actions[i] is ResolvePackageFolder);
                }
            }
            assert forall|i: int, j: int|
                #![trigger longer[i], longer[j]]
                0 <= i < j < longer.len() && longer[i] is Bootstrap implies !(longer[j]
                    is Bootstrap) && !(longer[j] is WriteLockfile) by {
                assert(actions[i] is Bootstrap);
                if j < at {
                    assert(longer[j] == actions[j]);
                }
            }
        },
        _ => {},
    }
}

/// A making that has not begun keeps, event by event, the link between its
/// stage and the actions it has asked for.
pub proof fn lemma_making_invariant(creation: WorkerCreationView, events: Seq<CreateEventView>)
    requires
        creation.stage is Created,
    ensures
        making_invariant(making_state(creation, events), making_actions(creation, events)),
    decreases events.len(),
{
    if events.len() > 0 {
        lemma_making_invariant(creation, events.drop_last());
        lemma_making_invariant_step(
            making_state(creation, events.drop_last()),
            making_actions(creation, events.drop_last()),
            events.last(),
        );
    }
}

/// Where a lockfile is configured, a unit that starts from a package is
/// never brought up before the lockfile was persisted; and no unit is brought
/// up twice.
pub proof fn law_package_unit_is_locked_first(
    creation: WorkerCreationView,
    events: Seq<CreateEventView>,
    searched: int,
    brought_up: int,
)
    requires
        creation.stage is Created,
        0 <= searched < making_actions(creation, events).len(),
        making_actions(creation, events)[searched] is ResolvePackageFolder,
        0 <= brought_up < making_actions(creation, events).len(),
        making_actions(creation, events)[brought_up] is Bootstrap,
    ensures
        creation.shared.has_lockfile ==> exists|written: int|
            0 <= written < brought_up && #[trigger] making_actions(creation, events)[written]
                is WriteLockfile,
        forall|other: int|
            0 <= other < making_actions(creation, events).len() && #[trigger] making_actions(
                creation,
                events,
            )[other] is Bootstrap ==> other == brought_up,
{
    lemma_making_invariant(creation, events);
    lemma_making_keeps_shared(creation, events);
    let actions = making_actions(creation, events);
    if creation.shared.has_lockfile {
        let written = choose|i: int| 0 <= i < actions.len() && #[trigger] actions[i] is WriteLockfile;
        if brought_up < written {
            assert(!(actions[written] is WriteLockfile));
        }
        assert(written != brought_up);
    }
    assert forall|other: int|
        0 <= other < actions.len() && #[trigger] actions[other] is Bootstrap implies other
        == brought_up by {
        if other < brought_up {
            assert(!(actions[brought_up] is Bootstrap));
        } else if brought_up < other {
            assert(!(actions[other] is Bootstrap));
        }
    }
}

/// The shared configuration stays what it is along a making.
pub proof fn lemma_making_keeps_shared(creation: WorkerCreationView, events: Seq<CreateEventView>)
    ensures
        making_state(creation, events).shared == creation.shared,
        making_state(creation, events).main_module == creation.main_module,
    decreases events.len(),
{
    if events.len() > 0 {
        lemma_making_keeps_shared(creation, events.drop_last());
    }
}

} // verus!
