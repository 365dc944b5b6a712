//! The making of a unit: where its module really starts, and what it is
//! brought up with.

use vstd::prelude::*;
use std::sync::Arc;
use crate::error::{FallbackError, FallbackErrorView, WorkerError, WorkerErrorView};
use crate::options::{
    cache_storage_dir, cache_storage_dir_of, origin_storage_dir_of, share, BootstrapOptions,
    BootstrapOptionsView, CliMainWorkerOptions, HostEnvironment, HostEnvironmentView,
    SharedWorkerState, SharedWorkerStateView, StorageDir, StorageDirView,
};
use crate::package::{
    pin_wildcard_version, pinned_reference, reference_in, NpmPackageReqReference,
    NpmPackageReqReferenceView, PackageReq, PackageReqView,
};
use crate::protocol::{outcome_view, Step, StepView};
use crate::resolution::{
    directory_specifier, directory_url, optional_resolution_view, resolution_view, text_view,
    NodeModuleKind, NodeResolution, NodeResolutionView, Referrer, ReferrerView,
};
use crate::text::{clone_optional_text, clone_optional_texts, clone_text};
use crate::web_worker::{
    create_web_worker_callback, ModuleLoaderKind, WebWorkerCallback, WebWorkerCallbackView,
};
use crate::worker::{Activity, CliMainWorker, CliMainWorkerView};

verus! {

/// The settings that a root unit is brought up with.
#[derive(Debug, PartialEq, Eq)]
pub struct WorkerOptions {
    pub bootstrap: BootstrapOptions,
    pub unsafely_ignore_certificate_errors: Option<Vec<String>>,
    pub seed: Option<u64>,
    pub should_break_on_first_statement: bool,
    pub should_wait_for_inspector_session: bool,
    pub strace_ops: Option<Vec<String>>,
    pub skip_op_registration: bool,
    pub module_loader: ModuleLoaderKind,
    pub cache_storage_dir: Option<StorageDir>,
    pub origin_storage_dir: Option<StorageDir>,
    pub create_web_worker_cb: WebWorkerCallback,
}

pub struct WorkerOptionsView {
    pub bootstrap: BootstrapOptionsView,
    pub unsafely_ignore_certificate_errors: Option<Seq<Seq<char>>>,
    pub seed: Option<u64>,
    pub should_break_on_first_statement: bool,
    pub should_wait_for_inspector_session: bool,
    pub strace_ops: Option<Seq<Seq<char>>>,
    pub skip_op_registration: bool,
    pub module_loader: ModuleLoaderKind,
    pub cache_storage_dir: Option<StorageDirView>,
    pub origin_storage_dir: Option<StorageDirView>,
    pub create_web_worker_cb: WebWorkerCallbackView,
}

impl View for WorkerOptions {
    type V = WorkerOptionsView;

    open spec fn view(&self) -> WorkerOptionsView {
        WorkerOptionsView {
            bootstrap: self.bootstrap@,
            unsafely_ignore_certificate_errors: self.unsafely_ignore_certificate_errors.deep_view(),
            seed: self.seed,
            should_break_on_first_statement: self.should_break_on_first_statement,
            should_wait_for_inspector_session: self.should_wait_for_inspector_session,
            strace_ops: self.strace_ops.deep_view(),
            skip_op_registration: self.skip_op_registration,
            module_loader: self.module_loader,
            cache_storage_dir: self.cache_storage_dir.deep_view(),
            origin_storage_dir: self.origin_storage_dir.deep_view(),
            create_web_worker_cb: self.create_web_worker_cb@,
        }
    }
}

/// The settings of a root unit whose module's origin has the given storage
/// key: the shared ones with the host's environment, located where the
/// command line says and with the process's inter-process channel; the loader
/// for root units; the folders for the origin's data and for the cache; and
/// the capability to spawn nested units from the same shared configuration.
pub open spec fn main_worker_options(
    shared: SharedWorkerStateView,
    environment: HostEnvironmentView,
    storage_key: Option<Seq<char>>,
) -> WorkerOptionsView {
    WorkerOptionsView {
        bootstrap: shared.bootstrap_options(environment, shared.options.location, shared.node_ipc),
        unsafely_ignore_certificate_errors: shared.options.unsafely_ignore_certificate_errors,
        seed: shared.options.seed,
        should_break_on_first_statement: shared.options.inspect_brk,
        should_wait_for_inspector_session: shared.options.inspect_wait,
        strace_ops: shared.options.strace_ops,
        skip_op_registration: shared.options.skip_op_registration,
        module_loader: ModuleLoaderKind::Main,
        cache_storage_dir: cache_storage_dir_of(environment, storage_key),
        origin_storage_dir: origin_storage_dir_of(shared, storage_key),
        create_web_worker_cb: WebWorkerCallbackView { shared },
    }
}

/// What a driver reports back to the making of a unit.
#[derive(Debug, PartialEq, Eq)]
pub enum CreateEvent {
    /// The making is to begin.
    Start,
    /// The action that was asked for is done, or has failed.
    Completed(Result<(), String>),
    /// The path of the current working directory, or why it cannot be told.
    WorkingDirectory(Result<String, String>),
    /// The path of the package's folder on disk, or why it was not found.
    PackageFolder(Result<String, String>),
    /// The module that the resolver arrived at, or why it arrived at none.
    Resolved(Result<NodeResolution, String>),
    /// What the generic subpath resolution arrived at, if anything, or why
    /// it failed.
    SubpathResolved(Result<Option<NodeResolution>, String>),
    /// Whether the module names a file that is on disk.
    FileExists(bool),
    /// Whether the module lies inside an installed package tree.
    InNpmPackage(bool),
    /// The checksum of the key under which the module's origin stores its
    /// data, where it has one.
    StorageKey(Option<String>),
}

pub enum CreateEventView {
    Start,
    Completed(Result<(), Seq<char>>),
    WorkingDirectory(Result<Seq<char>, Seq<char>>),
    PackageFolder(Result<Seq<char>, Seq<char>>),
    Resolved(Result<NodeResolutionView, Seq<char>>),
    SubpathResolved(Result<Option<NodeResolutionView>, Seq<char>>),
    FileExists(bool),
    InNpmPackage(bool),
    StorageKey(Option<Seq<char>>),
}

impl View for CreateEvent {
    type V = CreateEventView;

    open spec fn view(&self) -> CreateEventView {
        match self {
            CreateEvent::Start => CreateEventView::Start,
            CreateEvent::Completed(outcome) => CreateEventView::Completed(outcome_view(*outcome)),
            CreateEvent::WorkingDirectory(outcome) => CreateEventView::WorkingDirectory(
                text_view(*outcome),
            ),
            CreateEvent::PackageFolder(outcome) => CreateEventView::PackageFolder(
                text_view(*outcome),
            ),
            CreateEvent::Resolved(outcome) => CreateEventView::Resolved(resolution_view(*outcome)),
            CreateEvent::SubpathResolved(outcome) => CreateEventView::SubpathResolved(
                optional_resolution_view(*outcome),
            ),
            CreateEvent::FileExists(exists) => CreateEventView::FileExists(*exists),
            CreateEvent::InNpmPackage(inside) => CreateEventView::InNpmPackage(*inside),
            CreateEvent::StorageKey(key) => CreateEventView::StorageKey(key.deep_view()),
        }
    }
}

/// What the making of a unit asks its driver to do.
#[derive(Debug, PartialEq, Eq)]
#[allow(inconsistent_fields)]
pub enum CreateAction {
    /// Register the requirement with the package resolver, which may install
    /// the package.
    AddPackageReqs { req: PackageReq },
    /// Tell the current working directory.
    GetWorkingDirectory,
    /// Find the folder of the required package on disk, as seen from the
    /// referrer.
    ResolvePackageFolder { req: PackageReq, referrer: Referrer },
    /// Resolve the binary export that the package declares for the subpath.
    ResolveBinaryExport { package_folder: String, sub_path: Option<String> },
    /// Resolve the subpath of the package as any import of it would be
    /// resolved for execution, as seen from the referrer.
    ResolvePackageSubpath { package_folder: String, sub_path: String, referrer: Referrer },
    /// Tell whether the module names a file that is on disk.
    ProbeFile { specifier: String },
    /// Persist the lockfile.
    WriteLockfile,
    /// Tell whether the module lies inside an installed package tree.
    CheckInNpmPackage { specifier: String },
    /// Resolve the module as the node-style resolver does.
    UrlToNodeResolution { specifier: String },
    /// Tell the checksum of the key under which the module's origin stores
    /// its data.
    ResolveStorageKey { specifier: String },
    /// Bring the engine up for the module with these settings.
    Bootstrap { main_module: String, options: WorkerOptions },
    /// Load the modules that tests need into the engine.
    LoadTestModules,
}

#[allow(inconsistent_fields)]
pub enum CreateActionView {
    AddPackageReqs { req: PackageReqView },
    GetWorkingDirectory,
    ResolvePackageFolder { req: PackageReqView, referrer: ReferrerView },
    ResolveBinaryExport { package_folder: Seq<char>, sub_path: Option<Seq<char>> },
    ResolvePackageSubpath { package_folder: Seq<char>, sub_path: Seq<char>, referrer: ReferrerView },
    ProbeFile { specifier: Seq<char> },
    WriteLockfile,
    CheckInNpmPackage { specifier: Seq<char> },
    UrlToNodeResolution { specifier: Seq<char> },
    ResolveStorageKey { specifier: Seq<char> },
    Bootstrap { main_module: Seq<char>, options: WorkerOptionsView },
    LoadTestModules,
}

impl View for CreateAction {
    type V = CreateActionView;

    open spec fn view(&self) -> CreateActionView {
        match self {
            CreateAction::AddPackageReqs { req } => CreateActionView::AddPackageReqs { req: req@ },
            CreateAction::GetWorkingDirectory => CreateActionView::GetWorkingDirectory,
            CreateAction::ResolvePackageFolder {
                req,
                referrer,
            } => CreateActionView::ResolvePackageFolder { req: req@, referrer: referrer@ },
            CreateAction::ResolveBinaryExport {
                package_folder,
                sub_path,
            } => CreateActionView::ResolveBinaryExport {
                package_folder: package_folder@,
                sub_path: sub_path.deep_view(),
            },
            CreateAction::ResolvePackageSubpath {
                package_folder,
                sub_path,
                referrer,
            } => CreateActionView::ResolvePackageSubpath {
                package_folder: package_folder@,
                sub_path: sub_path@,
                referrer: referrer@,
            },
            CreateAction::ProbeFile { specifier } => CreateActionView::ProbeFile {
                specifier: specifier@,
            },
            CreateAction::WriteLockfile => CreateActionView::WriteLockfile,
            CreateAction::CheckInNpmPackage { specifier } => CreateActionView::CheckInNpmPackage {
                specifier: specifier@,
            },
            CreateAction::UrlToNodeResolution {
                specifier,
            } => CreateActionView::UrlToNodeResolution { specifier: specifier@ },
            CreateAction::ResolveStorageKey { specifier } => CreateActionView::ResolveStorageKey {
                specifier: specifier@,
            },
            CreateAction::Bootstrap { main_module, options } => CreateActionView::Bootstrap {
                main_module: main_module@,
                options: options@,
            },
            CreateAction::LoadTestModules => CreateActionView::LoadTestModules,
        }
    }
}

/// How far the making of a unit has come: the outcome that it waits for, and
/// what it has found so far.
#[derive(Debug, PartialEq, Eq)]
pub enum CreateStage {
    Created,
    RegisteringPackage { reference: NpmPackageReqReference },
    ReadingWorkingDirectory { reference: NpmPackageReqReference },
    ResolvingPackageFolder { reference: NpmPackageReqReference },
    ResolvingBinaryExport { package_folder: String, sub_path: Option<String> },
    ResolvingPackageSubpath { primary: String },
    ProbingFile { primary: String, resolution: NodeResolution },
    WritingLockfile { resolution: NodeResolution },
    CheckingNpmPackage,
    ResolvingNodeModule,
    ResolvingStorageKey { main_module: String, is_main_cjs: bool, file_path: Option<String> },
    Bootstrapping { main_module: String, is_main_cjs: bool, file_path: Option<String> },
    LoadingTestModules { main_module: String, is_main_cjs: bool, file_path: Option<String> },
    Finished,
}

pub enum CreateStageView {
    Created,
    RegisteringPackage { reference: NpmPackageReqReferenceView },
    ReadingWorkingDirectory { reference: NpmPackageReqReferenceView },
    ResolvingPackageFolder { reference: NpmPackageReqReferenceView },
    ResolvingBinaryExport { package_folder: Seq<char>, sub_path: Option<Seq<char>> },
    ResolvingPackageSubpath { primary: Seq<char> },
    ProbingFile { primary: Seq<char>, resolution: NodeResolutionView },
    WritingLockfile { resolution: NodeResolutionView },
    CheckingNpmPackage,
    ResolvingNodeModule,
    ResolvingStorageKey { main_module: Seq<char>, is_main_cjs: bool, file_path: Option<Seq<char>> },
    Bootstrapping { main_module: Seq<char>, is_main_cjs: bool, file_path: Option<Seq<char>> },
    LoadingTestModules { main_module: Seq<char>, is_main_cjs: bool, file_path: Option<Seq<char>> },
    Finished,
}

impl View for CreateStage {
    type V = CreateStageView;

    open spec fn view(&self) -> CreateStageView {
        match self {
            CreateStage::Created => CreateStageView::Created,
            CreateStage::RegisteringPackage { reference } => CreateStageView::RegisteringPackage {
                reference: reference@,
            },
            CreateStage::ReadingWorkingDirectory {
                reference,
            } => CreateStageView::ReadingWorkingDirectory { reference: reference@ },
            CreateStage::ResolvingPackageFolder {
                reference,
            } => CreateStageView::ResolvingPackageFolder { reference: reference@ },
            CreateStage::ResolvingBinaryExport {
                package_folder,
                sub_path,
            } => CreateStageView::ResolvingBinaryExport {
                package_folder: package_folder@,
                sub_path: sub_path.deep_view(),
            },
            CreateStage::ResolvingPackageSubpath {
                primary,
            } => CreateStageView::ResolvingPackageSubpath { primary: primary@ },
            CreateStage::ProbingFile { primary, resolution } => CreateStageView::ProbingFile {
                primary: primary@,
                resolution: resolution@,
            },
            CreateStage::WritingLockfile { resolution } => CreateStageView::WritingLockfile {
                resolution: resolution@,
            },
            CreateStage::CheckingNpmPackage => CreateStageView::CheckingNpmPackage,
            CreateStage::ResolvingNodeModule => CreateStageView::ResolvingNodeModule,
            CreateStage::ResolvingStorageKey {
                main_module,
                is_main_cjs,
                file_path,
            } => CreateStageView::ResolvingStorageKey {
                main_module: main_module@,
                is_main_cjs: *is_main_cjs,
                file_path: file_path.deep_view(),
            },
            CreateStage::Bootstrapping {
                main_module,
                is_main_cjs,
                file_path,
            } => CreateStageView::Bootstrapping {
                main_module: main_module@,
                is_main_cjs: *is_main_cjs,
                file_path: file_path.deep_view(),
            },
            CreateStage::LoadingTestModules {
                main_module,
                is_main_cjs,
                file_path,
            } => CreateStageView::LoadingTestModules {
                main_module: main_module@,
                is_main_cjs: *is_main_cjs,
                file_path: file_path.deep_view(),
            },
            CreateStage::Finished => CreateStageView::Finished,
        }
    }
}

/// The making of one unit from a requested module.
#[derive(Debug, PartialEq, Eq)]
pub struct WorkerCreation {
    shared: Arc<SharedWorkerState>,
    main_module: String,
    environment: HostEnvironment,
    stage: CreateStage,
}

pub struct WorkerCreationView {
    pub shared: SharedWorkerStateView,
    pub main_module: Seq<char>,
    pub environment: HostEnvironmentView,
    pub stage: CreateStageView,
}

impl View for WorkerCreation {
    type V = WorkerCreationView;

    closed spec fn view(&self) -> WorkerCreationView {
        WorkerCreationView {
            shared: self.shared@,
            main_module: self.main_module@,
            environment: self.environment@,
            stage: self.stage@,
        }
    }
}

/// The name of the manifest file that the referrer for finding a package's
/// folder is made up with.
pub open spec fn manifest_file_name() -> Seq<char> {
    "package.json"@
}

impl WorkerCreationView {
    /// The making in `stage`.
    pub open spec fn at(self, stage: CreateStageView) -> WorkerCreationView {
        WorkerCreationView { stage, ..self }
    }

    /// A making that ends here with `error`.
    pub open spec fn fail(self, error: WorkerErrorView) -> (WorkerCreationView, StepView<
        CreateActionView,
        CliMainWorkerView,
    >) {
        (self.at(CreateStageView::Finished), StepView::Finished(Err(error)))
    }

    /// The unit that the making ends with.
    pub open spec fn unit(
        self,
        main_module: Seq<char>,
        is_main_cjs: bool,
        file_path: Option<Seq<char>>,
    ) -> CliMainWorkerView {
        CliMainWorkerView {
            main_module,
            is_main_cjs,
            file_path,
            shared: self.shared,
            activity: Activity::Idle,
            failure: None,
        }
    }

    /// The beginning of a making whose module reads as `reference` in the
    /// registry's grammar.
    ///
    /// A reference is registered, located and searched for its binary entry
    /// point; its wildcard version is first replaced by what the root
    /// manifest requires of the same package. It is registered with a
    /// resolver that installs what it is asked for; any other resolver has
    /// nothing to register. Any other module is resolved the node way if it
    /// is flagged as an npm main module or lies inside an installed package
    /// tree, and is else taken as it is.
    pub open spec fn begin(self, reference: Option<NpmPackageReqReferenceView>) -> (
        WorkerCreationView,
        StepView<CreateActionView, CliMainWorkerView>,
    ) {
        if !(self.stage is Created) {
            (self, StepView::Ignored)
        } else {
            match reference {
                Some(reference) => {
                    let reference = pinned_reference(
                        reference,
                        self.shared.options.maybe_root_package_json_deps,
                    );
                    if self.shared.npm_resolver_is_managed {
                        (
                            self.at(CreateStageView::RegisteringPackage { reference }),
                            StepView::Perform(
                                CreateActionView::AddPackageReqs { req: reference.req },
                            ),
                        )
                    } else {
                        self.read_working_directory(reference)
                    }
                },
                None => if self.shared.options.is_npm_main {
                    self.resolve_node_module()
                } else {
                    (
                        self.at(CreateStageView::CheckingNpmPackage),
                        StepView::Perform(
                            CreateActionView::CheckInNpmPackage { specifier: self.main_module },
                        ),
                    )
                },
            }
        }
    }

    /// After the registration: the working directory is asked for.
    pub open spec fn read_working_directory(self, reference: NpmPackageReqReferenceView) -> (
        WorkerCreationView,
        StepView<CreateActionView, CliMainWorkerView>,
    ) {
        (
            self.at(CreateStageView::ReadingWorkingDirectory { reference }),
            StepView::Perform(CreateActionView::GetWorkingDirectory),
        )
    }

    /// The module is resolved the node way.
    pub open spec fn resolve_node_module(self) -> (WorkerCreationView, StepView<
        CreateActionView,
        CliMainWorkerView,
    >) {
        (
            self.at(CreateStageView::ResolvingNodeModule),
            StepView::Perform(CreateActionView::UrlToNodeResolution { specifier: self.main_module }),
        )
    }

    /// The search for the package's folder, given the working directory and
    /// its `file:` URL: the folder is looked for as seen from a manifest in
    /// the working directory, which need not be there. A working directory
    /// without a URL ends the making.
    pub open spec fn refer_to_working_directory(
        self,
        reference: NpmPackageReqReferenceView,
        directory: Seq<char>,
        url: Option<Seq<char>>,
    ) -> (WorkerCreationView, StepView<CreateActionView, CliMainWorkerView>) {
        match url {
            Some(url) => (
                self.at(CreateStageView::ResolvingPackageFolder { reference }),
                StepView::Perform(
                    CreateActionView::ResolvePackageFolder {
                        req: reference.req,
                        referrer: ReferrerView { directory: url, file: Some(manifest_file_name()) },
                    },
                ),
            ),
            None => self.fail(WorkerErrorView::NoReferrer { directory }),
        }
    }

    /// What the search for a binary entry point comes to once the package's
    /// declared binary export was looked for, given the `file:` URL of the
    /// package's folder. Where the export was found, it is the entry point.
    /// Where it was not, the generic subpath resolution is tried if and only
    /// if a subpath was written, as seen from the package's folder; a folder
    /// without a URL then ends the making. Without a subpath the failure
    /// stands as it is, and the folder's URL is not looked at.
    pub open spec fn resolve_binary_entrypoint(
        self,
        package_folder: Seq<char>,
        sub_path: Option<Seq<char>>,
        primary: Result<NodeResolutionView, Seq<char>>,
        folder_url: Option<Seq<char>>,
    ) -> (WorkerCreationView, StepView<CreateActionView, CliMainWorkerView>) {
        match primary {
            Ok(resolution) => self.entry_point_found(resolution),
            Err(primary) => match sub_path {
                Some(sub_path) => match folder_url {
                    Some(url) => (
                        self.at(CreateStageView::ResolvingPackageSubpath { primary }),
                        StepView::Perform(
                            CreateActionView::ResolvePackageSubpath {
                                package_folder,
                                sub_path,
                                referrer: ReferrerView { directory: url, file: None },
                            },
                        ),
                    ),
                    None => self.fail(WorkerErrorView::NoReferrer { directory: package_folder }),
                },
                None => self.fail(WorkerErrorView::Resolution(primary)),
            },
        }
    }

    /// The making, told the working directory and given its `file:` URL.
    pub open spec fn given_working_directory(self, directory: Seq<char>, url: Option<Seq<char>>) -> (
        WorkerCreationView,
        StepView<CreateActionView, CliMainWorkerView>,
    ) {
        match self.stage {
            CreateStageView::ReadingWorkingDirectory {
                reference,
            } => self.refer_to_working_directory(reference, directory, url),
            _ => (self, StepView::Ignored),
        }
    }

    /// The making, told what came of the search for the declared binary
    /// export and given the `file:` URL of the package's folder.
    pub open spec fn given_binary_export(
        self,
        primary: Result<NodeResolutionView, Seq<char>>,
        folder_url: Option<Seq<char>>,
    ) -> (WorkerCreationView, StepView<CreateActionView, CliMainWorkerView>) {
        match self.stage {
            CreateStageView::ResolvingBinaryExport {
                package_folder,
                sub_path,
            } => self.resolve_binary_entrypoint(package_folder, sub_path, primary, folder_url),
            _ => (self, StepView::Ignored),
        }
    }

    /// What the search comes to once the generic subpath resolution was
    /// tried. Where it arrived at nothing, or at a module built into the
    /// runtime, the package has no binary entry point and the primary failure
    /// stands as it is. Where it arrived at a module whose URL names a file
    /// path, the file is looked for; a module whose URL names none has no
    /// file on disk. Where it failed, both failures are reported together.
    pub open spec fn resolve_binary_entrypoint_fallback(
        self,
        primary: Seq<char>,
        fallback: Result<Option<NodeResolutionView>, Seq<char>>,
    ) -> (WorkerCreationView, StepView<CreateActionView, CliMainWorkerView>) {
        match fallback {
            Ok(None) => self.fail(WorkerErrorView::Resolution(primary)),
            Ok(Some(resolution)) => if resolution.kind == NodeModuleKind::BuiltIn {
                self.fail(WorkerErrorView::Resolution(primary))
            } else if resolution.file_path is None {
                self.conclude_probe(primary, resolution, false)
            } else {
                (
                    self.at(CreateStageView::ProbingFile { primary, resolution }),
                    StepView::Perform(CreateActionView::ProbeFile { specifier: resolution.url }),
                )
            },
            Err(text) => self.fail(
                WorkerErrorView::BinaryEntrypoint {
                    primary,
                    fallback: FallbackErrorView::Resolution(text),
                },
            ),
        }
    }

    /// What the search comes to once the file of the fallback's module was
    /// looked for: the module is the entry point if its file is on disk, and
    /// is else reported as not found, together with the primary failure.
    pub open spec fn conclude_probe(
        self,
        primary: Seq<char>,
        resolution: NodeResolutionView,
        exists: bool,
    ) -> (WorkerCreationView, StepView<CreateActionView, CliMainWorkerView>) {
        if exists {
            self.entry_point_found(resolution)
        } else {
            self.fail(
                WorkerErrorView::BinaryEntrypoint {
                    primary,
                    fallback: FallbackErrorView::ModuleNotFound { specifier: resolution.url },
                },
            )
        }
    }

    /// After the entry point of a package was found: the lockfile is
    /// persisted where one is configured, before anything is brought up.
    pub open spec fn entry_point_found(self, resolution: NodeResolutionView) -> (
        WorkerCreationView,
        StepView<CreateActionView, CliMainWorkerView>,
    ) {
        if self.shared.has_lockfile {
            (
                self.at(CreateStageView::WritingLockfile { resolution }),
                StepView::Perform(CreateActionView::WriteLockfile),
            )
        } else {
            self.locate_storage(resolution.url, resolution.is_commonjs(), resolution.file_path)
        }
    }

    /// After the resolution: the storage key of the module's origin is asked
    /// for.
    pub open spec fn locate_storage(
        self,
        main_module: Seq<char>,
        is_main_cjs: bool,
        file_path: Option<Seq<char>>,
    ) -> (WorkerCreationView, StepView<CreateActionView, CliMainWorkerView>) {
        (
            self.at(CreateStageView::ResolvingStorageKey { main_module, is_main_cjs, file_path }),
            StepView::Perform(CreateActionView::ResolveStorageKey { specifier: main_module }),
        )
    }

    /// Whether the making can go on with the storage key: an origin with a
    /// key needs a data folder to be configured.
    pub open spec fn can_store(self, storage_key: Option<Seq<char>>) -> bool {
        storage_key is Some ==> self.shared.options.origin_data_folder_path is Some
    }

    /// After the storage key: the engine is brought up for the module.
    pub open spec fn bootstrap(
        self,
        main_module: Seq<char>,
        is_main_cjs: bool,
        file_path: Option<Seq<char>>,
        storage_key: Option<Seq<char>>,
    ) -> (WorkerCreationView, StepView<CreateActionView, CliMainWorkerView>) {
        (
            self.at(CreateStageView::Bootstrapping { main_module, is_main_cjs, file_path }),
            StepView::Perform(
                CreateActionView::Bootstrap {
                    main_module,
                    options: main_worker_options(self.shared, self.environment, storage_key),
                },
            ),
        )
    }

    /// The end of a making: an idle unit for the module.
    pub open spec fn finish(
        self,
        main_module: Seq<char>,
        is_main_cjs: bool,
        file_path: Option<Seq<char>>,
    ) -> (WorkerCreationView, StepView<CreateActionView, CliMainWorkerView>) {
        (
            self.at(CreateStageView::Finished),
            StepView::Finished(Ok(self.unit(main_module, is_main_cjs, file_path))),
        )
    }

    /// The making, advanced by one event whose answer does not depend on how
    /// the module reads in the registry's grammar.
    pub open spec fn advance(self, event: CreateEventView) -> (WorkerCreationView, StepView<
        CreateActionView,
        CliMainWorkerView,
    >) {
        match (self.stage, event) {
            (
                CreateStageView::RegisteringPackage { reference },
                CreateEventView::Completed(Ok(())),
            ) => self.read_working_directory(reference),
            (
                CreateStageView::RegisteringPackage { reference },
                CreateEventView::Completed(Err(text)),
            ) => self.fail(WorkerErrorView::Resolution(text)),
            (
                CreateStageView::ReadingWorkingDirectory { reference },
                CreateEventView::WorkingDirectory(Ok(directory)),
            ) => self.given_working_directory(directory, directory_url(directory)),
            (
                CreateStageView::ReadingWorkingDirectory { reference },
                CreateEventView::WorkingDirectory(Err(text)),
            ) => self.fail(WorkerErrorView::Resolution(text)),
            (
                CreateStageView::ResolvingPackageFolder { reference },
                CreateEventView::PackageFolder(Ok(package_folder)),
            ) => (
                self.at(
                    CreateStageView::ResolvingBinaryExport {
                        package_folder,
                        sub_path: reference.sub_path,
                    },
                ),
                StepView::Perform(
                    CreateActionView::ResolveBinaryExport {
                        package_folder,
                        sub_path: reference.sub_path,
                    },
                ),
            ),
            (
                CreateStageView::ResolvingPackageFolder { reference },
                CreateEventView::PackageFolder(Err(text)),
            ) => self.fail(WorkerErrorView::Resolution(text)),
            (
                CreateStageView::ResolvingBinaryExport { package_folder, sub_path },
                CreateEventView::Resolved(primary),
            ) => self.given_binary_export(primary, directory_url(package_folder)),
            (
                CreateStageView::ResolvingPackageSubpath { primary },
                CreateEventView::SubpathResolved(fallback),
            ) => self.resolve_binary_entrypoint_fallback(primary, fallback),
            (
                CreateStageView::ProbingFile { primary, resolution },
                CreateEventView::FileExists(exists),
            ) => self.conclude_probe(primary, resolution, exists),
            (
                CreateStageView::WritingLockfile { resolution },
                CreateEventView::Completed(Ok(())),
            ) => self.locate_storage(resolution.url, resolution.is_commonjs(), resolution.file_path),
            (
                CreateStageView::WritingLockfile { resolution },
                CreateEventView::Completed(Err(text)),
            ) => self.fail(WorkerErrorView::LockfileWrite(text)),
            (CreateStageView::CheckingNpmPackage, CreateEventView::InNpmPackage(inside)) => if inside {
                self.resolve_node_module()
            } else {
                self.locate_storage(self.main_module, false, None)
            },
            (
                CreateStageView::ResolvingStorageKey { main_module, is_main_cjs, file_path },
                CreateEventView::StorageKey(storage_key),
            ) => if self.can_store(storage_key) {
                self.bootstrap(main_module, is_main_cjs, file_path, storage_key)
            } else {
                (self, StepView::Ignored)
            },
            (
                CreateStageView::ResolvingNodeModule,
                CreateEventView::Resolved(Ok(resolution)),
            ) => self.locate_storage(resolution.url, resolution.is_commonjs(), resolution.file_path),
            (CreateStageView::ResolvingNodeModule, CreateEventView::Resolved(Err(text))) => self.fail(
                WorkerErrorView::Resolution(text),
            ),
            (
                CreateStageView::Bootstrapping { main_module, is_main_cjs, file_path },
                CreateEventView::Completed(Ok(())),
            ) => if self.shared.needs_test {
                (
                    self.at(CreateStageView::LoadingTestModules { main_module, is_main_cjs, file_path }),
                    StepView::Perform(CreateActionView::LoadTestModules),
                )
            } else {
                self.finish(main_module, is_main_cjs, file_path)
            },
            (
                CreateStageView::Bootstrapping { main_module, is_main_cjs, file_path },
                CreateEventView::Completed(Err(text)),
            ) => self.fail(WorkerErrorView::Bootstrap(text)),
            (
                CreateStageView::LoadingTestModules { main_module, is_main_cjs, file_path },
                CreateEventView::Completed(Ok(())),
            ) => self.finish(main_module, is_main_cjs, file_path),
            (
                CreateStageView::LoadingTestModules { main_module, is_main_cjs, file_path },
                CreateEventView::Completed(Err(text)),
            ) => self.fail(WorkerErrorView::Bootstrap(text)),
            _ => (self, StepView::Ignored),
        }
    }

    /// The making, advanced by one event: the making afterwards, and what
    /// its driver is to do. It begins with the reading of the module as a
    /// reference; a module with a number too large for the registry's grammar
    /// is read as no reference.
    pub open spec fn step(self, event: CreateEventView) -> (WorkerCreationView, StepView<
        CreateActionView,
        CliMainWorkerView,
    >) {
        if self.stage is Created {
            if event is Start {
                self.begin(reference_in(self.main_module))
            } else {
                (self, StepView::Ignored)
            }
        } else {
            self.advance(event)
        }
    }
}

impl WorkerCreation {
    /// How far the making has come.
    pub fn stage(&self) -> (res: &CreateStage)
        ensures
            res@ == self@.stage,
    {
        &self.stage
    }

    fn at(self, stage: CreateStage) -> (res: WorkerCreation)
        ensures
            res@ == self@.at(stage@),
    {
        WorkerCreation {
            shared: self.shared,
            main_module: self.main_module,
            environment: self.environment,
            stage,
        }
    }

    fn fail(self, error: WorkerError) -> (res: (WorkerCreation, Step<CreateAction, CliMainWorker>))
        ensures
            (res.0@, res.1@) == self@.fail(error@),
    {
        (self.at(CreateStage::Finished), Step::Finished(Err(error)))
    }

    fn read_working_directory(self, reference: NpmPackageReqReference) -> (res: (
        WorkerCreation,
        Step<CreateAction, CliMainWorker>,
    ))
        ensures
            (res.0@, res.1@) == self@.read_working_directory(reference@),
    {
        (
            self.at(CreateStage::ReadingWorkingDirectory { reference }),
            Step::Perform(CreateAction::GetWorkingDirectory),
        )
    }

    fn resolve_node_module(self) -> (res: (WorkerCreation, Step<CreateAction, CliMainWorker>))
        ensures
            (res.0@, res.1@) == self@.resolve_node_module(),
    {
        let specifier = clone_text(&self.main_module);
        (
            self.at(CreateStage::ResolvingNodeModule),
            Step::Perform(CreateAction::UrlToNodeResolution { specifier }),
        )
    }

    /// Begins the making of the unit, given how its module reads in the
    /// registry's grammar. Nothing happens once the making has begun.
    pub fn begin(self, reference: Option<NpmPackageReqReference>) -> (res: (
        WorkerCreation,
        Step<CreateAction, CliMainWorker>,
    ))
        ensures
            (res.0@, res.1@) == self@.begin(reference.deep_view()),
    {
        match &self.stage {
            CreateStage::Created => {},
            _ => {
                return (self, Step::Ignored);
            },
        }
        match reference {
            Some(reference) => {
                let reference = pin_wildcard_version(
                    reference,
                    &self.shared.options.maybe_root_package_json_deps,
                );
                if self.shared.npm_resolver_is_managed {
                    let req = reference.req.clone();
                    (
                        self.at(CreateStage::RegisteringPackage { reference }),
                        Step::Perform(CreateAction::AddPackageReqs { req }),
                    )
                } else {
                    self.read_working_directory(reference)
                }
            },
            None => {
                if self.shared.options.is_npm_main {
                    self.resolve_node_module()
                } else {
                    let specifier = clone_text(&self.main_module);
                    (
                        self.at(CreateStage::CheckingNpmPackage),
                        Step::Perform(CreateAction::CheckInNpmPackage { specifier }),
                    )
                }
            },
        }
    }

    fn refer_to_working_directory(
        self,
        reference: NpmPackageReqReference,
        directory: String,
        url: Option<String>,
    ) -> (res: (WorkerCreation, Step<CreateAction, CliMainWorker>))
        ensures
            (res.0@, res.1@) == self@.refer_to_working_directory(
                reference@,
                directory@,
                url.deep_view(),
            ),
    {
        match url {
            Some(url) => {
                let req = reference.req.clone();
                let referrer = Referrer {
                    directory: url,
                    file: Some(String::from_str("package.json")),
                };
                (
                    self.at(CreateStage::ResolvingPackageFolder { reference }),
                    Step::Perform(CreateAction::ResolvePackageFolder { req, referrer }),
                )
            },
            None => self.fail(WorkerError::NoReferrer { directory }),
        }
    }

    /// Decides how the search for a binary entry point goes on once the
    /// package's declared binary export was looked for.
    fn resolve_binary_entrypoint(
        self,
        package_folder: String,
        sub_path: Option<String>,
        primary: Result<NodeResolution, String>,
        folder_url: Option<String>,
    ) -> (res: (WorkerCreation, Step<CreateAction, CliMainWorker>))
        ensures
            (res.0@, res.1@) == self@.resolve_binary_entrypoint(
                package_folder@,
                sub_path.deep_view(),
                resolution_view(primary),
                folder_url.deep_view(),
            ),
    {
        match primary {
            Ok(resolution) => self.entry_point_found(resolution),
            Err(primary) => match sub_path {
                Some(sub_path) => match folder_url {
                    Some(url) => {
                        let referrer = Referrer { directory: url, file: None };
                        (
                            self.at(CreateStage::ResolvingPackageSubpath { primary }),
                            Step::Perform(
                                CreateAction::ResolvePackageSubpath {
                                    package_folder,
                                    sub_path,
                                    referrer,
                                },
                            ),
                        )
                    },
                    None => self.fail(WorkerError::NoReferrer { directory: package_folder }),
                },
                None => self.fail(WorkerError::Resolution(primary)),
            },
        }
    }

    /// Tells the making the working directory, given the `file:` URL that
    /// the URL library makes of it. Nothing happens unless the making waits
    /// for the working directory.
    pub fn given_working_directory(self, directory: String, url: Option<String>) -> (res: (
        WorkerCreation,
        Step<CreateAction, CliMainWorker>,
    ))
        ensures
            (res.0@, res.1@) == self@.given_working_directory(directory@, url.deep_view()),
    {
        let ghost before = self@;
        let WorkerCreation { shared, main_module, environment, stage } = self;
        let rest = WorkerCreation { shared, main_module, environment, stage: CreateStage::Finished };
        assert(rest@ == before.at(CreateStageView::Finished));
        match stage {
            CreateStage::ReadingWorkingDirectory {
                reference,
            } => rest.refer_to_working_directory(reference, directory, url),
            stage => (rest.at(stage), Step::Ignored),
        }
    }

    /// Tells the making what came of the search for the declared binary
    /// export, given the `file:` URL that the URL library makes of the
    /// package's folder. Nothing happens unless the making waits for that
    /// search.
    pub fn given_binary_export(
        self,
        primary: Result<NodeResolution, String>,
        folder_url: Option<String>,
    ) -> (res: (WorkerCreation, Step<CreateAction, CliMainWorker>))
        ensures
            (res.0@, res.1@) == self@.given_binary_export(
                resolution_view(primary),
                folder_url.deep_view(),
            ),
    {
        let ghost before = self@;
        let WorkerCreation { shared, main_module, environment, stage } = self;
        let rest = WorkerCreation { shared, main_module, environment, stage: CreateStage::Finished };
        assert(rest@ == before.at(CreateStageView::Finished));
        match stage {
            CreateStage::ResolvingBinaryExport {
                package_folder,
                sub_path,
            } => rest.resolve_binary_entrypoint(package_folder, sub_path, primary, folder_url),
            stage => (rest.at(stage), Step::Ignored),
        }
    }

    /// Decides how the search for a binary entry point goes on once the
    /// generic subpath resolution was tried.
    fn resolve_binary_entrypoint_fallback(
        self,
        primary: String,
        fallback: Result<Option<NodeResolution>, String>,
    ) -> (res: (WorkerCreation, Step<CreateAction, CliMainWorker>))
        ensures
            (res.0@, res.1@) == self@.resolve_binary_entrypoint_fallback(
                primary@,
                optional_resolution_view(fallback),
            ),
    {
        match fallback {
            Ok(None) => self.fail(WorkerError::Resolution(primary)),
            Ok(Some(resolution)) => match resolution.kind {
                NodeModuleKind::BuiltIn => self.fail(WorkerError::Resolution(primary)),
                _ => {
                    if resolution.file_path.is_none() {
                        self.conclude_probe(primary, resolution, false)
                    } else {
                        let specifier = clone_text(&resolution.url);
                        (
                            self.at(CreateStage::ProbingFile { primary, resolution }),
                            Step::Perform(CreateAction::ProbeFile { specifier }),
                        )
                    }
                },
            },
            Err(text) => self.fail(
                WorkerError::BinaryEntrypoint { primary, fallback: FallbackError::Resolution(text) },
            ),
        }
    }

    fn conclude_probe(self, primary: String, resolution: NodeResolution, exists: bool) -> (res: (
        WorkerCreation,
        Step<CreateAction, CliMainWorker>,
    ))
        ensures
            (res.0@, res.1@) == self@.conclude_probe(primary@, resolution@, exists),
    {
        if exists {
            self.entry_point_found(resolution)
        } else {
            self.fail(
                WorkerError::BinaryEntrypoint {
                    primary,
                    fallback: FallbackError::ModuleNotFound { specifier: resolution.into_url() },
                },
            )
        }
    }

    fn entry_point_found(self, resolution: NodeResolution) -> (res: (
        WorkerCreation,
        Step<CreateAction, CliMainWorker>,
    ))
        ensures
            (res.0@, res.1@) == self@.entry_point_found(resolution@),
    {
        if self.shared.has_lockfile {
            (
                self.at(CreateStage::WritingLockfile { resolution }),
                Step::Perform(CreateAction::WriteLockfile),
            )
        } else {
            let is_main_cjs = resolution.is_commonjs();
            self.locate_storage(resolution.url, is_main_cjs, resolution.file_path)
        }
    }

    fn locate_storage(self, main_module: String, is_main_cjs: bool, file_path: Option<String>) -> (res:
        (WorkerCreation, Step<CreateAction, CliMainWorker>))
        ensures
            (res.0@, res.1@) == self@.locate_storage(
                main_module@,
                is_main_cjs,
                file_path.deep_view(),
            ),
    {
        let specifier = clone_text(&main_module);
        (
            self.at(CreateStage::ResolvingStorageKey { main_module, is_main_cjs, file_path }),
            Step::Perform(CreateAction::ResolveStorageKey { specifier }),
        )
    }

    fn bootstrap(
        self,
        main_module: String,
        is_main_cjs: bool,
        file_path: Option<String>,
        storage_key: Option<String>,
    ) -> (res: (WorkerCreation, Step<CreateAction, CliMainWorker>))
        ensures
            (res.0@, res.1@) == self@.bootstrap(
                main_module@,
                is_main_cjs,
                file_path.deep_view(),
                storage_key.deep_view(),
            ),
    {
        let shared = &self.shared;
        let options = WorkerOptions {
            bootstrap: shared.bootstrap_options(
                &self.environment,
                clone_optional_text(&shared.options.location),
                shared.node_ipc,
            ),
            unsafely_ignore_certificate_errors: clone_optional_texts(
                &shared.options.unsafely_ignore_certificate_errors,
            ),
            seed: shared.options.seed,
            should_break_on_first_statement: shared.options.inspect_brk,
            should_wait_for_inspector_session: shared.options.inspect_wait,
            strace_ops: clone_optional_texts(&shared.options.strace_ops),
            skip_op_registration: shared.options.skip_op_registration,
            module_loader: ModuleLoaderKind::Main,
            cache_storage_dir: cache_storage_dir(&self.environment, &storage_key),
            origin_storage_dir: shared.origin_storage_dir(&storage_key),
            create_web_worker_cb: create_web_worker_callback(share(shared)),
        };
        let action = CreateAction::Bootstrap { main_module: clone_text(&main_module), options };
        (self.at(CreateStage::Bootstrapping { main_module, is_main_cjs, file_path }), Step::Perform(action))
    }

    fn finish(self, main_module: String, is_main_cjs: bool, file_path: Option<String>) -> (res: (
        WorkerCreation,
        Step<CreateAction, CliMainWorker>,
    ))
        ensures
            (res.0@, res.1@) == self@.finish(main_module@, is_main_cjs, file_path.deep_view()),
    {
        let unit = CliMainWorker::new(main_module, is_main_cjs, file_path, share(&self.shared));
        (self.at(CreateStage::Finished), Step::Finished(Ok(unit)))
    }

    /// Advances a making that has begun by one event.
    pub fn advance(self, event: CreateEvent) -> (res: (
        WorkerCreation,
        Step<CreateAction, CliMainWorker>,
    ))
        ensures
            (res.0@, res.1@) == self@.advance(event@),
    {
        match &self.stage {
            CreateStage::ReadingWorkingDirectory { .. } => match event {
                CreateEvent::WorkingDirectory(Ok(directory)) => {
                    let url = directory_specifier(directory.as_str());
                    self.given_working_directory(directory, url)
                },
                event => self.advance_plain(event),
            },
            CreateStage::ResolvingBinaryExport { package_folder, sub_path } => match event {
                CreateEvent::Resolved(primary) => {
                    let url = if sub_path.is_some() && primary.is_err() {
                        directory_specifier(package_folder.as_str())
                    } else {
                        None
                    };
                    self.given_binary_export(primary, url)
                },
                event => self.advance_plain(event),
            },
            _ => self.advance_plain(event),
        }
    }

    /// Whether the event, in this stage, answers with a directory whose URL
    /// decides how the making goes on.
    spec fn names_directory(stage: CreateStageView, event: CreateEventView) -> bool {
        ||| stage is ReadingWorkingDirectory && event matches CreateEventView::WorkingDirectory(
            Ok(_),
        )
        ||| stage is ResolvingBinaryExport && event is Resolved
    }

    #[verifier::rlimit(50)]
    fn advance_plain(self, event: CreateEvent) -> (res: (
        WorkerCreation,
        Step<CreateAction, CliMainWorker>,
    ))
        requires
            !Self::names_directory(self@.stage, event@),
        ensures
            (res.0@, res.1@) == self@.advance(event@),
    {
        let ghost before = self@;
        let WorkerCreation { shared, main_module, environment, stage } = self;
        let rest = WorkerCreation { shared, main_module, environment, stage: CreateStage::Finished };
        assert(rest@ == before.at(CreateStageView::Finished));
        match (stage, event) {
            (
                CreateStage::RegisteringPackage { reference },
                CreateEvent::Completed(Ok(())),
            ) => rest.read_working_directory(reference),
            (CreateStage::RegisteringPackage { .. }, CreateEvent::Completed(Err(text))) => rest.fail(
                WorkerError::Resolution(text),
            ),
            (
                CreateStage::ReadingWorkingDirectory { .. },
                CreateEvent::WorkingDirectory(Err(text)),
            ) => rest.fail(WorkerError::Resolution(text)),
            (
                CreateStage::ResolvingPackageFolder { reference },
                CreateEvent::PackageFolder(Ok(package_folder)),
            ) => {
                let sub_path = clone_optional_text(&reference.sub_path);
                let folder = clone_text(&package_folder);
                (
                    rest.at(
                        CreateStage::ResolvingBinaryExport {
                            package_folder,
                            sub_path: reference.sub_path,
                        },
                    ),
                    Step::Perform(
                        CreateAction::ResolveBinaryExport { package_folder: folder, sub_path },
                    ),
                )
            },
            (
                CreateStage::ResolvingPackageFolder { .. },
                CreateEvent::PackageFolder(Err(text)),
            ) => rest.fail(WorkerError::Resolution(text)),
            (
                CreateStage::ResolvingPackageSubpath { primary },
                CreateEvent::SubpathResolved(fallback),
            ) => rest.resolve_binary_entrypoint_fallback(primary, fallback),
            (
                CreateStage::ProbingFile { primary, resolution },
                CreateEvent::FileExists(exists),
            ) => rest.conclude_probe(primary, resolution, exists),
            (CreateStage::WritingLockfile { resolution }, CreateEvent::Completed(Ok(()))) => {
                let is_main_cjs = resolution.is_commonjs();
                rest.locate_storage(resolution.url, is_main_cjs, resolution.file_path)
            },
            (CreateStage::WritingLockfile { .. }, CreateEvent::Completed(Err(text))) => rest.fail(
                WorkerError::LockfileWrite(text),
            ),
            (CreateStage::CheckingNpmPackage, CreateEvent::InNpmPackage(inside)) => {
                if inside {
                    rest.resolve_node_module()
                } else {
                    let main_module = clone_text(&rest.main_module);
                    rest.locate_storage(main_module, false, None)
                }
            },
            (
                CreateStage::ResolvingStorageKey { main_module, is_main_cjs, file_path },
                CreateEvent::StorageKey(storage_key),
            ) => {
                if storage_key.is_some() && rest.shared.options.origin_data_folder_path.is_none() {
                    (
                        rest.at(CreateStage::ResolvingStorageKey { main_module, is_main_cjs, file_path }),
                        Step::Ignored,
                    )
                } else {
                    rest.bootstrap(main_module, is_main_cjs, file_path, storage_key)
                }
            },
            (CreateStage::ResolvingNodeModule, CreateEvent::Resolved(Ok(resolution))) => {
                let is_main_cjs = resolution.is_commonjs();
                rest.locate_storage(resolution.url, is_main_cjs, resolution.file_path)
            },
            (CreateStage::ResolvingNodeModule, CreateEvent::Resolved(Err(text))) => rest.fail(
                WorkerError::Resolution(text),
            ),
            (
                CreateStage::Bootstrapping { main_module, is_main_cjs, file_path },
                CreateEvent::Completed(Ok(())),
            ) => {
                if rest.shared.needs_test {
                    (
                        rest.at(CreateStage::LoadingTestModules { main_module, is_main_cjs, file_path }),
                        Step::Perform(CreateAction::LoadTestModules),
                    )
                } else {
                    rest.finish(main_module, is_main_cjs, file_path)
                }
            },
            (CreateStage::Bootstrapping { .. }, CreateEvent::Completed(Err(text))) => rest.fail(
                WorkerError::Bootstrap(text),
            ),
            (
                CreateStage::LoadingTestModules { main_module, is_main_cjs, file_path },
                CreateEvent::Completed(Ok(())),
            ) => rest.finish(main_module, is_main_cjs, file_path),
            (CreateStage::LoadingTestModules { .. }, CreateEvent::Completed(Err(text))) => rest.fail(
                WorkerError::Bootstrap(text),
            ),
            (stage, _) => (rest.at(stage), Step::Ignored),
        }
    }

    /// Advances the making of the unit by one event.
    ///
    /// The making reads the module as a reference to a package, registers
    /// and locates the package, searches it for its binary entry point with
    /// the generic subpath resolution to fall back on, persists the lockfile,
    /// asks for the storage key and brings the engine up. A collaborator's
    /// failure ends it, as does a directory that has no URL to resolve from.
    pub fn step(self, event: CreateEvent) -> (res: (
        WorkerCreation,
        Step<CreateAction, CliMainWorker>,
    ))
        ensures
            (res.0@, res.1@) == self@.step(event@),
    {
        match &self.stage {
            CreateStage::Created => match event {
                CreateEvent::Start => {
                    let reference = NpmPackageReqReference::from_specifier(
                        self.main_module.as_str(),
                    );
                    self.begin(reference)
                },
                _ => (self, Step::Ignored),
            },
            _ => self.advance(event),
        }
    }
}

/// Makes units, all from one shared configuration.
#[derive(Debug, PartialEq, Eq)]
pub struct CliMainWorkerFactory {
    shared: Arc<SharedWorkerState>,
}

impl View for CliMainWorkerFactory {
    type V = SharedWorkerStateView;

    closed spec fn view(&self) -> SharedWorkerStateView {
        self.shared@
    }
}

impl CliMainWorkerFactory {
    /// A factory for units that share the given configuration.
    pub fn new(
        options: CliMainWorkerOptions,
        needs_test: bool,
        npm_resolver_is_managed: bool,
        has_lockfile: bool,
        has_file_watcher_communicator: bool,
        has_emitter: bool,
        node_ipc: Option<i64>,
        disable_deprecated_api_warning: bool,
        verbose_deprecated_api_warning: bool,
    ) -> (res: CliMainWorkerFactory)
        ensures
            res@ == (SharedWorkerStateView {
                options: options@,
                needs_test,
                npm_resolver_is_managed,
                has_lockfile,
                has_file_watcher_communicator,
                has_emitter,
                node_ipc,
                disable_deprecated_api_warning,
                verbose_deprecated_api_warning,
            }),
    {
        CliMainWorkerFactory {
            shared: Arc::new(
                SharedWorkerState {
                    options,
                    needs_test,
                    npm_resolver_is_managed,
                    has_lockfile,
                    has_file_watcher_communicator,
                    has_emitter,
                    node_ipc,
                    disable_deprecated_api_warning,
                    verbose_deprecated_api_warning,
                },
            ),
        }
    }

    /// The capability to configure nested units from the factory's shared
    /// configuration.
    pub fn web_worker_callback(&self) -> (res: WebWorkerCallback)
        ensures
            res@ == (WebWorkerCallbackView { shared: self@ }),
    {
        create_web_worker_callback(share(&self.shared))
    }

    /// Begins the making of a unit for `main_module` on a host that reports
    /// `environment`. Nothing has been asked of the driver yet.
    pub fn create_custom_worker(&self, main_module: String, environment: HostEnvironment) -> (res:
        WorkerCreation)
        ensures
            res@ == (WorkerCreationView {
                shared: self@,
                main_module: main_module@,
                environment: environment@,
                stage: CreateStageView::Created,
            }),
    {
        WorkerCreation {
            shared: share(&self.shared),
            main_module,
            environment,
            stage: CreateStage::Created,
        }
    }

    /// Begins the making of the main unit for `main_module`.
    pub fn create_main_worker(&self, main_module: String, environment: HostEnvironment) -> (res:
        WorkerCreation)
        ensures
            res@ == (WorkerCreationView {
                shared: self@,
                main_module: main_module@,
                environment: environment@,
                stage: CreateStageView::Created,
            }),
    {
        self.create_custom_worker(main_module, environment)
    }
}

} // verus!
