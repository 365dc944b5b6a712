//! The process-wide settings that every unit shares, what the host reports
//! of its environment, and the bootstrap settings that the two make up.

use vstd::prelude::*;
use std::sync::Arc;
use crate::package::{PackageJsonDepView, PackageJsonDeps};
use crate::text::{clone_optional_text, clone_optional_texts, clone_text, clone_texts};

verus! {

/// How much a unit logs.
#[derive(Clone, Copy, Debug, PartialEq, Eq, Structural)]
pub enum WorkerLogLevel {
    Error,
    Warn,
    Info,
    Debug,
}

/// The settings of the command line that units are built from.
#[derive(Debug, PartialEq, Eq)]
pub struct CliMainWorkerOptions {
    pub argv: Vec<String>,
    pub log_level: WorkerLogLevel,
    pub coverage_dir: Option<String>,
    pub enable_op_summary_metrics: bool,
    pub enable_testing_features: bool,
    pub has_node_modules_dir: bool,
    pub hmr: bool,
    pub inspect_brk: bool,
    pub inspect_wait: bool,
    pub strace_ops: Option<Vec<String>>,
    pub is_inspecting: bool,
    pub is_npm_main: bool,
    pub location: Option<String>,
    pub maybe_binary_npm_command_name: Option<String>,
    pub origin_data_folder_path: Option<String>,
    pub seed: Option<u64>,
    pub unsafely_ignore_certificate_errors: Option<Vec<String>>,
    pub unstable: bool,
    pub skip_op_registration: bool,
    pub maybe_root_package_json_deps: Option<PackageJsonDeps>,
}

pub struct CliMainWorkerOptionsView {
    pub argv: Seq<Seq<char>>,
    pub log_level: WorkerLogLevel,
    pub coverage_dir: Option<Seq<char>>,
    pub enable_op_summary_metrics: bool,
    pub enable_testing_features: bool,
    pub has_node_modules_dir: bool,
    pub hmr: bool,
    pub inspect_brk: bool,
    pub inspect_wait: bool,
    pub strace_ops: Option<Seq<Seq<char>>>,
    pub is_inspecting: bool,
    pub is_npm_main: bool,
    pub location: Option<Seq<char>>,
    pub maybe_binary_npm_command_name: Option<Seq<char>>,
    pub origin_data_folder_path: Option<Seq<char>>,
    pub seed: Option<u64>,
    pub unsafely_ignore_certificate_errors: Option<Seq<Seq<char>>>,
    pub unstable: bool,
    pub skip_op_registration: bool,
    pub maybe_root_package_json_deps: Option<Seq<PackageJsonDepView>>,
}

impl View for CliMainWorkerOptions {
    type V = CliMainWorkerOptionsView;

    open spec fn view(&self) -> CliMainWorkerOptionsView {
        CliMainWorkerOptionsView {
            argv: self.argv.deep_view(),
            log_level: self.log_level,
            coverage_dir: self.coverage_dir.deep_view(),
            enable_op_summary_metrics: self.enable_op_summary_metrics,
            enable_testing_features: self.enable_testing_features,
            has_node_modules_dir: self.has_node_modules_dir,
            hmr: self.hmr,
            inspect_brk: self.inspect_brk,
            inspect_wait: self.inspect_wait,
            strace_ops: self.strace_ops.deep_view(),
            is_inspecting: self.is_inspecting,
            is_npm_main: self.is_npm_main,
            location: self.location.deep_view(),
            maybe_binary_npm_command_name: self.maybe_binary_npm_command_name.deep_view(),
            origin_data_folder_path: self.origin_data_folder_path.deep_view(),
            seed: self.seed,
            unsafely_ignore_certificate_errors: self.unsafely_ignore_certificate_errors.deep_view(),
            unstable: self.unstable,
            skip_op_registration: self.skip_op_registration,
            maybe_root_package_json_deps: self.maybe_root_package_json_deps.deep_view(),
        }
    }
}

impl Clone for CliMainWorkerOptions {
    fn clone(&self) -> (res: Self)
        ensures
            res@ == self@,
    {
        CliMainWorkerOptions {
            argv: clone_texts(&self.argv),
            log_level: self.log_level,
            coverage_dir: clone_optional_text(&self.coverage_dir),
            enable_op_summary_metrics: self.enable_op_summary_metrics,
            enable_testing_features: self.enable_testing_features,
            has_node_modules_dir: self.has_node_modules_dir,
            hmr: self.hmr,
            inspect_brk: self.inspect_brk,
            inspect_wait: self.inspect_wait,
            strace_ops: clone_optional_texts(&self.strace_ops),
            is_inspecting: self.is_inspecting,
            is_npm_main: self.is_npm_main,
            location: clone_optional_text(&self.location),
            maybe_binary_npm_command_name: clone_optional_text(
                &self.maybe_binary_npm_command_name,
            ),
            origin_data_folder_path: clone_optional_text(&self.origin_data_folder_path),
            seed: self.seed,
            unsafely_ignore_certificate_errors: clone_optional_texts(
                &self.unsafely_ignore_certificate_errors,
            ),
            unstable: self.unstable,
            skip_op_registration: self.skip_op_registration,
            maybe_root_package_json_deps: match &self.maybe_root_package_json_deps {
                Some(deps) => Some(deps.clone()),
                None => None,
            },
        }
    }
}

/// The configuration that all units of a process share. It is made once and
/// never changed; units hold it by reference count.
#[derive(Debug, PartialEq, Eq)]
pub struct SharedWorkerState {
    pub options: CliMainWorkerOptions,
    /// Whether the running subcommand needs the test modules in each unit.
    pub needs_test: bool,
    /// Whether the package resolver installs the packages it is asked for,
    /// and so has requirements registered with it.
    pub npm_resolver_is_managed: bool,
    /// Whether a lockfile is configured.
    pub has_lockfile: bool,
    /// Whether the process runs under a file watcher that can be talked to.
    pub has_file_watcher_communicator: bool,
    /// Whether the process has an emitter, which hot reload transpiles with.
    pub has_emitter: bool,
    pub node_ipc: Option<i64>,
    pub disable_deprecated_api_warning: bool,
    pub verbose_deprecated_api_warning: bool,
}

pub struct SharedWorkerStateView {
    pub options: CliMainWorkerOptionsView,
    pub needs_test: bool,
    pub npm_resolver_is_managed: bool,
    pub has_lockfile: bool,
    pub has_file_watcher_communicator: bool,
    pub has_emitter: bool,
    pub node_ipc: Option<i64>,
    pub disable_deprecated_api_warning: bool,
    pub verbose_deprecated_api_warning: bool,
}

impl View for SharedWorkerState {
    type V = SharedWorkerStateView;

    open spec fn view(&self) -> SharedWorkerStateView {
        SharedWorkerStateView {
            options: self.options@,
            needs_test: self.needs_test,
            npm_resolver_is_managed: self.npm_resolver_is_managed,
            has_lockfile: self.has_lockfile,
            has_file_watcher_communicator: self.has_file_watcher_communicator,
            has_emitter: self.has_emitter,
            node_ipc: self.node_ipc,
            disable_deprecated_api_warning: self.disable_deprecated_api_warning,
            verbose_deprecated_api_warning: self.verbose_deprecated_api_warning,
        }
    }
}

/// Another holder of the same shared value.
pub fn share<T>(shared: &Arc<T>) -> (res: Arc<T>)
    ensures
        *res == **shared,
{
    Arc::clone(shared)
}

/// A registered feature flag, with the feature checker's answer for it.
#[derive(Debug, PartialEq, Eq)]
pub struct UnstableFlag {
    pub name: String,
    pub id: i32,
    pub enabled: bool,
}

pub struct UnstableFlagView {
    pub name: Seq<char>,
    pub id: i32,
    pub enabled: bool,
}

impl View for UnstableFlag {
    type V = UnstableFlagView;

    open spec fn view(&self) -> UnstableFlagView {
        UnstableFlagView { name: self.name@, id: self.id, enabled: self.enabled }
    }
}

impl DeepView for UnstableFlag {
    type V = UnstableFlagView;

    open spec fn deep_view(&self) -> UnstableFlagView {
        self@
    }
}

impl Clone for UnstableFlag {
    fn clone(&self) -> (res: Self)
        ensures
            res@ == self@,
    {
        UnstableFlag { name: clone_text(&self.name), id: self.id, enabled: self.enabled }
    }
}

/// What the host reports of the machine and the terminal it runs on, read
/// anew for each unit.
#[derive(Debug, PartialEq, Eq)]
pub struct HostEnvironment {
    /// The number of processors the host may use, where it can tell.
    pub available_parallelism: Option<usize>,
    pub locale: String,
    pub use_color: bool,
    pub is_tty: bool,
    pub user_agent: String,
    /// The folder for temporary files.
    pub temp_dir: String,
    /// Every registered feature flag, in registration order.
    pub unstable_flags: Vec<UnstableFlag>,
}

pub struct HostEnvironmentView {
    pub available_parallelism: Option<usize>,
    pub locale: Seq<char>,
    pub use_color: bool,
    pub is_tty: bool,
    pub user_agent: Seq<char>,
    pub temp_dir: Seq<char>,
    pub unstable_flags: Seq<UnstableFlagView>,
}

impl View for HostEnvironment {
    type V = HostEnvironmentView;

    open spec fn view(&self) -> HostEnvironmentView {
        HostEnvironmentView {
            available_parallelism: self.available_parallelism,
            locale: self.locale@,
            use_color: self.use_color,
            is_tty: self.is_tty,
            user_agent: self.user_agent@,
            temp_dir: self.temp_dir@,
            unstable_flags: self.unstable_flags.deep_view(),
        }
    }
}

impl Clone for HostEnvironment {
    fn clone(&self) -> (res: Self)
        ensures
            res@ == self@,
    {
        let mut unstable_flags: Vec<UnstableFlag> = Vec::new();
        let mut i: usize = 0;
        while i < self.unstable_flags.len()
            invariant
                i <= self.unstable_flags.len(),
                unstable_flags.len() == i,
                forall|j: int| 0 <= j < i ==> unstable_flags[j]@ == self.unstable_flags[j]@,
            decreases self.unstable_flags.len() - i,
        {
            unstable_flags.push(self.unstable_flags[i].clone());
            i += 1;
        }
        assert(unstable_flags.deep_view() =~= self.unstable_flags.deep_view());
        HostEnvironment {
            available_parallelism: self.available_parallelism,
            locale: clone_text(&self.locale),
            use_color: self.use_color,
            is_tty: self.is_tty,
            user_agent: clone_text(&self.user_agent),
            temp_dir: clone_text(&self.temp_dir),
            unstable_flags,
        }
    }
}

/// The settings that the engine's bootstrap script receives.
#[derive(Debug, PartialEq, Eq)]
pub struct BootstrapOptions {
    pub args: Vec<String>,
    pub cpu_count: usize,
    pub log_level: WorkerLogLevel,
    pub enable_op_summary_metrics: bool,
    pub enable_testing_features: bool,
    pub locale: String,
    pub location: Option<String>,
    pub no_color: bool,
    pub is_tty: bool,
    pub unstable: bool,
    pub unstable_features: Vec<i32>,
    pub user_agent: String,
    pub inspect: bool,
    pub has_node_modules_dir: bool,
    pub maybe_binary_npm_command_name: Option<String>,
    pub node_ipc_fd: Option<i64>,
    pub disable_deprecated_api_warning: bool,
    pub verbose_deprecated_api_warning: bool,
}

pub struct BootstrapOptionsView {
    pub args: Seq<Seq<char>>,
    pub cpu_count: usize,
    pub log_level: WorkerLogLevel,
    pub enable_op_summary_metrics: bool,
    pub enable_testing_features: bool,
    pub locale: Seq<char>,
    pub location: Option<Seq<char>>,
    pub no_color: bool,
    pub is_tty: bool,
    pub unstable: bool,
    pub unstable_features: Seq<i32>,
    pub user_agent: Seq<char>,
    pub inspect: bool,
    pub has_node_modules_dir: bool,
    pub maybe_binary_npm_command_name: Option<Seq<char>>,
    pub node_ipc_fd: Option<i64>,
    pub disable_deprecated_api_warning: bool,
    pub verbose_deprecated_api_warning: bool,
}

impl View for BootstrapOptions {
    type V = BootstrapOptionsView;

    open spec fn view(&self) -> BootstrapOptionsView {
        BootstrapOptionsView {
            args: self.args.deep_view(),
            cpu_count: self.cpu_count,
            log_level: self.log_level,
            enable_op_summary_metrics: self.enable_op_summary_metrics,
            enable_testing_features: self.enable_testing_features,
            locale: self.locale@,
            location: self.location.deep_view(),
            no_color: self.no_color,
            is_tty: self.is_tty,
            unstable: self.unstable,
            unstable_features: self.unstable_features@,
            user_agent: self.user_agent@,
            inspect: self.inspect,
            has_node_modules_dir: self.has_node_modules_dir,
            maybe_binary_npm_command_name: self.maybe_binary_npm_command_name.deep_view(),
            node_ipc_fd: self.node_ipc_fd,
            disable_deprecated_api_warning: self.disable_deprecated_api_warning,
            verbose_deprecated_api_warning: self.verbose_deprecated_api_warning,
        }
    }
}

/// The identifier of a flag where the feature checker enabled it.
pub open spec fn enabled_id(flag: UnstableFlagView) -> Option<i32> {
    if flag.enabled {
        Some(flag.id)
    } else {
        None
    }
}

/// The identifiers of the flags that the feature checker enabled, in
/// registration order.
pub open spec fn enabled_features(flags: Seq<UnstableFlagView>) -> Seq<i32> {
    flags.filter_map(|flag: UnstableFlagView| enabled_id(flag))
}

/// The identifiers of the flags that the feature checker enabled, in
/// registration order.
pub fn unstable_features(flags: &Vec<UnstableFlag>) -> (res: Vec<i32>)
    ensures
        res@ == enabled_features(flags.deep_view()),
{
    let ghost all = flags.deep_view();
    let ghost pick = |flag: UnstableFlagView| enabled_id(flag);
    let mut res: Vec<i32> = Vec::with_capacity(flags.len());
    let mut i: usize = 0;
    while i < flags.len()
        invariant
            i <= flags.len(),
            all == flags.deep_view(),
            all.len() == flags.len(),
            pick == |flag: UnstableFlagView| enabled_id(flag),
            res@ == all.take(i as int).filter_map(pick),
        decreases flags.len() - i,
    {
        proof {
            all.lemma_filter_map_take_succ(pick, i as int);
            assert(all[i as int] == flags[i as int]@);
        }
        if flags[i].enabled {
            res.push(flags[i].id);
        }
        i += 1;
    }
    assert(all.take(flags.len() as int) =~= all);
    res
}

impl SharedWorkerStateView {
    /// The bootstrap settings of a unit at `location` that may hold the
    /// channel `node_ipc_fd`: the shared settings, with what the host reports
    /// of its environment. A host that cannot tell its processors counts as
    /// having one; colour is off where the host would not use it.
    pub open spec fn bootstrap_options(
        self,
        environment: HostEnvironmentView,
        location: Option<Seq<char>>,
        node_ipc_fd: Option<i64>,
    ) -> BootstrapOptionsView {
        BootstrapOptionsView {
            args: self.options.argv,
            cpu_count: match environment.available_parallelism {
                Some(count) => count,
                None => 1,
            },
            log_level: self.options.log_level,
            enable_op_summary_metrics: self.options.enable_op_summary_metrics,
            enable_testing_features: self.options.enable_testing_features,
            locale: environment.locale,
            location,
            no_color: !environment.use_color,
            is_tty: environment.is_tty,
            unstable: self.options.unstable,
            unstable_features: enabled_features(environment.unstable_flags),
            user_agent: environment.user_agent,
            inspect: self.options.is_inspecting,
            has_node_modules_dir: self.options.has_node_modules_dir,
            maybe_binary_npm_command_name: self.options.maybe_binary_npm_command_name,
            node_ipc_fd,
            disable_deprecated_api_warning: self.disable_deprecated_api_warning,
            verbose_deprecated_api_warning: self.verbose_deprecated_api_warning,
        }
    }
}

impl SharedWorkerState {
    /// The bootstrap settings of a unit at `location` that may hold the
    /// channel `node_ipc_fd`.
    pub fn bootstrap_options(
        &self,
        environment: &HostEnvironment,
        location: Option<String>,
        node_ipc_fd: Option<i64>,
    ) -> (res: BootstrapOptions)
        ensures
            res@ == self@.bootstrap_options(environment@, location.deep_view(), node_ipc_fd),
    {
        BootstrapOptions {
            args: clone_texts(&self.options.argv),
            cpu_count: match environment.available_parallelism {
                Some(count) => count,
                None => 1,
            },
            log_level: self.options.log_level,
            enable_op_summary_metrics: self.options.enable_op_summary_metrics,
            enable_testing_features: self.options.enable_testing_features,
            locale: clone_text(&environment.locale),
            location,
            no_color: !environment.use_color,
            is_tty: environment.is_tty,
            unstable: self.options.unstable,
            unstable_features: unstable_features(&environment.unstable_flags),
            user_agent: clone_text(&environment.user_agent),
            inspect: self.options.is_inspecting,
            has_node_modules_dir: self.options.has_node_modules_dir,
            maybe_binary_npm_command_name: clone_optional_text(
                &self.options.maybe_binary_npm_command_name,
            ),
            node_ipc_fd,
            disable_deprecated_api_warning: self.disable_deprecated_api_warning,
            verbose_deprecated_api_warning: self.verbose_deprecated_api_warning,
        }
    }
}

/// A folder on disk: the folder it lies in, and the names that lead from
/// there down to it.
#[derive(Debug, PartialEq, Eq)]
pub struct StorageDir {
    pub base: String,
    pub path: Vec<String>,
}

pub struct StorageDirView {
    pub base: Seq<char>,
    pub path: Seq<Seq<char>>,
}

impl View for StorageDir {
    type V = StorageDirView;

    open spec fn view(&self) -> StorageDirView {
        StorageDirView { base: self.base@, path: self.path.deep_view() }
    }
}

impl DeepView for StorageDir {
    type V = StorageDirView;

    open spec fn deep_view(&self) -> StorageDirView {
        self@
    }
}

/// The folder in which a unit caches what it fetches: below the folder for
/// temporary files, in the cache folder, under the checksum of the key of
/// its origin. A unit whose origin has no key has no such folder.
pub open spec fn cache_storage_dir_of(
    environment: HostEnvironmentView,
    storage_key: Option<Seq<char>>,
) -> Option<StorageDirView> {
    match storage_key {
        Some(key) => Some(
            StorageDirView { base: environment.temp_dir, path: seq!["deno_cache"@, key] },
        ),
        None => None,
    }
}

/// The folder in which a unit's origin keeps its data: in the configured
/// data folder, under the checksum of the key of the origin. A unit whose
/// origin has no key, or a process without a data folder, has no such
/// folder.
pub open spec fn origin_storage_dir_of(
    shared: SharedWorkerStateView,
    storage_key: Option<Seq<char>>,
) -> Option<StorageDirView> {
    match (storage_key, shared.options.origin_data_folder_path) {
        (Some(key), Some(folder)) => Some(StorageDirView { base: folder, path: seq![key] }),
        _ => None,
    }
}

/// The folder in which a unit caches what it fetches.
pub fn cache_storage_dir(environment: &HostEnvironment, storage_key: &Option<String>) -> (res:
    Option<StorageDir>)
    ensures
        res.deep_view() == cache_storage_dir_of(environment@, storage_key.deep_view()),
{
    match storage_key {
        Some(key) => {
            let mut path: Vec<String> = Vec::new();
            path.push(String::from_str("deno_cache"));
            path.push(clone_text(key));
            assert(path.deep_view() =~= seq!["deno_cache"@, key@]);
            Some(StorageDir { base: clone_text(&environment.temp_dir), path })
        },
        None => None,
    }
}

impl SharedWorkerState {
    /// The folder in which a unit's origin keeps its data.
    pub fn origin_storage_dir(&self, storage_key: &Option<String>) -> (res: Option<StorageDir>)
        ensures
            res.deep_view() == origin_storage_dir_of(self@, storage_key.deep_view()),
    {
        match storage_key {
            Some(key) => match &self.options.origin_data_folder_path {
                Some(folder) => {
                    let mut path: Vec<String> = Vec::new();
                    path.push(clone_text(key));
                    assert(path.deep_view() =~= seq![key@]);
                    Some(StorageDir { base: clone_text(folder), path })
                },
                None => None,
            },
            None => None,
        }
    }
}

} // verus!
