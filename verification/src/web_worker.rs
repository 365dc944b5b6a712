//! Nested units: the capability that configures one from inside a running
//! unit, and that every nested unit receives again for units of its own.

use vstd::prelude::*;
use std::sync::Arc;
use crate::options::{
    cache_storage_dir, cache_storage_dir_of, share, BootstrapOptions, BootstrapOptionsView,
    HostEnvironment, HostEnvironmentView, SharedWorkerState, SharedWorkerStateView, StorageDir,
    StorageDirView,
};
use crate::text::{clone_optional_texts, clone_text};

verus! {

/// Which of the loader factory's loaders a unit gets.
#[derive(Clone, Copy, Debug, PartialEq, Eq, Structural)]
pub enum ModuleLoaderKind {
    /// The loader for a root unit: everything is allowed at its root, and the
    /// unit's own permissions hold for what it imports dynamically.
    Main,
    /// The loader for a nested unit: its parent's permissions hold at its
    /// root, and its own for what it imports dynamically.
    Worker,
}

/// What kind of script a nested unit runs.
#[derive(Clone, Copy, Debug, PartialEq, Eq, Structural)]
pub enum WebWorkerType {
    Classic,
    Module,
}

/// The capability to configure nested units. It holds nothing but the
/// shared configuration, so every copy of it configures the same way.
#[derive(Debug, PartialEq, Eq)]
pub struct WebWorkerCallback {
    shared: Arc<SharedWorkerState>,
}

pub struct WebWorkerCallbackView {
    pub shared: SharedWorkerStateView,
}

impl View for WebWorkerCallback {
    type V = WebWorkerCallbackView;

    closed spec fn view(&self) -> WebWorkerCallbackView {
        WebWorkerCallbackView { shared: self.shared@ }
    }
}

/// A request to spawn a nested unit.
#[derive(Debug, PartialEq, Eq)]
pub struct SpawnRequest {
    pub name: String,
    pub worker_id: u32,
    pub main_module: String,
    pub worker_type: WebWorkerType,
}

pub struct SpawnRequestView {
    pub name: Seq<char>,
    pub worker_id: u32,
    pub main_module: Seq<char>,
    pub worker_type: WebWorkerType,
}

impl View for SpawnRequest {
    type V = SpawnRequestView;

    open spec fn view(&self) -> SpawnRequestView {
        SpawnRequestView {
            name: self.name@,
            worker_id: self.worker_id,
            main_module: self.main_module@,
            worker_type: self.worker_type,
        }
    }
}

/// The settings that a nested unit is brought up with.
#[derive(Debug, PartialEq, Eq)]
pub struct WebWorkerOptions {
    pub bootstrap: BootstrapOptions,
    pub unsafely_ignore_certificate_errors: Option<Vec<String>>,
    pub seed: Option<u64>,
    pub worker_type: WebWorkerType,
    pub module_loader: ModuleLoaderKind,
    pub cache_storage_dir: Option<StorageDir>,
    pub create_web_worker_cb: WebWorkerCallback,
}

pub struct WebWorkerOptionsView {
    pub bootstrap: BootstrapOptionsView,
    pub unsafely_ignore_certificate_errors: Option<Seq<Seq<char>>>,
    pub seed: Option<u64>,
    pub worker_type: WebWorkerType,
    pub module_loader: ModuleLoaderKind,
    pub cache_storage_dir: Option<StorageDirView>,
    pub create_web_worker_cb: WebWorkerCallbackView,
}

impl View for WebWorkerOptions {
    type V = WebWorkerOptionsView;

    open spec fn view(&self) -> WebWorkerOptionsView {
        WebWorkerOptionsView {
            bootstrap: self.bootstrap@,
            unsafely_ignore_certificate_errors: self.unsafely_ignore_certificate_errors.deep_view(),
            seed: self.seed,
            worker_type: self.worker_type,
            module_loader: self.module_loader,
            cache_storage_dir: self.cache_storage_dir.deep_view(),
            create_web_worker_cb: self.create_web_worker_cb@,
        }
    }
}

/// A nested unit, ready to be brought up: who it is and how it is set up.
#[derive(Debug, PartialEq, Eq)]
pub struct WebWorkerPlan {
    pub name: String,
    pub worker_id: u32,
    pub main_module: String,
    pub options: WebWorkerOptions,
}

pub struct WebWorkerPlanView {
    pub name: Seq<char>,
    pub worker_id: u32,
    pub main_module: Seq<char>,
    pub options: WebWorkerOptionsView,
}

impl View for WebWorkerPlan {
    type V = WebWorkerPlanView;

    open spec fn view(&self) -> WebWorkerPlanView {
        WebWorkerPlanView {
            name: self.name@,
            worker_id: self.worker_id,
            main_module: self.main_module@,
            options: self.options@,
        }
    }
}

impl WebWorkerCallbackView {
    /// The nested unit that the capability configures for a request whose
    /// module's origin has the given storage key. Its bootstrap settings are
    /// the shared ones with the host's environment, located at its own main
    /// module and without an inter-process channel; its loader is the one for
    /// nested units; and its capability to spawn units of its own is this
    /// capability again.
    pub open spec fn call(
        self,
        request: SpawnRequestView,
        environment: HostEnvironmentView,
        storage_key: Option<Seq<char>>,
    ) -> WebWorkerPlanView {
        WebWorkerPlanView {
            name: request.name,
            worker_id: request.worker_id,
            main_module: request.main_module,
            options: WebWorkerOptionsView {
                bootstrap: self.shared.bootstrap_options(
                    environment,
                    Some(request.main_module),
                    None,
                ),
                unsafely_ignore_certificate_errors: self.shared.options.unsafely_ignore_certificate_errors,
                seed: self.shared.options.seed,
                worker_type: request.worker_type,
                module_loader: ModuleLoaderKind::Worker,
                cache_storage_dir: cache_storage_dir_of(environment, storage_key),
                create_web_worker_cb: self,
            },
        }
    }
}

/// The capability to configure nested units from the shared configuration.
pub fn create_web_worker_callback(shared: Arc<SharedWorkerState>) -> (res: WebWorkerCallback)
    ensures
        res@ == (WebWorkerCallbackView { shared: shared@ }),
{
    WebWorkerCallback { shared }
}

impl WebWorkerCallback {
    /// Configures the nested unit that a request asks for. `storage_key` is
    /// the checksum of the key under which the origin of the unit's module
    /// stores its data, where it has one.
    pub fn call(
        &self,
        request: SpawnRequest,
        environment: &HostEnvironment,
        storage_key: Option<String>,
    ) -> (res: WebWorkerPlan)
        ensures
            res@ == self@.call(request@, environment@, storage_key.deep_view()),
    {
        let location = Some(clone_text(&request.main_module));
        let bootstrap = self.shared.bootstrap_options(environment, location, None);
        let options = WebWorkerOptions {
            bootstrap,
            unsafely_ignore_certificate_errors: clone_optional_texts(
                &self.shared.options.unsafely_ignore_certificate_errors,
            ),
            seed: self.shared.options.seed,
            worker_type: request.worker_type,
            module_loader: ModuleLoaderKind::Worker,
            cache_storage_dir: cache_storage_dir(environment, &storage_key),
            create_web_worker_cb: create_web_worker_callback(share(&self.shared)),
        };
        WebWorkerPlan {
            name: request.name,
            worker_id: request.worker_id,
            main_module: request.main_module,
            options,
        }
    }
}

/// However deep units are nested, each is configured by the capability that
/// configured its parent: what a nested unit would configure for a request is
/// what its parent would have configured for it.
pub proof fn law_nested_capability_is_the_same(
    callback: WebWorkerCallbackView,
    first: SpawnRequestView,
    first_environment: HostEnvironmentView,
    first_key: Option<Seq<char>>,
    second: SpawnRequestView,
    second_environment: HostEnvironmentView,
    second_key: Option<Seq<char>>,
)
    ensures
        callback.call(first, first_environment, first_key).options.create_web_worker_cb
            == callback,
        callback.call(first, first_environment, first_key).options.create_web_worker_cb.call(
            second,
            second_environment,
            second_key,
        ) == callback.call(second, second_environment, second_key),
{
}

} // verus!
