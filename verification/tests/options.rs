use std::sync::Arc;

use cli_worker::options::{
    cache_storage_dir, unstable_features, CliMainWorkerOptions, HostEnvironment,
    SharedWorkerState, StorageDir, UnstableFlag, WorkerLogLevel,
};
use cli_worker::package::{PackageJsonDep, PackageJsonDeps, PackageReq};
use cli_worker::resolution::{NodeModuleKind, NodeResolution};
use cli_worker::text::{
    chars_of, clone_optional_text, clone_optional_texts, clone_text, clone_texts, contains,
    join_text,
};
use cli_worker::web_worker::{
    create_web_worker_callback, ModuleLoaderKind, SpawnRequest, WebWorkerType,
};

fn flag(name: &str, id: i32, enabled: bool) -> UnstableFlag {
    UnstableFlag { name: name.to_string(), id, enabled }
}

fn shared_state() -> SharedWorkerState {
    SharedWorkerState {
        options: CliMainWorkerOptions {
            argv: vec!["a".to_string(), "b".to_string()],
            log_level: WorkerLogLevel::Warn,
            coverage_dir: None,
            enable_op_summary_metrics: true,
            enable_testing_features: true,
            has_node_modules_dir: true,
            hmr: false,
            inspect_brk: false,
            inspect_wait: false,
            strace_ops: None,
            is_inspecting: false,
            is_npm_main: false,
            location: Some("https://example.com/app".to_string()),
            maybe_binary_npm_command_name: None,
            origin_data_folder_path: None,
            seed: Some(42),
            unsafely_ignore_certificate_errors: Some(vec!["example.com".to_string()]),
            unstable: false,
            skip_op_registration: false,
            maybe_root_package_json_deps: Some(PackageJsonDeps {
                entries: vec![PackageJsonDep {
                    alias: "foo".to_string(),
                    req: Some(PackageReq {
                        name: "foo".to_string(),
                        version_req: "1".to_string(),
                    }),
                }],
            }),
        },
        needs_test: false,
        npm_resolver_is_managed: true,
        has_lockfile: false,
        has_file_watcher_communicator: true,
        has_emitter: true,
        node_ipc: Some(3),
        disable_deprecated_api_warning: false,
        verbose_deprecated_api_warning: true,
    }
}

fn environment(parallelism: Option<usize>, use_color: bool) -> HostEnvironment {
    HostEnvironment {
        available_parallelism: parallelism,
        locale: "de-AT".to_string(),
        use_color,
        is_tty: true,
        user_agent: "agent/2".to_string(),
        temp_dir: "/var/tmp".to_string(),
        unstable_flags: vec![flag("a", 10, false), flag("b", 20, true), flag("c", 30, true)],
    }
}

#[test]
fn unstable_features_are_the_enabled_flags_in_order() {
    assert_eq!(unstable_features(&vec![]), Vec::<i32>::new());
    assert_eq!(unstable_features(&vec![flag("a", 1, false)]), Vec::<i32>::new());
    assert_eq!(
        unstable_features(&vec![flag("a", 5, true), flag("b", 2, false), flag("c", 9, true)]),
        vec![5, 9]
    );
    assert_eq!(unstable_features(&vec![flag("a", 7, true), flag("b", 7, true)]), vec![7, 7]);
}

#[test]
fn host_without_a_processor_count_counts_as_one() {
    let shared = shared_state();
    let options = shared.bootstrap_options(&environment(None, true), None, None);
    assert_eq!(options.cpu_count, 1);
    let options = shared.bootstrap_options(&environment(Some(16), true), None, None);
    assert_eq!(options.cpu_count, 16);
}

#[test]
fn colour_is_off_where_the_host_would_not_use_it() {
    let shared = shared_state();
    assert!(shared.bootstrap_options(&environment(None, false), None, None).no_color);
    assert!(!shared.bootstrap_options(&environment(None, true), None, None).no_color);
}

#[test]
fn bootstrap_options_take_location_and_channel_as_given() {
    let shared = shared_state();
    let options = shared.bootstrap_options(
        &environment(Some(2), true),
        Some("file:///w.js".to_string()),
        Some(9),
    );
    assert_eq!(options.location, Some("file:///w.js".to_string()));
    assert_eq!(options.node_ipc_fd, Some(9));
    assert_eq!(options.args, vec!["a".to_string(), "b".to_string()]);
    assert_eq!(options.log_level, WorkerLogLevel::Warn);
    assert!(options.enable_op_summary_metrics);
    assert!(options.enable_testing_features);
    assert!(options.has_node_modules_dir);
    assert_eq!(options.locale, "de-AT");
    assert!(options.is_tty);
    assert_eq!(options.unstable_features, vec![20, 30]);
    assert_eq!(options.user_agent, "agent/2");
    assert!(options.verbose_deprecated_api_warning);
    assert!(!options.disable_deprecated_api_warning);
}

#[test]
fn nested_unit_is_located_at_its_own_module_without_a_channel() {
    let callback = create_web_worker_callback(Arc::new(shared_state()));
    let plan = callback.call(
        SpawnRequest {
            name: "worker-1".to_string(),
            worker_id: 4,
            main_module: "file:///nested.js".to_string(),
            worker_type: WebWorkerType::Module,
        },
        &environment(Some(4), false),
        Some("k1".to_string()),
    );
    assert_eq!(
        plan.options.cache_storage_dir,
        Some(StorageDir {
            base: "/var/tmp".to_string(),
            path: vec!["deno_cache".to_string(), "k1".to_string()],
        })
    );
    assert_eq!(plan.name, "worker-1");
    assert_eq!(plan.worker_id, 4);
    assert_eq!(plan.main_module, "file:///nested.js");
    assert_eq!(plan.options.bootstrap.location, Some("file:///nested.js".to_string()));
    assert_eq!(plan.options.bootstrap.node_ipc_fd, None);
    assert_eq!(plan.options.bootstrap.cpu_count, 4);
    assert!(plan.options.bootstrap.no_color);
    assert_eq!(plan.options.bootstrap.unstable_features, vec![20, 30]);
    assert_eq!(plan.options.seed, Some(42));
    assert_eq!(
        plan.options.unsafely_ignore_certificate_errors,
        Some(vec!["example.com".to_string()])
    );
    assert_eq!(plan.options.worker_type, WebWorkerType::Module);
    assert_eq!(plan.options.module_loader, ModuleLoaderKind::Worker);
}

#[test]
fn nested_unit_gets_the_capability_that_made_it() {
    let callback = create_web_worker_callback(Arc::new(shared_state()));
    let request = |name: &str| SpawnRequest {
        name: name.to_string(),
        worker_id: 1,
        main_module: "file:///n.js".to_string(),
        worker_type: WebWorkerType::Classic,
    };
    let child = callback.call(request("child"), &environment(None, true), None);
    assert_eq!(child.options.cache_storage_dir, None);
    assert_eq!(child.options.create_web_worker_cb, callback);
    let grandchild = child.options.create_web_worker_cb.call(
        request("grandchild"),
        &environment(None, true),
        None,
    );
    assert_eq!(grandchild, callback.call(request("grandchild"), &environment(None, true), None));
    assert_eq!(grandchild.options.create_web_worker_cb, callback);
}

#[test]
fn copies_of_settings_are_equal() {
    let shared = shared_state();
    assert_eq!(shared.options.clone(), shared.options);
    let host = environment(Some(1), true);
    assert_eq!(host.clone(), host);
    assert_eq!(flag("x", 1, true).clone(), flag("x", 1, true));
}

#[test]
fn texts_are_copied_and_joined() {
    assert_eq!(clone_text(&"abc".to_string()), "abc");
    assert_eq!(clone_optional_text(&Some("x".to_string())), Some("x".to_string()));
    assert_eq!(clone_optional_text(&None), None);
    assert_eq!(clone_texts(&vec!["a".to_string(), String::new()]), vec!["a".to_string(), String::new()]);
    assert_eq!(clone_optional_texts(&None), None);
    assert_eq!(clone_optional_texts(&Some(vec!["q".to_string()])), Some(vec!["q".to_string()]));
    assert_eq!(join_text("ab".to_string(), "cd"), "abcd");
    assert_eq!(join_text(String::new(), ""), "");
}

#[test]
fn resolution_tells_commonjs_from_the_rest() {
    let of = |kind| NodeResolution {
        kind,
        url: "file:///m.js".to_string(),
        file_path: Some("/m.js".to_string()),
    };
    assert!(of(NodeModuleKind::CommonJs).is_commonjs());
    assert!(!of(NodeModuleKind::Esm).is_commonjs());
    assert!(!of(NodeModuleKind::BuiltIn).is_commonjs());
    assert_eq!(of(NodeModuleKind::Esm).into_url(), "file:///m.js");
}

#[test]
fn storage_folders_hang_on_the_key() {
    let shared = shared_state();
    let host = environment(None, true);
    assert_eq!(cache_storage_dir(&host, &None), None);
    assert_eq!(shared.origin_storage_dir(&None), None);
    assert_eq!(shared.origin_storage_dir(&Some("k".to_string())), None);
    let mut with_folder = shared_state();
    with_folder.options.origin_data_folder_path = Some("/data".to_string());
    assert_eq!(
        with_folder.origin_storage_dir(&Some("k".to_string())),
        Some(StorageDir { base: "/data".to_string(), path: vec!["k".to_string()] })
    );
    assert_eq!(with_folder.origin_storage_dir(&None), None);
}

#[test]
fn text_is_searched_for_a_part() {
    assert!(contains("abcdef", "cde"));
    assert!(contains("abcdef", "abcdef"));
    assert!(contains("abcdef", ""));
    assert!(contains("", ""));
    assert!(!contains("", "a"));
    assert!(!contains("abc", "abcd"));
    assert!(!contains("abcabd", "abe"));
    assert!(contains("aab", "ab"));
    assert!(contains("h\u{e9}llo w\u{f6}rld", "o w\u{f6}"));
    assert!(!contains("h\u{e9}llo", "e"));
    assert_eq!(chars_of("a\u{e9}b"), vec!['a', '\u{e9}', 'b']);
}
