[package]
name = "cli_worker"
version = "0.1.0"
edition = "2021"
publish = false

[dependencies]
deno_ast = "*"
deno_core = "*"
deno_lockfile = "*"
deno_semver = "0.5"
log = "0.4"
tokio = { version = "1", features = ["macros"] }
url = "2"
