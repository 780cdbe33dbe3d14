//! Build orchestration for size-constrained WebAssembly smart contracts.
//!
//! The crate holds the decisions of two fail-fast pipelines: `build`, which
//! checks the toolchain, compiles a project to `wasm32-unknown-unknown`,
//! shrinks the artifact and checks its size, and `new`, which lays out a fresh
//! project. Running a tool, probing the file system and writing files are left
//! to the caller: every function here takes the outcome of such work as a plain
//! value and says what follows from it.

pub mod cli;
pub mod command;
pub mod context;
pub mod error;
pub mod locator;
pub mod manifest;
pub mod path;
pub mod pipeline;
pub mod scaffold;
pub mod steps;
pub mod text;

pub use cli::{Args, RunArgs, SubCommand};
pub use command::{
    cargo_build_command, cargo_new_command, rustc_sysroot_command, rustc_version_command,
    rustup_add_wasm_target_command, Command,
};
pub use context::{BuildArgs, BuildContext};
pub use error::{BuildError, ErrorKind};
pub use locator::{manifest_file_name, manifest_path, root, RootSearch};
pub use manifest::{cargo_config_from_document, parse_cargo_config, CargoConfig, Lib, Package};
pub use path::ProjectPath;
pub use pipeline::Pipeline;
pub use scaffold::{
    new_pipeline, step_cargo_new, step_cargo_xml, step_main_entrypoint, FileWrite, NewArgs,
    NewStep,
};
pub use steps::{
    binary_to_check, build_pipeline, get_rustc_sysroot, is_wasm32_target_in_sysroot,
    rustc_minor_version, rustup_add_wasm_target, step_build_wasm, step_check_crate_config,
    step_check_for_wasm_target, step_check_rustc_version, step_iroha_binary_size_check,
    step_wasm_opt, wasm32_target_path, wasm_opt_plan, BuildStep, Optimization, TargetAction,
    TargetEvent,
};
