//! The three steps of `new`: a fresh library project, its manifest, and a
//! sample entrypoint.

use crate::error::{outcome_view, BuildError, ErrorKind, Failure};
use crate::path::{PathView, ProjectPath};
use crate::pipeline::{Pipeline, PipelineView};
use crate::text::{concat2, concat3, unit_outcome};
use vstd::prelude::*;

verus! {

/// The manifest of a new project, up to the project's name.
pub const CARGO_XML_HEAD: &'static str = r#"[package]
name = ""#;

/// The manifest of a new project, after the project's name: the library kind,
/// a release profile for small binaries, and the dependencies.
pub const CARGO_XML_TAIL: &'static str = r#""
version = "0.1.0"
edition = "2021"

[lib]
# A smart contract should be linked dynamically so that it may link to functions exported
# from the host environment. The host environment executes a smart contract by
# calling the function that smart contract exports (entry point of execution)
crate-type = ['cdylib']

[profile.release]
strip = "debuginfo" # Remove debugging info from the binary
panic = "abort"     # Panics are transcribed to Traps when compiling for WASM
lto = true          # Link-time-optimization produces notable decrease in binary size
opt-level = "z"     # Optimize for size vs speed with "s"/"z" (removes vectorization)
codegen-units = 1   # Further reduces binary size but increases compilation time

[dependencies]
iroha_data_model = { git = "https://github.com/hyperledger/iroha/", branch = "iroha2-dev", default-features = false }
iroha_wasm = { git = "https://github.com/hyperledger/iroha/", branch = "iroha2-dev" }

[dev-dependencies]
webassembly-test-runner = { version = "0.1.0" }
"#;

/// The entrypoint of a new project: a trigger that mints one rose for its
/// authority.
pub const MAIN_ENTRYPOINT: &'static str = r#"//! Smartcontract which creates new nft for every user
//!
//! This module isn't included in the build-tree,
//! but instead it is being built by a `client/build.rs`

#![no_std]
#![no_main]
#![allow(clippy::all)]

//! Sample smartcontract which mints 1 rose for it's authority

use core::str::FromStr as _;

use iroha_wasm::{data_model::prelude::*, DebugExpectExt};

/// Mint 1 rose for authority
#[iroha_wasm::entrypoint(params = "[authority]")]
fn trigger_entrypoint(authority: <Account as Identifiable>::Id) {
    let rose_definition_id = <AssetDefinition as Identifiable>::Id::from_str("token#open")
        .dbg_expect("Failed to parse `token#open` asset definition id");
    let rose_id = <Asset as Identifiable>::Id::new(rose_definition_id, authority);

    Instruction::Mint(MintBox::new(1_u32, rose_id)).execute();
}    
"#;

/// Everything required to configure and run the `new` command.
#[derive(Debug, PartialEq, Eq)]
pub struct NewArgs {
    /// Name of the new project; also the name of its directory.
    pub name: String,
}

impl View for NewArgs {
    type V = Seq<char>;

    open spec fn view(&self) -> Seq<char> {
        self.name@
    }
}

impl NewArgs {
    /// The arguments for a new project of the given name.
    pub fn new(name: String) -> (args: NewArgs)
        ensures
            args@ == name@,
    {
        NewArgs { name }
    }
}

/// A step of `new`.
#[derive(Clone, Copy, Debug, PartialEq, Eq, Structural)]
pub enum NewStep {
    /// Let the package manager create a library project.
    CargoNew,
    /// Write the manifest over the one just created.
    CargoXml,
    /// Write the entrypoint over the source file just created.
    MainEntrypoint,
}

/// The steps of `new` in their order.
pub open spec fn new_order() -> Seq<NewStep> {
    seq![NewStep::CargoNew, NewStep::CargoXml, NewStep::MainEntrypoint]
}

/// A run through the steps of `new` that has not begun.
pub fn new_pipeline() -> (pipeline: Pipeline<NewStep>)
    ensures
        pipeline@ == PipelineView::start(new_order()),
{
    let mut steps: Vec<NewStep> = Vec::new();
    steps.push(NewStep::CargoNew);
    steps.push(NewStep::CargoXml);
    steps.push(NewStep::MainEntrypoint);
    assert(steps@ =~= new_order());
    Pipeline::new(steps)
}

/// A file to write: where, and what. A file that is there already is
/// replaced.
#[derive(Debug, PartialEq, Eq)]
pub struct FileWrite {
    pub path: ProjectPath,
    pub contents: String,
}

/// The mathematical content of a [`FileWrite`].
pub struct FileWriteView {
    pub path: PathView,
    pub contents: Seq<char>,
}

impl View for FileWrite {
    type V = FileWriteView;

    open spec fn view(&self) -> FileWriteView {
        FileWriteView { path: self.path@, contents: self.contents@ }
    }
}

/// The failure to write the file shown as `path`, with the message of the
/// failure.
pub open spec fn write_failed(path: Seq<char>, message: Seq<char>) -> Failure {
    Failure {
        kind: ErrorKind::FileWriteFailed,
        message: "write to "@ + path + " failed, error = "@ + message,
    }
}

/// How writing the file shown as `path` ends.
pub open spec fn write_check(path: Seq<char>, outcome: Result<(), Seq<char>>) -> Result<
    (),
    Failure,
> {
    match outcome {
        Ok(_) => Ok(()),
        Err(message) => Err(write_failed(path, message)),
    }
}

/// Conclude the writing of a file.
///
/// `path` is the file as it is shown to the user and `outcome` says how the
/// writing ended. A failure fails with `FileWriteFailed`, naming the file and
/// the reason.
pub fn write(path: &str, outcome: Result<(), String>) -> (r: Result<(), BuildError>)
    ensures
        outcome_view(r) == write_check(path@, unit_outcome(outcome)),
{
    match outcome {
        Ok(_) => Ok(()),
        Err(err) => {
            let mut message = concat3("write to ", path, " failed, error = ");
            message.append(err.as_str());
            Err(BuildError::new(ErrorKind::FileWriteFailed, message))
        },
    }
}

/// How the creation of the project ends for the given end of `cargo new`.
pub open spec fn cargo_new_check(exit: Result<(), Seq<char>>) -> Result<(), Failure> {
    match exit {
        Ok(_) => Ok(()),
        Err(message) => Err(
            Failure {
                kind: ErrorKind::ProjectInitFailed,
                message: "init project failed, error = "@ + message,
            },
        ),
    }
}

/// Conclude the creation of the project by `cargo new --lib`.
///
/// `exit` says how the run of `cargo_new_command` for `args.name` ended. A
/// failed run fails the step with `ProjectInitFailed`.
pub fn step_cargo_new(_args: &NewArgs, exit: Result<(), String>) -> (r: Result<(), BuildError>)
    ensures
        outcome_view(r) == cargo_new_check(unit_outcome(exit)),
{
    match exit {
        Ok(_) => Ok(()),
        Err(err) => Err(
            BuildError::new(
                ErrorKind::ProjectInitFailed,
                concat2("init project failed, error = ", err.as_str()),
            ),
        ),
    }
}

/// The manifest of a new project called `name`.
pub open spec fn cargo_xml(name: Seq<char>) -> Seq<char> {
    CARGO_XML_HEAD@ + name + CARGO_XML_TAIL@
}

/// The manifest of the new project: a release profile that keeps the binary
/// small, and the dependencies of a smart contract. It goes to
/// `<cwd>/<name>/Cargo.toml`.
pub fn step_cargo_xml(args: &NewArgs, cwd: &ProjectPath) -> (file: FileWrite)
    ensures
        file@ == (FileWriteView {
            path: cwd@.join(args@).join("Cargo.toml"@),
            contents: cargo_xml(args@),
        }),
{
    let cargo_xml = concat3(CARGO_XML_HEAD, args.name.as_str(), CARGO_XML_TAIL);
    let path = cwd.join(args.name.as_str()).join("Cargo.toml");
    FileWrite { path, contents: cargo_xml }
}

/// The entrypoint of the new project, the same for every name. It goes to
/// `<cwd>/<name>/src/lib.rs`.
pub fn step_main_entrypoint(args: &NewArgs, cwd: &ProjectPath) -> (file: FileWrite)
    ensures
        file@ == (FileWriteView {
            path: cwd@.join(args@).join("src"@).join("lib.rs"@),
            contents: MAIN_ENTRYPOINT@,
        }),
{
    let path = cwd.join(args.name.as_str()).join("src").join("lib.rs");
    FileWrite { path, contents: String::from_str(MAIN_ENTRYPOINT) }
}

} // verus!
