//! The six steps of a build, in the order in which they run.
//!
//! A step that needs a tool or the file system comes in two parts: what to
//! run or to look at, and what follows from how that ended.

use crate::command::{
    rustc_sysroot_command, rustup_add_wasm_target_command, Command, CommandView,
};
use crate::context::{BuildArgs, BuildContext};
use crate::error::{outcome_view, BuildError, ErrorKind, Failure};
use crate::path::{PathView, ProjectPath};
use crate::pipeline::{Pipeline, PipelineView};
use crate::text::{
    chars_of, concat2, concat3, contains, decimal, decimal_text, decimal_text_denotes_its_number,
    decimal_text_is_digits, find_dot, first_dot, first_dot_is_at, is_digit, number_of, occurs_in,
    parse_number, range_is, text_eq, text_outcome, unit_outcome, NumberFault,
};
use vstd::prelude::*;

verus! {

/// The oldest minor release of the 1.x compiler that is supported.
pub const MIN_RUSTC_MINOR: u32 = 30;

/// The library kind that the target requires.
pub const REQUIRED_CRATE_TYPE: &'static str = "cdylib";

/// The largest artifact that the host accepts, in bytes.
pub const MAX_WASM_SIZE: u64 = 4194304;

/// Shown where the compiler's answer names no version.
pub const UNKNOWN_RUSTC_VERSION: &'static str =
    "We can't figure out what your Rust version is- which means you might not have Rust installed. Please install Rust version 1.30.0 or higher.";

/// Shown where the library kind is not the required one: what to add to the
/// manifest.
pub const INVALID_CRATE_TYPE: &'static str =
    "crate-type must be cdylib to compile to wasm32-unknown-unknown. Add the following to your Cargo.toml file:\n\n[lib]\ncrate-type = [\"cdylib\"]";

/// A step of the build.
#[derive(Clone, Copy, Debug, PartialEq, Eq, Structural)]
pub enum BuildStep {
    /// Is the compiler there, and recent enough?
    CheckRustcVersion,
    /// Does the manifest declare the required library kind?
    CheckCrateConfig,
    /// Is the target installed, or can it be?
    CheckForWasmTarget,
    /// Compile.
    BuildWasm,
    /// Shrink the artifact.
    WasmOpt,
    /// Is the artifact small enough?
    BinarySizeCheck,
}

/// The steps of a build in their order. Each relies on those before it.
pub open spec fn build_order() -> Seq<BuildStep> {
    seq![
        BuildStep::CheckRustcVersion,
        BuildStep::CheckCrateConfig,
        BuildStep::CheckForWasmTarget,
        BuildStep::BuildWasm,
        BuildStep::WasmOpt,
        BuildStep::BinarySizeCheck,
    ]
}

/// A run through the steps of a build that has not begun.
pub fn build_pipeline() -> (pipeline: Pipeline<BuildStep>)
    ensures
        pipeline@ == PipelineView::start(build_order()),
{
    let mut steps: Vec<BuildStep> = Vec::new();
    steps.push(BuildStep::CheckRustcVersion);
    steps.push(BuildStep::CheckCrateConfig);
    steps.push(BuildStep::CheckForWasmTarget);
    steps.push(BuildStep::BuildWasm);
    steps.push(BuildStep::WasmOpt);
    steps.push(BuildStep::BinarySizeCheck);
    assert(steps@ =~= build_order());
    Pipeline::new(steps)
}

/// The message for a text that is no number.
pub open spec fn number_fault_message(fault: NumberFault) -> Seq<char> {
    match fault {
        NumberFault::Empty => "cannot parse integer from empty string"@,
        NumberFault::InvalidDigit => "invalid digit found in string"@,
        NumberFault::TooLarge => "number too large to fit in target type"@,
    }
}

/// The failure of a compiler that cannot be queried or understood.
pub open spec fn toolchain_unavailable(message: Seq<char>) -> Failure {
    Failure { kind: ErrorKind::ToolchainUnavailable, message }
}

/// The minor version in the output of `rustc --version`.
///
/// The output up to its first `.` has to be `rustc 1`; what stands between
/// that `.` and the next one (or the end) has to be a number.
pub open spec fn minor_version(output: Seq<char>) -> Result<nat, Failure> {
    let first = first_dot(output, 0);
    if output.take(first) == "rustc 1"@ && first < output.len() {
        let second = first_dot(output, first + 1);
        match number_of(output.subrange(first + 1, second)) {
            Ok(minor) => Ok(minor),
            Err(fault) => Err(toolchain_unavailable(number_fault_message(fault))),
        }
    } else {
        Err(toolchain_unavailable(UNKNOWN_RUSTC_VERSION@))
    }
}

/// The minor version that a query of the compiler yields; a query that failed
/// fails with its own message.
pub open spec fn queried_minor_version(query: Result<Seq<char>, Seq<char>>) -> Result<
    nat,
    Failure,
> {
    match query {
        Ok(output) => minor_version(output),
        Err(message) => Err(toolchain_unavailable(message)),
    }
}

/// The failure of a compiler that is too old.
pub open spec fn toolchain_too_old(minor: nat) -> Failure {
    Failure {
        kind: ErrorKind::ToolchainTooOld,
        message: "Your version of Rust, '1."@ + decimal_text(minor)
            + "', is not supported. Please install Rust version 1.30.0 or higher."@,
    }
}

/// How the version check ends for the given answer to `rustc --version`.
pub open spec fn rustc_version_check(query: Result<Seq<char>, Seq<char>>) -> Result<(), Failure> {
    match queried_minor_version(query) {
        Ok(minor) => if minor < MIN_RUSTC_MINOR {
            Err(toolchain_too_old(minor))
        } else {
            Ok(())
        },
        Err(e) => Err(e),
    }
}

/// What a 1.x compiler of the given minor version prints, up to what follows
/// the minor version.
pub open spec fn version_line(minor: nat, tail: Seq<char>) -> Seq<char> {
    "rustc 1."@ + decimal_text(minor) + tail
}

/// The minor version decides: a compiler that prints `rustc 1.<minor>`, alone
/// or with a `.` and more behind it, passes the check from 1.30 on and fails
/// it as too old below.
pub proof fn printed_minor_version_decides(minor: nat, tail: Seq<char>)
    requires
        minor <= u32::MAX,
        tail.len() == 0 || tail[0] == '.',
    ensures
        minor_version(version_line(minor, tail)) == Ok::<nat, Failure>(minor),
        rustc_version_check(Ok(version_line(minor, tail))) == if minor < 30 {
            Err(toolchain_too_old(minor))
        } else {
            Ok(())
        },
{
    let head = "rustc 1."@;
    let digits = decimal_text(minor);
    let line = version_line(minor, tail);
    reveal_strlit("rustc 1.");
    reveal_strlit("rustc 1");
    decimal_text_is_digits(minor);
    decimal_text_denotes_its_number(minor);
    assert forall|i: int| 0 <= i < 8 implies line[i] == head[i] by {}
    first_dot_is_at(line, 0, 7);
    assert(line.take(7) =~= "rustc 1"@);
    let end = 8 + digits.len();
    assert forall|i: int| 8 <= i < end implies line[i] != '.' by {
        assert(is_digit(digits[i - 8]));
    }
    first_dot_is_at(line, 8, end as int);
    assert(line.subrange(8, end as int) =~= digits);
}

fn number_fault_text(fault: NumberFault) -> (message: &'static str)
    ensures
        message@ == number_fault_message(fault),
{
    match fault {
        NumberFault::Empty => "cannot parse integer from empty string",
        NumberFault::InvalidDigit => "invalid digit found in string",
        NumberFault::TooLarge => "number too large to fit in target type",
    }
}

/// The minor version of the compiler, from the answer to `rustc --version`:
/// its output, or the message of the failure to run it.
pub fn rustc_minor_version(query: Result<String, String>) -> (r: Result<u32, BuildError>)
    ensures
        match r {
            Ok(minor) => queried_minor_version(text_outcome(query)) == Ok::<nat, Failure>(
                minor as nat,
            ),
            Err(e) => queried_minor_version(text_outcome(query)) == Err::<nat, Failure>(e@),
        },
{
    let output = match query {
        Ok(output) => output,
        Err(message) => {
            return Err(BuildError::new(ErrorKind::ToolchainUnavailable, message));
        },
    };
    let chars = chars_of(output.as_str());
    let first = find_dot(&chars, 0);
    if first < chars.len() && range_is(&chars, 0, first, "rustc 1") {
        let second = find_dot(&chars, first + 1);
        match parse_number(&chars, first + 1, second) {
            Ok(minor) => Ok(minor),
            Err(fault) => Err(
                BuildError::new(
                    ErrorKind::ToolchainUnavailable,
                    String::from_str(number_fault_text(fault)),
                ),
            ),
        }
    } else {
        Err(
            BuildError::new(
                ErrorKind::ToolchainUnavailable,
                String::from_str(UNKNOWN_RUSTC_VERSION),
            ),
        )
    }
}

/// Ensure that `rustc` is present and that it is 1.30.0 or newer.
///
/// `query` is the answer to `rustc_version_command`.
/// Fails with `ToolchainUnavailable` where the query failed or its output
/// names no version, with `ToolchainTooOld` where the minor version is below
/// 30.
pub fn step_check_rustc_version(
    _args: &BuildArgs,
    _ctx: &BuildContext,
    query: Result<String, String>,
) -> (r: Result<(), BuildError>)
    ensures
        outcome_view(r) == rustc_version_check(text_outcome(query)),
{
    let local_minor_version = match rustc_minor_version(query) {
        Ok(minor) => minor,
        Err(e) => {
            return Err(e);
        },
    };
    if local_minor_version < MIN_RUSTC_MINOR {
        return Err(
            BuildError::new(
                ErrorKind::ToolchainTooOld,
                concat3(
                    "Your version of Rust, '1.",
                    decimal(local_minor_version as u64).as_str(),
                    "', is not supported. Please install Rust version 1.30.0 or higher.",
                ),
            ),
        );
    }
    Ok(())
}

/// The failure of a manifest with the wrong library kind.
pub open spec fn invalid_crate_type() -> Failure {
    Failure { kind: ErrorKind::InvalidLibraryKind, message: INVALID_CRATE_TYPE@ }
}

/// How the check of the library kind ends.
pub open spec fn crate_config_check(crate_type: Seq<char>) -> Result<(), Failure> {
    if crate_type == REQUIRED_CRATE_TYPE@ {
        Ok(())
    } else {
        Err(invalid_crate_type())
    }
}

/// Check that the library kind of the context is `cdylib`.
///
/// Fails with `InvalidLibraryKind` otherwise; the message holds the lines to
/// add to the manifest.
pub fn step_check_crate_config(_args: &BuildArgs, ctx: &BuildContext) -> (r: Result<(), BuildError>)
    ensures
        outcome_view(r) == crate_config_check(ctx@.crate_type),
{
    if text_eq(ctx.crate_type(), REQUIRED_CRATE_TYPE) {
        Ok(())
    } else {
        Err(BuildError::new(ErrorKind::InvalidLibraryKind, String::from_str(INVALID_CRATE_TYPE)))
    }
}

/// What has happened so far in the check for the target.
#[derive(Debug, PartialEq, Eq)]
pub enum TargetEvent {
    /// Nothing yet.
    Start,
    /// `rustc --print sysroot` has ended: its output, or the message of its
    /// failure.
    Sysroot(Result<String, String>),
    /// `directory` was looked for, to learn whether the target is in the
    /// installation rooted at `sysroot`.
    Probed { sysroot: String, directory: ProjectPath, present: bool },
    /// `rustup target add` has ended.
    Installed(Result<(), String>),
}

/// What the check for the target needs next.
#[derive(Debug, PartialEq, Eq)]
pub enum TargetAction {
    /// Run this command and come back with `TargetEvent::Sysroot`.
    QuerySysroot(Command),
    /// See whether `directory` exists and come back with
    /// `TargetEvent::Probed` for this `sysroot` and this `directory`.
    Probe { sysroot: String, directory: ProjectPath },
    /// Run this command and come back with `TargetEvent::Installed`.
    Install(Command),
    /// The step has ended.
    Finish(Result<(), BuildError>),
}

/// The mathematical content of a [`TargetEvent`].
pub enum TargetEventView {
    Start,
    Sysroot(Result<Seq<char>, Seq<char>>),
    Probed { sysroot: Seq<char>, directory: PathView, present: bool },
    Installed(Result<(), Seq<char>>),
}

/// The mathematical content of a [`TargetAction`].
pub enum TargetActionView {
    QuerySysroot(CommandView),
    Probe { sysroot: Seq<char>, directory: PathView },
    Install(CommandView),
    Finish(Result<(), Failure>),
}

impl View for TargetEvent {
    type V = TargetEventView;

    open spec fn view(&self) -> TargetEventView {
        match self {
            TargetEvent::Start => TargetEventView::Start,
            TargetEvent::Sysroot(query) => TargetEventView::Sysroot(text_outcome(*query)),
            TargetEvent::Probed { sysroot, directory, present } => TargetEventView::Probed {
                sysroot: sysroot@,
                directory: directory@,
                present: *present,
            },
            TargetEvent::Installed(exit) => TargetEventView::Installed(unit_outcome(*exit)),
        }
    }
}

impl View for TargetAction {
    type V = TargetActionView;

    open spec fn view(&self) -> TargetActionView {
        match self {
            TargetAction::QuerySysroot(command) => TargetActionView::QuerySysroot(command@),
            TargetAction::Probe { sysroot, directory } => TargetActionView::Probe {
                sysroot: sysroot@,
                directory: directory@,
            },
            TargetAction::Install(command) => TargetActionView::Install(command@),
            TargetAction::Finish(r) => TargetActionView::Finish(outcome_view(*r)),
        }
    }
}

/// The directory that holds the target's standard library in an installation
/// rooted at `sysroot`.
pub open spec fn wasm32_target_dir(sysroot: Seq<char>) -> PathView {
    PathView { anchor: sysroot, parts: seq!["lib/rustlib"@, "wasm32-unknown-unknown"@] }
}

/// The installation root reported by the compiler; a query that failed fails
/// with `ToolchainUnavailable`.
pub open spec fn rustc_sysroot(query: Result<Seq<char>, Seq<char>>) -> Result<Seq<char>, Failure> {
    match query {
        Ok(sysroot) => Ok(sysroot),
        Err(message) => Err(
            toolchain_unavailable("Getting rustc's sysroot wasn't successful. Got "@ + message),
        ),
    }
}

/// How the installation of the target ends for the given end of `rustup`.
pub open spec fn rustup_add_check(exit: Result<(), Seq<char>>) -> Result<(), Failure> {
    match exit {
        Ok(_) => Ok(()),
        Err(message) => Err(
            Failure {
                kind: ErrorKind::TargetInstallFailed,
                message: "Adding the wasm32-unknown-unknown target with rustup failed, error = "@
                    + message,
            },
        ),
    }
}

/// A probe shows the target in the installation rooted at `sysroot`: what was
/// looked for is the target's directory in that installation, and it is there.
pub open spec fn target_in_sysroot(sysroot: Seq<char>, directory: PathView, present: bool) -> bool {
    present && directory == wasm32_target_dir(sysroot)
}

/// The installation is looked after by `rustup`: its root has `rustup` in it.
pub open spec fn managed_by_rustup(sysroot: Seq<char>) -> bool {
    occurs_in(sysroot, "rustup"@)
}

/// What the check for the target does after `event`.
///
/// A target that a probe shows ends the step at once. A missing one is installed
/// where `rustup` looks after the installation, and only a failure of that
/// installation fails the step; elsewhere a missing target is let through.
pub open spec fn target_step(event: TargetEventView) -> TargetActionView {
    match event {
        TargetEventView::Start => TargetActionView::QuerySysroot(
            CommandView { program: "rustc"@, arguments: seq!["--print"@, "sysroot"@] },
        ),
        TargetEventView::Sysroot(query) => match rustc_sysroot(query) {
            Ok(sysroot) => TargetActionView::Probe {
                sysroot,
                directory: wasm32_target_dir(sysroot),
            },
            Err(e) => TargetActionView::Finish(Err(e)),
        },
        TargetEventView::Probed { sysroot, directory, present } => if target_in_sysroot(
            sysroot,
            directory,
            present,
        ) {
            TargetActionView::Finish(Ok(()))
        } else if managed_by_rustup(sysroot) {
            TargetActionView::Install(
                CommandView {
                    program: "rustup"@,
                    arguments: seq!["target"@, "add"@, "wasm32-unknown-unknown"@],
                },
            )
        } else {
            TargetActionView::Finish(Ok(()))
        },
        TargetEventView::Installed(exit) => TargetActionView::Finish(rustup_add_check(exit)),
    }
}

/// The compiler's installation root, from the answer to
/// `rustc --print sysroot`.
pub fn get_rustc_sysroot(query: Result<String, String>) -> (r: Result<String, BuildError>)
    ensures
        match r {
            Ok(sysroot) => rustc_sysroot(text_outcome(query)) == Ok::<Seq<char>, Failure>(sysroot@),
            Err(e) => rustc_sysroot(text_outcome(query)) == Err::<Seq<char>, Failure>(e@),
        },
{
    match query {
        Ok(sysroot) => Ok(sysroot),
        Err(message) => Err(
            BuildError::new(
                ErrorKind::ToolchainUnavailable,
                concat2("Getting rustc's sysroot wasn't successful. Got ", message.as_str()),
            ),
        ),
    }
}

/// The directory whose presence says that `wasm32-unknown-unknown` is in the
/// installation rooted at `sysroot`.
pub fn wasm32_target_path(sysroot: &str) -> (directory: ProjectPath)
    ensures
        directory@ == wasm32_target_dir(sysroot@),
{
    let wasm32_target = "wasm32-unknown-unknown";
    let rustlib_path = ProjectPath::from_anchor(sysroot).join("lib/rustlib");
    let directory = rustlib_path.join(wasm32_target);
    assert(directory@.parts =~= wasm32_target_dir(sysroot@).parts);
    directory
}

/// Checks if the wasm32-unknown-unknown is present in rustc's sysroot, from a
/// probe of the file system: `directory` was looked for, and `present` says
/// whether it is there. A probe of any other directory than
/// `wasm32_target_path(sysroot)` shows nothing.
pub fn is_wasm32_target_in_sysroot(
    sysroot: &str,
    directory: &ProjectPath,
    present: bool,
) -> (found: bool)
    ensures
        found == target_in_sysroot(sysroot@, directory@, present),
{
    present && directory.same_as(&wasm32_target_path(sysroot))
}

/// Conclude the installation of the target with `rustup`.
pub fn rustup_add_wasm_target(exit: Result<(), String>) -> (r: Result<(), BuildError>)
    ensures
        outcome_view(r) == rustup_add_check(unit_outcome(exit)),
{
    match exit {
        Ok(_) => Ok(()),
        Err(err) => Err(
            BuildError::new(
                ErrorKind::TargetInstallFailed,
                concat2(
                    "Adding the wasm32-unknown-unknown target with rustup failed, error = ",
                    err.as_str(),
                ),
            ),
        ),
    }
}

/// Check that the target is installed, one piece of outside work at a time.
///
/// The caller begins with `TargetEvent::Start`, does what the returned action
/// asks for and comes back with the event that the action names, until the
/// action is `Finish`.
pub fn step_check_for_wasm_target(
    _args: &BuildArgs,
    _ctx: &BuildContext,
    event: TargetEvent,
) -> (action: TargetAction)
    ensures
        action@ == target_step(event@),
{
    match event {
        TargetEvent::Start => TargetAction::QuerySysroot(rustc_sysroot_command()),
        TargetEvent::Sysroot(query) => match get_rustc_sysroot(query) {
            Ok(sysroot) => {
                let directory = wasm32_target_path(sysroot.as_str());
                TargetAction::Probe { sysroot, directory }
            },
            Err(e) => TargetAction::Finish(Err(e)),
        },
        TargetEvent::Probed { sysroot, directory, present } => {
            // If wasm32-unknown-unknown already exists we're ok.
            if is_wasm32_target_in_sysroot(sysroot.as_str(), &directory, present) {
                TargetAction::Finish(Ok(()))
            } else if contains(sysroot.as_str(), "rustup") {
                // A sysroot with "rustup" in it is taken to be rustup's.
                TargetAction::Install(rustup_add_wasm_target_command())
            } else {
                TargetAction::Finish(Ok(()))
            }
        },
        TargetEvent::Installed(exit) => TargetAction::Finish(rustup_add_wasm_target(exit)),
    }
}

/// The failure of a compilation, with the message of the compiler's failure.
pub open spec fn compilation_failed(message: Seq<char>) -> Failure {
    Failure {
        kind: ErrorKind::CompilationFailed,
        message: "build wasm failed, error = "@ + message,
    }
}

/// How the compilation step ends for the given end of the compiler's run.
pub open spec fn build_wasm_check(exit: Result<(), Seq<char>>) -> Result<(), Failure> {
    match exit {
        Ok(_) => Ok(()),
        Err(message) => Err(compilation_failed(message)),
    }
}

/// Conclude the compilation.
///
/// `exit` says how the run of `cargo_build_command` ended. A failed run
/// fails the step with `CompilationFailed`; a run that succeeded has left the
/// artifact at `ctx.wasm_in()`.
pub fn step_build_wasm(
    _args: &BuildArgs,
    _ctx: &BuildContext,
    exit: Result<(), String>,
) -> (r: Result<(), BuildError>)
    ensures
        outcome_view(r) == build_wasm_check(unit_outcome(exit)),
{
    match exit {
        Ok(_) => Ok(()),
        Err(err) => Err(
            BuildError::new(
                ErrorKind::CompilationFailed,
                concat2("build wasm failed, error = ", err.as_str()),
            ),
        ),
    }
}

/// The work of the optimizer: read `input`, optimize for size, write `output`.
/// The two are different files, so the input is left as it is.
#[derive(Debug, PartialEq, Eq)]
pub struct Optimization {
    pub input: ProjectPath,
    pub output: ProjectPath,
}

/// What the optimization step asks for: the compiler's artifact is read and
/// the optimized artifact is written.
pub fn wasm_opt_plan(ctx: &BuildContext) -> (plan: Optimization)
    ensures
        plan.input@ == ctx@.wasm_in,
        plan.output@ == ctx@.wasm_out,
        plan.input@ != plan.output@,
{
    Optimization { input: ctx.wasm_in().duplicate(), output: ctx.wasm_out().duplicate() }
}

/// How the optimization step ends for the given end of the optimizer's run.
pub open spec fn wasm_opt_check(exit: Result<(), Seq<char>>) -> Result<(), Failure> {
    match exit {
        Ok(_) => Ok(()),
        Err(message) => Err(Failure { kind: ErrorKind::OptimizationFailed, message }),
    }
}

/// Conclude the optimization.
///
/// `exit` says how the optimizer ended on the work of `wasm_opt_plan`. A
/// failed run fails the step with `OptimizationFailed` and the optimizer's own
/// message.
pub fn step_wasm_opt(
    _args: &BuildArgs,
    _ctx: &BuildContext,
    exit: Result<(), String>,
) -> (r: Result<(), BuildError>)
    ensures
        outcome_view(r) == wasm_opt_check(unit_outcome(exit)),
{
    match exit {
        Ok(_) => Ok(()),
        Err(err) => Err(BuildError::new(ErrorKind::OptimizationFailed, err)),
    }
}

/// The file whose size the size check asks for: the optimized artifact.
pub fn binary_to_check(ctx: &BuildContext) -> (path: &ProjectPath)
    ensures
        path@ == ctx@.wasm_out,
{
    ctx.wasm_out()
}

/// The failure of an artifact of `len` bytes that is too large.
pub open spec fn artifact_too_large(len: nat) -> Failure {
    Failure {
        kind: ErrorKind::ArtifactTooLarge,
        message: "Wasm binary too large, max size is 4194304, but got "@ + decimal_text(len),
    }
}

/// How the size check ends for an artifact of `len` bytes.
pub open spec fn binary_size_check(len: nat) -> Result<(), Failure> {
    if len > MAX_WASM_SIZE {
        Err(artifact_too_large(len))
    } else {
        Ok(())
    }
}

/// Check the size of the optimized artifact.
///
/// `len` is the length in bytes of the file at `binary_to_check`. Fails with
/// `ArtifactTooLarge` where it exceeds 4,194,304.
pub fn step_iroha_binary_size_check(
    _args: &BuildArgs,
    _ctx: &BuildContext,
    len: u64,
) -> (r: Result<(), BuildError>)
    ensures
        outcome_view(r) == binary_size_check(len as nat),
{
    if len > MAX_WASM_SIZE {
        return Err(
            BuildError::new(
                ErrorKind::ArtifactTooLarge,
                concat2(
                    "Wasm binary too large, max size is 4194304, but got ",
                    decimal(len).as_str(),
                ),
            ),
        );
    }
    Ok(())
}

} // verus!
