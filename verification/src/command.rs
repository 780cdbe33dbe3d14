//! The tools that the pipelines ask their caller to run.

use crate::context::{is_release, BuildArgs};
use crate::text::push_text;
use vstd::prelude::*;

verus! {

/// A program and the arguments to run it with.
#[derive(Debug, PartialEq, Eq)]
pub struct Command {
    pub program: String,
    pub arguments: Vec<String>,
}

/// The mathematical content of a [`Command`].
pub struct CommandView {
    pub program: Seq<char>,
    pub arguments: Seq<Seq<char>>,
}

impl View for Command {
    type V = CommandView;

    open spec fn view(&self) -> CommandView {
        CommandView { program: self.program@, arguments: self.arguments.deep_view() }
    }
}

/// The arguments that every compilation starts with: the nightly toolchain,
/// a standard library built for the target with panics that abort at once,
/// and the target itself.
pub open spec fn fixed_build_arguments() -> Seq<Seq<char>> {
    seq![
        "+nightly"@,
        "build"@,
        "-Z"@,
        "build-std"@,
        "-Z"@,
        "build-std-features=panic_immediate_abort"@,
        "--target"@,
        "wasm32-unknown-unknown"@,
    ]
}

/// `rustc --version`: its output names the compiler's version.
pub fn rustc_version_command() -> (command: Command)
    ensures
        command@ == (CommandView { program: "rustc"@, arguments: seq!["--version"@] }),
{
    let mut arguments: Vec<String> = Vec::new();
    push_text(&mut arguments, "--version");
    assert(arguments.deep_view() =~= seq!["--version"@]);
    Command { program: String::from_str("rustc"), arguments }
}

/// `rustc --print sysroot`: its output is the compiler's installation root.
pub fn rustc_sysroot_command() -> (command: Command)
    ensures
        command@ == (CommandView { program: "rustc"@, arguments: seq!["--print"@, "sysroot"@] }),
{
    let mut arguments: Vec<String> = Vec::new();
    push_text(&mut arguments, "--print");
    push_text(&mut arguments, "sysroot");
    assert(arguments.deep_view() =~= seq!["--print"@, "sysroot"@]);
    Command { program: String::from_str("rustc"), arguments }
}

/// `rustup target add wasm32-unknown-unknown`.
pub fn rustup_add_wasm_target_command() -> (command: Command)
    ensures
        command@ == (CommandView {
            program: "rustup"@,
            arguments: seq!["target"@, "add"@, "wasm32-unknown-unknown"@],
        }),
{
    let mut arguments: Vec<String> = Vec::new();
    push_text(&mut arguments, "target");
    push_text(&mut arguments, "add");
    push_text(&mut arguments, "wasm32-unknown-unknown");
    assert(arguments.deep_view() =~= seq!["target"@, "add"@, "wasm32-unknown-unknown"@]);
    Command { program: String::from_str("rustup"), arguments }
}

/// The compilation: `cargo` with the fixed arguments, then the extra options
/// of the command line, each as it was given and in the order given.
pub fn cargo_build_command(args: &BuildArgs) -> (command: Command)
    ensures
        command@ == (CommandView {
            program: "cargo"@,
            arguments: fixed_build_arguments() + args@,
        }),
{
    let mut arguments: Vec<String> = Vec::new();
    push_text(&mut arguments, "+nightly");
    push_text(&mut arguments, "build");
    push_text(&mut arguments, "-Z");
    push_text(&mut arguments, "build-std");
    push_text(&mut arguments, "-Z");
    push_text(&mut arguments, "build-std-features=panic_immediate_abort");
    push_text(&mut arguments, "--target");
    push_text(&mut arguments, "wasm32-unknown-unknown");
    let mut i: usize = 0;
    while i < args.extra_options.len()
        invariant
            i <= args.extra_options.len(),
            arguments.deep_view() == fixed_build_arguments() + args@.take(i as int),
        decreases args.extra_options.len() - i,
    {
        push_text(&mut arguments, args.extra_options[i].as_str());
        i += 1;
    }
    assert(args@.take(args.extra_options.len() as int) =~= args@);
    Command { program: String::from_str("cargo"), arguments }
}

/// The token that selects the mode reaches the compiler: the compilation is
/// run with `--release` exactly when the options hold it, so the compiler and
/// the build context agree on the mode.
pub proof fn release_token_reaches_compiler(options: Seq<Seq<char>>)
    ensures
        (fixed_build_arguments() + options).contains("--release"@) <==> is_release(options),
{
    let all = fixed_build_arguments() + options;
    reveal_strlit("--release");
    reveal_strlit("+nightly");
    reveal_strlit("build");
    reveal_strlit("-Z");
    reveal_strlit("build-std");
    reveal_strlit("build-std-features=panic_immediate_abort");
    reveal_strlit("--target");
    reveal_strlit("wasm32-unknown-unknown");
    assert forall|i: int| 0 <= i < 8 implies #[trigger] fixed_build_arguments()[i]
        != "--release"@ by {
        let fixed = fixed_build_arguments()[i];
        assert(fixed.len() != "--release"@.len() || fixed[0] != "--release"@[0]);
    }
    if is_release(options) {
        let i = choose|i: int| 0 <= i < options.len() && options[i] == "--release"@;
        assert(all[8 + i] == "--release"@);
    }
    if all.contains("--release"@) {
        let i = choose|i: int| 0 <= i < all.len() && all[i] == "--release"@;
        assert(options[i - 8] == "--release"@);
    }
}

/// `cargo new <name> --lib`.
pub fn cargo_new_command(name: &str) -> (command: Command)
    ensures
        command@ == (CommandView { program: "cargo"@, arguments: seq!["new"@, name@, "--lib"@] }),
{
    let mut arguments: Vec<String> = Vec::new();
    push_text(&mut arguments, "new");
    push_text(&mut arguments, name);
    push_text(&mut arguments, "--lib");
    assert(arguments.deep_view() =~= seq!["new"@, name@, "--lib"@]);
    Command { program: String::from_str("cargo"), arguments }
}

} // verus!
