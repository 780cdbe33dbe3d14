//! The context of a build: what every step reads, derived once from the
//! project root, the manifest and the command line.

use crate::error::{BuildError, ErrorKind, Failure};
use crate::manifest::{parse_cargo_config, read_text, CargoConfig, ConfigView};
use crate::path::{PathView, ProjectPath};
use crate::text::{concat2, text_eq};
use vstd::prelude::*;

verus! {

/// Everything required to configure and run the `build` command.
#[derive(Debug, PartialEq, Eq)]
pub struct BuildArgs {
    /// Extra options, handed to the compiler as they are.
    pub extra_options: Vec<String>,
}

impl View for BuildArgs {
    type V = Seq<Seq<char>>;

    open spec fn view(&self) -> Seq<Seq<char>> {
        self.extra_options.deep_view()
    }
}

impl BuildArgs {
    /// The arguments of a build with the given extra options.
    pub fn new(extra_options: Vec<String>) -> (args: BuildArgs)
        ensures
            args@ == extra_options.deep_view(),
    {
        BuildArgs { extra_options }
    }

    /// Whether the options ask for a release build: one of them is exactly
    /// `--release`.
    pub fn is_release(&self) -> (release: bool)
        ensures
            release == is_release(self@),
    {
        let mut i: usize = 0;
        while i < self.extra_options.len()
            invariant
                i <= self.extra_options.len(),
                forall|j: int| 0 <= j < i ==> self@[j] != "--release"@,
            decreases self.extra_options.len() - i,
        {
            if text_eq(self.extra_options[i].as_str(), "--release") {
                assert(self@[i as int] == "--release"@);
                return true;
            }
            i += 1;
        }
        false
    }
}

/// The options hold the token `--release`.
pub open spec fn is_release(options: Seq<Seq<char>>) -> bool {
    options.contains("--release"@)
}

/// The name of the compiler's output directory for the mode that the options
/// select.
pub open spec fn profile(options: Seq<Seq<char>>) -> Seq<char> {
    if is_release(options) {
        "release"@
    } else {
        "debug"@
    }
}

/// The directory that the compiler writes the artifact to.
pub open spec fn wasm_folder(root: PathView, options: Seq<Seq<char>>) -> PathView {
    root.join("target"@).join("wasm32-unknown-unknown"@).join(profile(options))
}

/// The mathematical content of a [`BuildContext`].
pub struct ContextView {
    pub crate_type: Seq<char>,
    pub wasm_in: PathView,
    pub wasm_out: PathView,
}

/// Shown where the manifest lists no library kind: what to add to it.
pub const MISSING_CRATE_TYPE: &'static str =
    "crate-type is empty. Add the following to your Cargo.toml file:\n\n[lib]\ncrate-type = [\"cdylib\"]";

/// The failure of a manifest that declares no library kind.
pub open spec fn missing_library_kind() -> Failure {
    Failure { kind: ErrorKind::MissingLibraryKind, message: MISSING_CRATE_TYPE@ }
}

/// The context of a build with the given options, in the project rooted at
/// `root` whose manifest holds `config`.
pub open spec fn context_of(options: Seq<Seq<char>>, root: PathView, config: ConfigView) -> Result<
    ContextView,
    Failure,
> {
    if config.crate_type.len() == 0 {
        Err(missing_library_kind())
    } else {
        Ok(
            ContextView {
                crate_type: config.crate_type[0],
                wasm_in: wasm_folder(root, options).join(config.name + ".wasm"@),
                wasm_out: wasm_folder(root, options).join(config.name + "_optimized.wasm"@),
            },
        )
    }
}

/// What the steps of one build share. It is made once and never changed.
#[derive(Debug, PartialEq, Eq)]
pub struct BuildContext {
    crate_type: String,
    wasm_in: ProjectPath,
    wasm_out: ProjectPath,
}

impl View for BuildContext {
    type V = ContextView;

    closed spec fn view(&self) -> ContextView {
        ContextView {
            crate_type: self.crate_type@,
            wasm_in: self.wasm_in@,
            wasm_out: self.wasm_out@,
        }
    }
}

/// A made context as contracts see it.
pub open spec fn context_view(r: Result<BuildContext, BuildError>) -> Result<ContextView, Failure> {
    match r {
        Ok(ctx) => Ok(ctx@),
        Err(e) => Err(e@),
    }
}

impl BuildContext {
    /// The compiler's artifact and the optimized artifact lie in one directory
    /// and are two files.
    #[verifier::type_invariant]
    spec fn distinct_artifacts(self) -> bool {
        &&& self.wasm_in@ != self.wasm_out@
        &&& self.wasm_in@.parent().is_some()
        &&& self.wasm_in@.parent() == self.wasm_out@.parent()
    }

    /// The context of a build, from the project root and the parsed manifest.
    ///
    /// Fails with `MissingLibraryKind` where the manifest lists no library
    /// kind; the first one listed is the one that counts.
    pub fn from_config(args: &BuildArgs, root: &ProjectPath, config: &CargoConfig) -> (r: Result<
        BuildContext,
        BuildError,
    >)
        ensures
            context_view(r) == context_of(args@, root@, config@),
    {
        if config.lib.crate_type.len() == 0 {
            return Err(
                BuildError::new(
                    ErrorKind::MissingLibraryKind,
                    String::from_str(MISSING_CRATE_TYPE),
                ),
            );
        }
        let profile = if args.is_release() {
            "release"
        } else {
            "debug"
        };
        let wasm_folder = root.join("target").join("wasm32-unknown-unknown").join(profile);
        let wasm_name = config.package.name.as_str();
        let wasm_in = wasm_folder.join(concat2(wasm_name, ".wasm").as_str());
        let wasm_out = wasm_folder.join(concat2(wasm_name, "_optimized.wasm").as_str());
        let crate_type = config.lib.crate_type[0].clone();
        proof {
            artifacts_are_distinct(args@, root@, config@);
        }
        Ok(BuildContext { crate_type, wasm_in, wasm_out })
    }

    /// The context of a build, from the project root and the text of its
    /// manifest.
    pub fn new(args: &BuildArgs, root: &ProjectPath, manifest: &str) -> (r: Result<
        BuildContext,
        BuildError,
    >)
        ensures
            context_view(r) == match read_text(manifest@) {
                Ok(config) => context_of(args@, root@, config),
                Err(e) => Err(e),
            },
    {
        match parse_cargo_config(manifest) {
            Ok(config) => BuildContext::from_config(args, root, &config),
            Err(e) => Err(e),
        }
    }

    /// The library kind that the manifest declares first.
    pub fn crate_type(&self) -> (kind: &str)
        ensures
            kind@ == self@.crate_type,
    {
        self.crate_type.as_str()
    }

    /// Where the compiler leaves its artifact.
    pub fn wasm_in(&self) -> (path: &ProjectPath)
        ensures
            path@ == self@.wasm_in,
            path@ != self@.wasm_out,
    {
        proof {
            use_type_invariant(self);
        }
        &self.wasm_in
    }

    /// Where the optimized artifact goes.
    pub fn wasm_out(&self) -> (path: &ProjectPath)
        ensures
            path@ == self@.wasm_out,
            path@ != self@.wasm_in,
    {
        proof {
            use_type_invariant(self);
        }
        &self.wasm_out
    }
}

/// The options select the mode: with the token `--release` among them the
/// artifacts lie in `target/wasm32-unknown-unknown/release` below the root,
/// without it in `target/wasm32-unknown-unknown/debug`.
pub proof fn release_token_selects_mode(
    options: Seq<Seq<char>>,
    root: PathView,
    config: ConfigView,
)
    ensures
        options.contains("--release"@) ==> profile(options) == "release"@,
        !options.contains("--release"@) ==> profile(options) == "debug"@,
        "release"@ != "debug"@,
        context_of(options, root, config) matches Ok(ctx) ==> {
            let folder = root.join("target"@).join("wasm32-unknown-unknown"@).join(
                profile(options),
            );
            &&& ctx.wasm_in.parent() == Some(folder)
            &&& ctx.wasm_out.parent() == Some(folder)
        },
{
    reveal_strlit("release");
    reveal_strlit("debug");
    assert("release"@.len() != "debug"@.len());
    if config.crate_type.len() > 0 {
        let folder = wasm_folder(root, options);
        let ctx = context_of(options, root, config)->Ok_0;
        assert(ctx.wasm_in.ancestor(ctx.wasm_in.parts.len() - 1) == folder) by {
            assert(ctx.wasm_in.parts.take(ctx.wasm_in.parts.len() - 1) =~= folder.parts);
        }
        assert(ctx.wasm_out.ancestor(ctx.wasm_out.parts.len() - 1) == folder) by {
            assert(ctx.wasm_out.parts.take(ctx.wasm_out.parts.len() - 1) =~= folder.parts);
        }
    }
}

/// The two artifacts of a context are different files, both directly in the
/// compiler's output directory, which lies in the project.
pub proof fn artifacts_are_distinct(options: Seq<Seq<char>>, root: PathView, config: ConfigView)
    ensures
        context_of(options, root, config) matches Ok(ctx) ==> {
            &&& ctx.wasm_in != ctx.wasm_out
            &&& ctx.wasm_in.parent() == Some(wasm_folder(root, options))
            &&& ctx.wasm_out.parent() == Some(wasm_folder(root, options))
            &&& ctx.wasm_in.is_under(root)
            &&& ctx.wasm_out.is_under(root)
        },
{
    if config.crate_type.len() > 0 {
        release_token_selects_mode(options, root, config);
        let ctx = context_of(options, root, config)->Ok_0;
        let depth = root.parts.len() as int;
        assert(ctx.wasm_in.parts.take(depth) =~= root.parts);
        assert(ctx.wasm_out.parts.take(depth) =~= root.parts);
        reveal_strlit(".wasm");
        reveal_strlit("_optimized.wasm");
        assert(ctx.wasm_in.parts.last().len() != ctx.wasm_out.parts.last().len());
    }
}

} // verus!
