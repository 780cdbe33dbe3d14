use iroha_wasm_pack::command::{
    cargo_build_command, cargo_new_command, rustc_sysroot_command, rustc_version_command,
    rustup_add_wasm_target_command, Command,
};
use iroha_wasm_pack::steps::{
    binary_to_check, get_rustc_sysroot, is_wasm32_target_in_sysroot, rustc_minor_version,
    rustup_add_wasm_target,
    step_build_wasm, step_check_for_wasm_target, step_check_rustc_version,
    step_iroha_binary_size_check, step_wasm_opt, wasm32_target_path, wasm_opt_plan, TargetAction,
    TargetEvent, MAX_WASM_SIZE, MIN_RUSTC_MINOR,
};
use iroha_wasm_pack::{BuildArgs, BuildContext, BuildError, ErrorKind, ProjectPath};

const UNKNOWN_VERSION: &str = "We can't figure out what your Rust version is- which means you might not have Rust installed. Please install Rust version 1.30.0 or higher.";

fn args(options: &[&str]) -> BuildArgs {
    BuildArgs::new(options.iter().map(|o| o.to_string()).collect())
}

fn ctx() -> BuildContext {
    BuildContext::new(
        &args(&[]),
        &ProjectPath::new("/".to_string(), vec!["p".to_string()]),
        "[package]\nname = \"a\"\n[lib]\ncrate-type = [\"cdylib\"]\n",
    )
    .unwrap()
}

fn command(program: &str, arguments: &[&str]) -> Command {
    Command {
        program: program.to_string(),
        arguments: arguments.iter().map(|a| a.to_string()).collect(),
    }
}

fn version_check(output: &str) -> Result<(), BuildError> {
    step_check_rustc_version(&args(&[]), &ctx(), Ok(output.to_string()))
}

fn unavailable(message: &str) -> BuildError {
    BuildError::new(ErrorKind::ToolchainUnavailable, message.to_string())
}

fn target(event: TargetEvent) -> TargetAction {
    step_check_for_wasm_target(&args(&[]), &ctx(), event)
}

#[test]
fn limits_are_the_documented_ones() {
    assert_eq!(MAX_WASM_SIZE, 4_194_304);
    assert_eq!(MIN_RUSTC_MINOR, 30);
}

#[test]
fn version_1_25_0_is_too_old() {
    let e = version_check("rustc 1.25.0").unwrap_err();
    assert_eq!(e.kind, ErrorKind::ToolchainTooOld);
    assert_eq!(
        e.message,
        "Your version of Rust, '1.25', is not supported. Please install Rust version 1.30.0 or higher."
    );
}

#[test]
fn version_1_30_0_passes() {
    assert_eq!(version_check("rustc 1.30.0"), Ok(()));
}

#[test]
fn version_1_29_is_the_last_that_fails() {
    assert_eq!(version_check("rustc 1.29.2").unwrap_err().kind, ErrorKind::ToolchainTooOld);
    assert_eq!(version_check("rustc 1.0.0").unwrap_err().message,
        "Your version of Rust, '1.0', is not supported. Please install Rust version 1.30.0 or higher.");
}

#[test]
fn real_version_lines_pass() {
    assert_eq!(version_check("rustc 1.75.0 (82e1608df 2023-12-21)"), Ok(()));
    assert_eq!(version_check("rustc 1.66.0-nightly (0da281b60 2022-10-27)"), Ok(()));
    assert_eq!(version_check("rustc 1.30"), Ok(()));
}

#[test]
fn minor_version_is_the_second_field() {
    assert_eq!(rustc_minor_version(Ok("rustc 1.75.0 (82e1608df 2023-12-21)".to_string())), Ok(75));
    assert_eq!(rustc_minor_version(Ok("rustc 1.+31.0".to_string())), Ok(31));
    assert_eq!(rustc_minor_version(Ok("rustc 1.4294967295".to_string())), Ok(u32::MAX));
}

#[test]
fn failed_query_is_unavailable_with_its_own_message() {
    let r = step_check_rustc_version(&args(&[]), &ctx(), Err("No such file or directory (os error 2)".to_string()));
    assert_eq!(r, Err(unavailable("No such file or directory (os error 2)")));
}

#[test]
fn output_that_names_no_version_is_unavailable() {
    for output in ["", "rustc", "rustc 1", "rustc 2.0.0", "rustc 10.1", "cargo 1.75.0", " rustc 1.75.0", "rustc 1 .75", "1.75.0", "."] {
        assert_eq!(version_check(output), Err(unavailable(UNKNOWN_VERSION)), "for {:?}", output);
    }
}

#[test]
fn minor_version_that_is_no_number_is_unavailable() {
    assert_eq!(version_check("rustc 1."), Err(unavailable("cannot parse integer from empty string")));
    assert_eq!(version_check("rustc 1..0"), Err(unavailable("cannot parse integer from empty string")));
    assert_eq!(version_check("rustc 1.75-beta.1"), Err(unavailable("invalid digit found in string")));
    assert_eq!(version_check("rustc 1.x.0"), Err(unavailable("invalid digit found in string")));
    assert_eq!(version_check("rustc 1. 75.0"), Err(unavailable("invalid digit found in string")));
    assert_eq!(
        version_check("rustc 1.4294967296.0"),
        Err(unavailable("number too large to fit in target type"))
    );
}

#[test]
fn commands_are_the_documented_ones() {
    assert_eq!(rustc_version_command(), command("rustc", &["--version"]));
    assert_eq!(rustc_sysroot_command(), command("rustc", &["--print", "sysroot"]));
    assert_eq!(
        rustup_add_wasm_target_command(),
        command("rustup", &["target", "add", "wasm32-unknown-unknown"])
    );
    assert_eq!(cargo_new_command("foo"), command("cargo", &["new", "foo", "--lib"]));
}

#[test]
fn build_command_without_options_is_the_fixed_prefix() {
    assert_eq!(
        cargo_build_command(&args(&[])),
        command(
            "cargo",
            &[
                "+nightly",
                "build",
                "-Z",
                "build-std",
                "-Z",
                "build-std-features=panic_immediate_abort",
                "--target",
                "wasm32-unknown-unknown",
            ]
        )
    );
}

#[test]
fn build_command_forwards_options_verbatim_and_in_order() {
    let options = ["--release", "--target", "x86_64-unknown-linux-gnu", "--", "-v", "", "--release"];
    let built = cargo_build_command(&args(&options));
    assert_eq!(built.program, "cargo");
    assert_eq!(built.arguments.len(), 8 + options.len());
    assert_eq!(built.arguments[..8], cargo_build_command(&args(&[])).arguments[..]);
    assert_eq!(built.arguments[8..], options);
}

#[test]
fn build_step_wraps_the_failure() {
    assert_eq!(step_build_wasm(&args(&[]), &ctx(), Ok(())), Ok(()));
    assert_eq!(
        step_build_wasm(&args(&[]), &ctx(), Err("command [\"cargo\"] exited with code 101".to_string())),
        Err(BuildError::new(
            ErrorKind::CompilationFailed,
            "build wasm failed, error = command [\"cargo\"] exited with code 101".to_string()
        ))
    );
}

#[test]
fn wasm_opt_step_keeps_the_optimizers_message() {
    assert_eq!(step_wasm_opt(&args(&[]), &ctx(), Ok(())), Ok(()));
    assert_eq!(
        step_wasm_opt(&args(&[]), &ctx(), Err("unable to read input file".to_string())),
        Err(BuildError::new(ErrorKind::OptimizationFailed, "unable to read input file".to_string()))
    );
}

#[test]
fn artifact_of_exactly_the_limit_passes() {
    assert_eq!(step_iroha_binary_size_check(&args(&[]), &ctx(), 4_194_304), Ok(()));
}

#[test]
fn artifact_one_byte_over_the_limit_fails_with_both_numbers() {
    let e = step_iroha_binary_size_check(&args(&[]), &ctx(), 4_194_305).unwrap_err();
    assert_eq!(e.kind, ErrorKind::ArtifactTooLarge);
    assert_eq!(e.message, "Wasm binary too large, max size is 4194304, but got 4194305");
    assert!(e.message.contains("4194304"));
    assert!(e.message.contains("4194305"));
}

#[test]
fn size_check_at_the_ends_of_the_range() {
    assert_eq!(step_iroha_binary_size_check(&args(&[]), &ctx(), 0), Ok(()));
    assert_eq!(
        step_iroha_binary_size_check(&args(&[]), &ctx(), u64::MAX).unwrap_err().message,
        "Wasm binary too large, max size is 4194304, but got 18446744073709551615"
    );
}

#[test]
fn sysroot_of_a_failed_query_is_unavailable() {
    assert_eq!(get_rustc_sysroot(Ok("/opt/rust".to_string())), Ok("/opt/rust".to_string()));
    assert_eq!(
        get_rustc_sysroot(Err("not found".to_string())),
        Err(unavailable("Getting rustc's sysroot wasn't successful. Got not found"))
    );
}

#[test]
fn target_directory_lies_under_rustlib() {
    assert_eq!(
        wasm32_target_path("/opt/rust"),
        ProjectPath::new(
            "/opt/rust".to_string(),
            vec!["lib/rustlib".to_string(), "wasm32-unknown-unknown".to_string()]
        )
    );
}

#[test]
fn target_check_starts_with_the_sysroot_query() {
    assert_eq!(target(TargetEvent::Start), TargetAction::QuerySysroot(rustc_sysroot_command()));
}

#[test]
fn target_check_probes_the_directory_of_the_sysroot() {
    assert_eq!(
        target(TargetEvent::Sysroot(Ok("/home/me/.rustup/toolchains/nightly".to_string()))),
        TargetAction::Probe {
            sysroot: "/home/me/.rustup/toolchains/nightly".to_string(),
            directory: wasm32_target_path("/home/me/.rustup/toolchains/nightly"),
        }
    );
}

#[test]
fn target_check_ends_where_the_sysroot_query_failed() {
    assert_eq!(
        target(TargetEvent::Sysroot(Err("boom".to_string()))),
        TargetAction::Finish(Err(unavailable("Getting rustc's sysroot wasn't successful. Got boom")))
    );
}

#[test]
fn present_target_ends_the_check() {
    for sysroot in ["/home/me/.rustup/toolchains/nightly", "/usr"] {
        assert_eq!(
            target(TargetEvent::Probed {
                sysroot: sysroot.to_string(),
                directory: wasm32_target_path(sysroot),
                present: true
            }),
            TargetAction::Finish(Ok(()))
        );
    }
}

#[test]
fn missing_target_under_rustup_is_installed() {
    assert_eq!(
        target(TargetEvent::Probed {
            sysroot: "/home/me/.rustup/toolchains/nightly".to_string(),
            directory: wasm32_target_path("/home/me/.rustup/toolchains/nightly"),
            present: false
        }),
        TargetAction::Install(rustup_add_wasm_target_command())
    );
}

#[test]
fn missing_target_elsewhere_is_let_through() {
    for sysroot in ["/usr", "", "/opt/rust-up", "/home/RUSTUP"] {
        assert_eq!(
            target(TargetEvent::Probed {
                sysroot: sysroot.to_string(),
                directory: wasm32_target_path(sysroot),
                present: false
            }),
            TargetAction::Finish(Ok(()))
        );
    }
}

#[test]
fn install_outcome_ends_the_check() {
    assert_eq!(target(TargetEvent::Installed(Ok(()))), TargetAction::Finish(Ok(())));
    assert_eq!(
        target(TargetEvent::Installed(Err("exit 1".to_string()))),
        TargetAction::Finish(Err(BuildError::new(
            ErrorKind::TargetInstallFailed,
            "Adding the wasm32-unknown-unknown target with rustup failed, error = exit 1".to_string()
        )))
    );
    assert_eq!(rustup_add_wasm_target(Ok(())), Ok(()));
}

#[test]
fn target_check_run_to_its_end() {
    // A toolchain under rustup that lacks the target, and an installation that fails.
    let mut event = TargetEvent::Start;
    let mut asked = Vec::new();
    let result = loop {
        match target(event) {
            TargetAction::QuerySysroot(c) => {
                asked.push(c.arguments.join(" "));
                event = TargetEvent::Sysroot(Ok("/x/rustup/y".to_string()));
            }
            TargetAction::Probe { sysroot, directory } => {
                asked.push(directory.parts.join("|"));
                event = TargetEvent::Probed { sysroot, directory, present: false };
            }
            TargetAction::Install(c) => {
                asked.push(c.program);
                event = TargetEvent::Installed(Err("offline".to_string()));
            }
            TargetAction::Finish(r) => break r,
        }
    };
    assert_eq!(asked, vec!["--print sysroot", "lib/rustlib|wasm32-unknown-unknown", "rustup"]);
    assert_eq!(result.unwrap_err().kind, ErrorKind::TargetInstallFailed);
}

#[test]
fn minor_version_reads_numbers_as_the_standard_parser_does() {
    for field in [
        "", "+", "-", "-1", "+-1", "++1", "1+", " 1", "1 ", "1_0", "0x1f", "30-nightly", "١٢", "0", "007",
        "+25", "4294967295", "4294967296", "42949672950", "99999999999999999999", "+4294967295",
        "+4294967296", "00000000000001", "4294967296x", "429496729x6", "12a",
    ] {
        let expected = field.parse::<u32>().map_err(|e| unavailable(&e.to_string()));
        assert_eq!(rustc_minor_version(Ok(format!("rustc 1.{}", field))), expected, "for {:?}", field);
        assert_eq!(rustc_minor_version(Ok(format!("rustc 1.{}.0", field))), expected, "for {:?}", field);
    }
}

#[test]
fn compiler_sees_release_exactly_when_the_context_does() {
    for options in [
        vec![],
        vec!["--release"],
        vec!["--verbose", "--release"],
        vec!["--target", "wasm32-unknown-unknown"],
        vec!["build-std", "-Z", "+nightly"],
        vec!["--releases"],
    ] {
        let args = args(&options);
        let forwarded = cargo_build_command(&args).arguments.iter().any(|a| a == "--release");
        assert_eq!(forwarded, args.is_release(), "for {:?}", options);
    }
}

#[test]
fn optimizer_reads_the_compilers_artifact_and_writes_the_other() {
    let ctx = ctx();
    let plan = wasm_opt_plan(&ctx);
    assert_eq!(
        plan.input,
        ProjectPath::new(
            "/".to_string(),
            ["p", "target", "wasm32-unknown-unknown", "debug", "a.wasm"].iter().map(|s| s.to_string()).collect()
        )
    );
    assert_eq!(
        plan.output,
        ProjectPath::new(
            "/".to_string(),
            ["p", "target", "wasm32-unknown-unknown", "debug", "a_optimized.wasm"]
                .iter()
                .map(|s| s.to_string())
                .collect()
        )
    );
    assert_ne!(plan.input, plan.output);
}

#[test]
fn size_check_measures_the_optimized_artifact() {
    let ctx = ctx();
    assert_eq!(binary_to_check(&ctx), &wasm_opt_plan(&ctx).output);
    assert_eq!(binary_to_check(&ctx).parts.last().unwrap(), "a_optimized.wasm");
}

#[test]
fn target_is_in_the_sysroot_where_its_directory_was_found() {
    let sysroot = "/home/me/.rustup/toolchains/nightly";
    let directory = wasm32_target_path(sysroot);
    assert!(is_wasm32_target_in_sysroot(sysroot, &directory, true));
    assert!(!is_wasm32_target_in_sysroot(sysroot, &directory, false));
}

#[test]
fn probe_of_another_directory_shows_nothing() {
    let sysroot = "/home/me/.rustup/toolchains/nightly";
    let elsewhere = wasm32_target_path("/usr");
    let shallow = ProjectPath::new(sysroot.to_string(), vec!["lib/rustlib".to_string()]);
    assert!(!is_wasm32_target_in_sysroot(sysroot, &elsewhere, true));
    assert!(!is_wasm32_target_in_sysroot(sysroot, &shallow, true));
    assert_eq!(
        target(TargetEvent::Probed { sysroot: sysroot.to_string(), directory: elsewhere, present: true }),
        TargetAction::Install(rustup_add_wasm_target_command())
    );
}
