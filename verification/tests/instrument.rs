use cargo_pgoe::args::DroppedFlag;
use cargo_pgoe::error::BuildError;
use cargo_pgoe::invocation::{CargoCommand, StreamWiring};
use cargo_pgoe::pgo::instrument::{instrumentation_flag, pgo_instrument, PgoInstrumentArgs};
use cargo_pgoe::session::{Reaction, SessionState};
use cargo_pgoe::workspace::CargoContext;

const RUSTC_OUTPUT: &str = "rustc 1.79.0\nhost: aarch64-unknown-linux-gnu\n";

fn list(items: &[&str]) -> Vec<String> {
    items.iter().map(|s| s.to_string()).collect()
}

#[test]
fn request_keeps_what_it_was_given() {
    let args = PgoInstrumentArgs::new(CargoCommand::Bench, true, list(&["--bench", "b"]));
    assert_eq!(args.command(), CargoCommand::Bench);
    assert!(args.keep_profiles());
    assert_eq!(args.cargo_args(), &list(&["--bench", "b"]));
    assert!(args.needs_default_target());
    assert!(!PgoInstrumentArgs::new(CargoCommand::Build, false, list(&["--target", "t"])).needs_default_target());
}

#[test]
fn instrumentation_flag_names_the_directory() {
    assert_eq!(instrumentation_flag("/t/pgo-profiles"), "-Cprofile-generate=/t/pgo-profiles");
    assert_eq!(instrumentation_flag(""), "-Cprofile-generate=");
}

#[test]
fn build_is_planned_with_cleared_profiles() {
    let ctx = CargoContext::new("/work/demo/target".to_string());
    let args = PgoInstrumentArgs::new(CargoCommand::Build, false, list(&["--release", "--bin", "demo"]));
    let plan = pgo_instrument(ctx, args, Some("-Dwarnings".to_string()), Ok(RUSTC_OUTPUT)).unwrap();
    assert_eq!(plan.pgo_dir, "/work/demo/target/pgo-profiles");
    assert!(plan.clear_profiles);
    assert_eq!(plan.invocation.program, "cargo");
    assert_eq!(
        plan.invocation.args,
        list(&[
            "build",
            "--message-format",
            "json-diagnostic-rendered-ansi",
            "--release",
            "--target",
            "aarch64-unknown-linux-gnu",
            "--bin",
            "demo",
        ])
    );
    assert_eq!(
        plan.invocation.env.entries(),
        &vec![(
            "RUSTFLAGS".to_string(),
            "-Dwarnings -Cprofile-generate=/work/demo/target/pgo-profiles".to_string()
        )]
    );
    assert_eq!(plan.invocation.stdin, StreamWiring::Inherit);
    assert_eq!(plan.invocation.stdout, StreamWiring::Piped);
    assert_eq!(plan.invocation.stderr, StreamWiring::Inherit);
    assert_eq!(plan.invocation.dropped, vec![DroppedFlag::Release]);
    assert_eq!(plan.session.state(), SessionState::Running);
}

#[test]
fn kept_profiles_are_not_cleared() {
    let ctx = CargoContext::new("/t".to_string());
    let args = PgoInstrumentArgs::new(CargoCommand::Bench, true, list(&["--target", "wasm32-wasi"]));
    let plan = pgo_instrument(ctx, args, None, Err("rustc was not asked")).unwrap();
    assert!(!plan.clear_profiles);
    assert_eq!(
        plan.invocation.args,
        list(&["bench", "--message-format", "json-diagnostic-rendered-ansi", "--target", "wasm32-wasi"])
    );
    assert_eq!(
        plan.invocation.env.entries(),
        &vec![("RUSTFLAGS".to_string(), " -Cprofile-generate=/t/pgo-profiles".to_string())]
    );
}

#[test]
fn plan_fails_without_a_default_target() {
    let plan = pgo_instrument(
        CargoContext::new("/t".to_string()),
        PgoInstrumentArgs::new(CargoCommand::Build, false, Vec::new()),
        None,
        Err("rustc cannot be run"),
    );
    assert_eq!(plan.err(), Some(BuildError::UnknownDefaultTarget("rustc cannot be run".to_string())));
    let plan = pgo_instrument(
        CargoContext::new("/t".to_string()),
        PgoInstrumentArgs::new(CargoCommand::Build, false, Vec::new()),
        None,
        Ok("no such field\n"),
    );
    assert_eq!(
        plan.err(),
        Some(BuildError::UnknownDefaultTarget("Failed to parse field host:  from rustc output.".to_string()))
    );
}

#[test]
fn planned_session_reports_into_the_planned_directory() {
    let ctx = CargoContext::new("/work/demo/target".to_string());
    let args = PgoInstrumentArgs::new(CargoCommand::Build, false, Vec::new());
    let mut plan = pgo_instrument(ctx, args, None, Ok(RUSTC_OUTPUT)).unwrap();
    let line = "{\"reason\":\"compiler-artifact\",\"package_id\":\"demo 0.1.0 (path+file:///work/demo)\",\"target\":{\"kind\":[\"example\"],\"name\":\"tour\",\"src_path\":\"/work/demo/examples/tour.rs\"},\"profile\":{\"opt_level\":\"3\",\"debuginfo\":null,\"debug_assertions\":false,\"overflow_checks\":false,\"test\":false},\"features\":[],\"filenames\":[],\"executable\":\"/work/demo/target/release/examples/tour\",\"fresh\":true}";
    match plan.session.on_line(line) {
        Ok(Reaction::Report(report)) => {
            assert_eq!(report.kind, "example");
            assert_eq!(report.name, "tour");
            assert_eq!(
                report.profile_file_setting,
                "LLVM_PROFILE_FILE=/work/demo/target/pgo-profiles/tour_%m_%p.profraw"
            );
        }
        other => panic!("unexpected reaction: {:?}", other),
    }
    assert_eq!(plan.session.finish(true), Ok(()));
}
