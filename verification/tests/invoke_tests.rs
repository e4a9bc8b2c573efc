use mars::args::BuildArgs;
use mars::args::CommonArgs;
use mars::config::Config;
use mars::config_file;
use mars::env::EnvMap;
use mars::invoke::build_opts;
use mars::invoke::plan_build;
use mars::invoke::plan_invocation;
use mars::plan::BuildMode;
use mars::plan::PlanError;
use mars::plan::TargetPlan;

fn strings(v: &[&str]) -> Vec<String> {
    v.iter().map(|s| s.to_string()).collect()
}

fn common() -> CommonArgs {
    CommonArgs {
        target: None,
        media_stack: None,
        android: false,
        magicleap: false,
        libsimpleservo: false,
        features: Vec::new(),
        debug_mozjs: false,
        with_debug_assertions: false,
        with_frame_pointer: false,
        with_raqote: false,
        with_layout_2020: false,
        with_layout_2013: false,
        without_wgl: false,
    }
}

fn build_args() -> BuildArgs {
    BuildArgs {
        release: false,
        dev: false,
        jobs: None,
        no_package: false,
        verbose: false,
        very_verbose: false,
        uwp: false,
        win_arm64: false,
        params: Vec::new(),
    }
}

fn resolved_config() -> Config {
    Config::resolve(Default::default(), "/repo", &None, &None)
}

fn toolchain() -> Option<String> {
    Some("nightly-2020-06-15\n".to_string())
}

#[test]
fn debug_binary_probe_resolves_dev_mode() {
    let plan = plan_build(
        "/repo",
        &build_args(),
        &common(),
        &resolved_config(),
        "x86_64-linux",
        false,
        true,
        EnvMap::new(),
        &toolchain(),
    )
    .unwrap();
    assert_eq!(plan.mode, BuildMode::Dev);
    assert_eq!(plan.output_path, "/repo/target/debug/servo");
    assert_eq!(
        plan.features,
        strings(&["media-gstreamer", "native-bluetooth", "egl", "canvas2d-raqote", "layout-2013"])
    );
    assert_eq!(plan.command, "rustup");
    assert_eq!(
        plan.args,
        strings(&[
            "run",
            "--install",
            "nightly-2020-06-15",
            "cargo",
            "build",
            "--manifest-path",
            "/repo/ports/glutin/Cargo.toml",
            "--features",
            "media-gstreamer native-bluetooth egl canvas2d-raqote layout-2013",
            "-Ztimings=info",
        ])
    );
    assert_eq!(plan.env.get("CC").unwrap(), "clang");
    assert!(plan.target_plan.target.is_none());
}

#[test]
fn release_binary_probe_resolves_release_mode() {
    let plan = plan_build(
        "/repo",
        &build_args(),
        &common(),
        &resolved_config(),
        "x86_64-linux",
        true,
        false,
        EnvMap::new(),
        &toolchain(),
    )
    .unwrap();
    assert_eq!(plan.mode, BuildMode::Release);
    assert_eq!(plan.output_path, "/repo/target/release/servo");
    assert!(plan.args.contains(&"--release".to_string()));
}

#[test]
fn both_mode_flags_fail_without_reaching_an_invocation() {
    let mut b = build_args();
    b.release = true;
    b.dev = true;
    let r = plan_build(
        "/repo",
        &b,
        &common(),
        &resolved_config(),
        "x86_64-linux",
        true,
        true,
        EnvMap::new(),
        &toolchain(),
    );
    assert_eq!(r.unwrap_err(), PlanError::ModesMutuallyExclusive);
}

#[test]
fn ambiguous_probe_fails() {
    let r = plan_build(
        "/repo",
        &build_args(),
        &common(),
        &resolved_config(),
        "x86_64-linux",
        true,
        true,
        EnvMap::new(),
        &toolchain(),
    );
    assert_eq!(r.unwrap_err(), PlanError::ModeAmbiguous);
}

#[test]
fn unreadable_toolchain_file_is_fatal() {
    let mut b = build_args();
    b.dev = true;
    let r = plan_build(
        "/repo",
        &b,
        &common(),
        &resolved_config(),
        "x86_64-linux",
        false,
        false,
        EnvMap::new(),
        &None,
    );
    assert_eq!(r.unwrap_err(), PlanError::ToolchainFileUnreadable);
}

#[test]
fn disabled_toolchain_manager_calls_the_build_command_directly() {
    let mut file: config_file::Config = Default::default();
    file.tools.use_rustup = Some(false);
    let cfg = Config::resolve(file, "/repo", &None, &None);
    let mut b = build_args();
    b.dev = true;
    let plan = plan_build(
        "/repo",
        &b,
        &common(),
        &cfg,
        "x86_64-linux",
        false,
        false,
        EnvMap::new(),
        &None,
    )
    .unwrap();
    assert_eq!(plan.command, "cargo");
    assert_eq!(plan.args[0], "build");
}

#[test]
fn job_count_and_verbosity_become_options() {
    let mut b = build_args();
    b.release = true;
    b.jobs = Some(4);
    b.verbose = true;
    b.very_verbose = true;
    let plan = plan_build(
        "/repo",
        &b,
        &common(),
        &resolved_config(),
        "x86_64-linux",
        false,
        false,
        EnvMap::new(),
        &toolchain(),
    )
    .unwrap();
    let tail: Vec<&str> = plan.args.iter().map(|s| s.as_str()).collect();
    let at = tail.iter().position(|s| *s == "-Ztimings=info").unwrap();
    assert_eq!(&tail[at..], &["-Ztimings=info", "--release", "-j", "4", "-v", "-vv"]);
}

#[test]
fn caller_supplied_timing_option_wins() {
    let mut b = build_args();
    b.dev = true;
    b.params = strings(&["-Ztimings"]);
    let plan = plan_build(
        "/repo",
        &b,
        &common(),
        &resolved_config(),
        "x86_64-linux",
        false,
        false,
        EnvMap::new(),
        &toolchain(),
    )
    .unwrap();
    assert!(plan.args.contains(&"-Ztimings".to_string()));
    assert!(!plan.args.contains(&"-Ztimings=info".to_string()));
}

#[test]
fn passthrough_params_follow_the_derived_arguments() {
    let mut b = build_args();
    b.dev = true;
    b.params = strings(&["--color", "always"]);
    let plan = plan_build(
        "/repo",
        &b,
        &common(),
        &resolved_config(),
        "x86_64-linux",
        false,
        false,
        EnvMap::new(),
        &toolchain(),
    )
    .unwrap();
    let n = plan.args.len();
    assert_eq!(plan.args[n - 3], "-Ztimings=info");
    assert_eq!(plan.args[n - 2], "--color");
    assert_eq!(plan.args[n - 1], "always");
}

#[test]
fn lean_embedding_mode_selects_the_c_api_manifest() {
    let mut c = common();
    c.libsimpleservo = true;
    let mut b = build_args();
    b.dev = true;
    let plan = plan_build(
        "/repo",
        &b,
        &c,
        &resolved_config(),
        "x86_64-linux",
        false,
        false,
        EnvMap::new(),
        &toolchain(),
    )
    .unwrap();
    assert!(plan.args.contains(&"/repo/ports/libsimpleservo/capi/Cargo.toml".to_string()));
}

#[test]
fn explicit_target_is_passed_through() {
    let mut c = common();
    c.target = Some("x86_64-unknown-linux-gnu".to_string());
    let mut b = build_args();
    b.dev = true;
    let plan = plan_build(
        "/repo",
        &b,
        &c,
        &resolved_config(),
        "x86_64-linux",
        false,
        false,
        EnvMap::new(),
        &toolchain(),
    )
    .unwrap();
    let pos = plan.args.iter().position(|s| s == "--target").unwrap();
    assert_eq!(plan.args[pos + 1], "x86_64-unknown-linux-gnu");
}

#[test]
fn a_uwp_target_delegates_to_the_alternate_frontend() {
    let plan = TargetPlan {
        target: Some("aarch64-uwp-windows-msvc".to_string()),
        android: false,
        magicleap: false,
        uwp: true,
    };
    let inv = plan_invocation(
        "/repo",
        &plan,
        false,
        &strings(&["egl"]),
        strings(&[]),
        true,
        &toolchain(),
    )
    .unwrap();
    assert_eq!(inv.command, "xargo");
    assert_eq!(
        inv.args,
        strings(&[
            "build",
            "--manifest-path",
            "/repo/ports/glutin/Cargo.toml",
            "--target",
            "aarch64-uwp-windows-msvc",
            "--features",
            "egl",
        ])
    );
}

#[test]
fn android_mode_selects_the_jni_manifest() {
    let plan = TargetPlan {
        target: Some("armv7-linux-androideabi".to_string()),
        android: true,
        magicleap: false,
        uwp: false,
    };
    let inv = plan_invocation(
        "/repo",
        &plan,
        false,
        &strings(&["egl"]),
        strings(&[]),
        false,
        &None,
    )
    .unwrap();
    assert_eq!(inv.command, "cargo");
    assert!(inv.args.contains(&"/repo/ports/libsimpleservo/jniapi/Cargo.toml".to_string()));
}

#[test]
fn build_opts_exact_tokens() {
    let opts = build_opts(strings(&["--color"]), true, Some(12), true, false);
    assert_eq!(opts, strings(&["--color", "--release", "-j", "12", "-v"]));
}

#[test]
fn magicleap_plan_end_to_end() {
    let mut c = common();
    c.magicleap = true;
    let mut b = build_args();
    b.dev = true;
    let plan = plan_build(
        "/repo",
        &b,
        &c,
        &resolved_config(),
        "x86_64-linux",
        false,
        false,
        EnvMap::new(),
        &toolchain(),
    )
    .unwrap();
    assert_eq!(plan.target_plan.target.as_deref(), Some("aarch64-linux-android"));
    assert!(!plan.target_plan.android);
    assert!(!plan.features.contains(&"native-bluetooth".to_string()));
    assert_eq!(
        plan.output_path,
        "/repo/target/magicleap/aarch64-linux-android/debug/servo"
    );
    assert_eq!(plan.command, "rustup");
}

#[test]
fn android_plan_stops_at_the_environment_extension_point() {
    let mut c = common();
    c.android = true;
    let mut b = build_args();
    b.dev = true;
    let r = plan_build(
        "/repo",
        &b,
        &c,
        &resolved_config(),
        "x86_64-linux",
        false,
        false,
        EnvMap::new(),
        &toolchain(),
    );
    assert!(r.is_err());
}
