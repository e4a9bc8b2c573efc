use mars::env::build_env;
use mars::env::EnvMap;
use mars::plan::ExtensionPoint;
use mars::plan::PlanError;
use mars::plan::TargetPlan;

fn pairs(v: &[(&str, &str)]) -> Vec<(String, String)> {
    v.iter().map(|(k, val)| (k.to_string(), val.to_string())).collect()
}

fn host_plan() -> TargetPlan {
    TargetPlan { target: None, android: false, magicleap: false, uwp: false }
}

#[test]
fn inherited_compiler_is_never_overwritten() {
    let inherited = EnvMap::from_pairs(pairs(&[("CC", "gcc"), ("PATH", "/usr/bin")]));
    let env = build_env(inherited, &host_plan(), "x86_64-linux").unwrap();
    assert_eq!(env.get("CC").unwrap(), "gcc");
    assert_eq!(env.get("PATH").unwrap(), "/usr/bin");
    assert_eq!(env.get("CXX").unwrap(), "clang++");
}

#[test]
fn missing_compilers_get_clang_defaults() {
    let env = build_env(EnvMap::new(), &host_plan(), "x86_64-linux").unwrap();
    assert_eq!(env.get("CC").unwrap(), "clang");
    assert_eq!(env.get("CXX").unwrap(), "clang++");
    assert!(env.get("CFLAGS").is_none());
}

#[test]
fn first_occurrence_of_a_key_wins() {
    let env = EnvMap::from_pairs(pairs(&[("K", "first"), ("K", "second")]));
    assert_eq!(env.get("K").unwrap(), "first");
    assert_eq!(env.pairs().len(), 1);
}

#[test]
fn contains_key_reports_presence() {
    let env = EnvMap::from_pairs(pairs(&[("A", "1")]));
    assert!(env.contains_key("A"));
    assert!(!env.contains_key("B"));
}

#[test]
fn android_environment_is_an_extension_point() {
    let plan = TargetPlan {
        target: Some("armv7-linux-androideabi".to_string()),
        android: true,
        magicleap: false,
        uwp: false,
    };
    let r = build_env(EnvMap::new(), &plan, "x86_64-linux");
    assert_eq!(r.unwrap_err(), PlanError::Unimplemented(ExtensionPoint::AndroidEnvironment));
}

#[test]
fn uwp_environment_is_an_extension_point() {
    let plan = TargetPlan { target: None, android: false, magicleap: false, uwp: true };
    let r = build_env(EnvMap::new(), &plan, "x86_64-linux");
    assert_eq!(r.unwrap_err(), PlanError::Unimplemented(ExtensionPoint::UwpEnvironment));
}

#[test]
fn uwp_target_cross_check_fires_first() {
    let plan = TargetPlan {
        target: Some("x86_64-uwp-windows-msvc".to_string()),
        android: false,
        magicleap: false,
        uwp: true,
    };
    let r = build_env(EnvMap::new(), &plan, "x86_64-linux");
    assert_eq!(r.unwrap_err(), PlanError::Unimplemented(ExtensionPoint::WindowsCross));
}

#[test]
fn windows_host_is_an_extension_point() {
    let r = build_env(EnvMap::new(), &host_plan(), "x86_64-pc-windows-msvc");
    assert_eq!(r.unwrap_err(), PlanError::Unimplemented(ExtensionPoint::WindowsHost));
}

#[test]
fn macos_host_build_is_an_extension_point() {
    let r = build_env(EnvMap::new(), &host_plan(), "x86_64-apple-darwin");
    assert_eq!(r.unwrap_err(), PlanError::Unimplemented(ExtensionPoint::MacosHostFlags));
}

#[test]
fn cross_compiling_to_windows_is_an_extension_point() {
    let plan = TargetPlan {
        target: Some("x86_64-pc-windows-msvc".to_string()),
        android: false,
        magicleap: false,
        uwp: false,
    };
    let r = build_env(EnvMap::new(), &plan, "x86_64-linux");
    assert_eq!(r.unwrap_err(), PlanError::Unimplemented(ExtensionPoint::WindowsCross));
}

#[test]
fn magicleap_mode_passes_environment_through() {
    let plan = TargetPlan {
        target: Some("aarch64-linux-android".to_string()),
        android: false,
        magicleap: true,
        uwp: false,
    };
    let env = build_env(EnvMap::new(), &plan, "x86_64-linux").unwrap();
    assert_eq!(env.get("CC").unwrap(), "clang");
}
