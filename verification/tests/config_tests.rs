use mars::config::Config;
use mars::config_file;

fn absent() -> config_file::Config {
    Default::default()
}

#[test]
fn all_absent_resolves_to_defaults() {
    let c = Config::resolve(absent(), "/repo", &None, &None);
    assert_eq!(c.tools.cache_dir, "/repo/.servo");
    assert_eq!(c.tools.cargo_home_dir, "/repo/.cargo");
    assert!(c.tools.use_rustup);
    assert!(c.tools.rustc_with_gold);
    assert_eq!(c.tools.notify_command, None);
    assert_eq!(c.build.mode, None);
    assert!(!c.build.android);
    assert!(!c.build.debug_assertions);
    assert!(!c.build.debug_mozjs);
    assert!(!c.build.webgl_backtrace);
    assert!(!c.build.dom_backtrace);
    assert!(!c.build.layout_2020);
    assert_eq!(c.build.ccache, None);
    assert_eq!(c.build.rustflags, None);
    assert_eq!(c.build.incremental, None);
    assert!(!c.build.thinlto);
    assert_eq!(c.android.sdk, None);
    assert_eq!(c.android.ndk, None);
    assert_eq!(c.android.toolchain, None);
    assert_eq!(c.android.platform, "android-21");
    assert_eq!(c.android.target, "armv7-linux-androideabi");
    assert_eq!(c.android.toolchain_prefix, "arm-linux-androideabi");
    assert_eq!(c.android.arch, "arm");
    assert_eq!(c.android.lib, "armeabi-v7a");
    assert_eq!(c.android.toolchain_name, "arm-linux-androideabi");
}

#[test]
fn cache_dir_env_beats_builtin_default() {
    let c = Config::resolve(absent(), "/repo", &Some("/var/cache/servo".to_string()), &None);
    assert_eq!(c.tools.cache_dir, "/var/cache/servo");
    assert_eq!(c.tools.cargo_home_dir, "/var/cache/servo");
}

#[test]
fn persisted_value_beats_env() {
    let mut file = absent();
    file.tools.cache_dir = Some("/persisted".to_string());
    file.tools.use_rustup = Some(false);
    file.build.android = Some(true);
    file.build.layout_2020 = Some(true);
    let c = Config::resolve(file, "/repo", &Some("/from-env".to_string()), &None);
    assert_eq!(c.tools.cache_dir, "/persisted");
    assert_eq!(c.tools.cargo_home_dir, "/from-env");
    assert!(!c.tools.use_rustup);
    assert!(c.build.android);
    assert!(c.build.layout_2020);
}

#[test]
fn gold_env_values() {
    let c = Config::resolve(absent(), "/repo", &None, &Some("False".to_string()));
    assert!(!c.tools.rustc_with_gold);
    let c = Config::resolve(absent(), "/repo", &None, &Some("True".to_string()));
    assert!(c.tools.rustc_with_gold);
    let c = Config::resolve(absent(), "/repo", &None, &Some("maybe".to_string()));
    assert!(c.tools.rustc_with_gold);
    let mut file = absent();
    file.tools.rustc_with_gold = Some(false);
    let c = Config::resolve(file, "/repo", &None, &Some("True".to_string()));
    assert!(!c.tools.rustc_with_gold);
}
