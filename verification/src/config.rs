//! The fully-resolved configuration: every optional field of the persisted
//! `.servobuild` document defaulted through the precedence chain
//! explicit persisted value, then relevant environment variable, then
//! built-in default.  Resolution is pure and total: it never fails.

use vstd::prelude::*;

verus! {

use vstd::string::StringExecFns;
use crate::config_file;
use crate::text::str_eq;

/// The default when an option is absent.
pub open spec fn or_default<T>(o: Option<T>, d: T) -> T {
    match o {
        Some(v) => v,
        None => d,
    }
}

/// How the gold-linker preference reads from its environment variable:
/// the literal text `True` or `False` decides, anything else means yes.
pub open spec fn gold_from_env(v: Option<Seq<char>>) -> bool {
    match v {
        Some(s) => if s == "True"@ {
            true
        } else if s == "False"@ {
            false
        } else {
            true
        },
        None => true,
    }
}

/// A configuration item with all default values set.
pub struct Config {
    pub tools: ConfigTools,
    pub build: ConfigBuild,
    pub android: ConfigAndroid,
}

/// Resolved `[tools]` section: cache locations are always concrete.
pub struct ConfigTools {
    pub cache_dir: String,
    pub cargo_home_dir: String,
    pub use_rustup: bool,
    pub rustc_with_gold: bool,
    pub notify_command: Option<String>,
}

/// Resolved `[build]` section.
pub struct ConfigBuild {
    pub mode: Option<String>,
    pub android: bool,
    pub debug_assertions: bool,
    pub debug_mozjs: bool,
    pub webgl_backtrace: bool,
    pub dom_backtrace: bool,
    pub layout_2020: bool,
    pub ccache: Option<String>,
    pub rustflags: Option<String>,
    pub incremental: Option<bool>,
    pub thinlto: bool,
}

/// Resolved `[android]` section: the target baseline is a fixed triple
/// representing the lowest commonly supported configuration.
pub struct ConfigAndroid {
    pub sdk: Option<String>,
    pub ndk: Option<String>,
    pub toolchain: Option<String>,
    pub platform: String,
    pub target: String,
    pub toolchain_prefix: String,
    pub arch: String,
    pub lib: String,
    pub toolchain_name: String,
}

impl Config {
    /// Resolve a (partially absent) configuration file against the
    /// environment and the built-in defaults.  `cache_dir_env` and
    /// `gold_env` carry the values of the cache-directory and gold-linker
    /// environment variables, when they are set.
    pub fn resolve(
        file: config_file::Config,
        repo_root: &str,
        cache_dir_env: &Option<String>,
        gold_env: &Option<String>,
    ) -> (c: Config)
        ensures
            c.tools.cache_dir@ == or_default(
                file.tools.cache_dir.deep_view(),
                or_default(cache_dir_env.deep_view(), repo_root@ + "/.servo"@),
            ),
            c.tools.cargo_home_dir@ == or_default(
                file.tools.cargo_home_dir.deep_view(),
                or_default(cache_dir_env.deep_view(), repo_root@ + "/.cargo"@),
            ),
            c.tools.use_rustup == or_default(file.tools.use_rustup, true),
            c.tools.rustc_with_gold == or_default(
                file.tools.rustc_with_gold,
                gold_from_env(gold_env.deep_view()),
            ),
            c.tools.notify_command == file.tools.notify_command,
            c.build.mode == file.build.mode,
            c.build.android == or_default(file.build.android, false),
            c.build.debug_assertions == or_default(file.build.debug_assertions, false),
            c.build.debug_mozjs == or_default(file.build.debug_mozjs, false),
            c.build.webgl_backtrace == or_default(file.build.webgl_backtrace, false),
            c.build.dom_backtrace == or_default(file.build.dom_backtrace, false),
            c.build.layout_2020 == or_default(file.build.layout_2020, false),
            c.build.ccache == file.build.ccache,
            c.build.rustflags == file.build.rustflags,
            c.build.incremental == file.build.incremental,
            c.build.thinlto == or_default(file.build.thinlto, false),
            c.android.sdk == file.android.sdk,
            c.android.ndk == file.android.ndk,
            c.android.toolchain == file.android.toolchain,
            c.android.platform@ == "android-21"@,
            c.android.target@ == "armv7-linux-androideabi"@,
            c.android.toolchain_prefix@ == "arm-linux-androideabi"@,
            c.android.arch@ == "arm"@,
            c.android.lib@ == "armeabi-v7a"@,
            c.android.toolchain_name@ == "arm-linux-androideabi"@,
    {
        let cache_dir = match file.tools.cache_dir {
            Some(dir) => dir,
            None => match cache_dir_env {
                Some(env_dir) => env_dir.clone(),
                None => {
                    let mut path = String::from_str(repo_root);
                    path.append("/.servo");
                    path
                },
            },
        };
        let cargo_home_dir = match file.tools.cargo_home_dir {
            Some(dir) => dir,
            None => match cache_dir_env {
                Some(env_dir) => env_dir.clone(),
                None => {
                    let mut path = String::from_str(repo_root);
                    path.append("/.cargo");
                    path
                },
            },
        };
        let use_rustup = match file.tools.use_rustup {
            Some(b) => b,
            None => true,
        };
        let rustc_with_gold = match file.tools.rustc_with_gold {
            Some(b) => b,
            None => match gold_env {
                Some(val) => if str_eq(val.as_str(), "True") {
                    true
                } else if str_eq(val.as_str(), "False") {
                    false
                } else {
                    true
                },
                None => true,
            },
        };

        let tools = ConfigTools {
            cache_dir,
            cargo_home_dir,
            use_rustup,
            rustc_with_gold,
            notify_command: file.tools.notify_command,
        };

        let build = ConfigBuild {
            mode: file.build.mode,
            android: file.build.android.unwrap_or(false),
            debug_assertions: file.build.debug_assertions.unwrap_or(false),
            debug_mozjs: file.build.debug_mozjs.unwrap_or(false),
            webgl_backtrace: file.build.webgl_backtrace.unwrap_or(false),
            dom_backtrace: file.build.dom_backtrace.unwrap_or(false),
            layout_2020: file.build.layout_2020.unwrap_or(false),
            ccache: file.build.ccache,
            rustflags: file.build.rustflags,
            incremental: file.build.incremental,
            thinlto: file.build.thinlto.unwrap_or(false),
        };

        let android = ConfigAndroid {
            sdk: file.android.sdk,
            ndk: file.android.ndk,
            toolchain: file.android.toolchain,
            platform: String::from_str("android-21"),
            target: String::from_str("armv7-linux-androideabi"),
            toolchain_prefix: String::from_str("arm-linux-androideabi"),
            arch: String::from_str("arm"),
            lib: String::from_str("armeabi-v7a"),
            toolchain_name: String::from_str("arm-linux-androideabi"),
        };

        Config { tools, build, android }
    }
}

} // verus!
