//! Representation of a valid `.servobuild` file.
//!
//! All sections of the file are optional, and all fields in each section are
//! optional: absence means "defer to the default chosen during resolution".
//! The outer layer parses the on-disk document and hands over this plain
//! structure; a missing or malformed file becomes the all-absent value.

use vstd::prelude::*;

verus! {

/// The optional sections of the configuration file.
pub struct Config {
    pub tools: ConfigTools,
    pub build: ConfigBuild,
    pub android: ConfigAndroid,
}

/// The `[tools]` section: where caches and toolchains live.
pub struct ConfigTools {
    pub cache_dir: Option<String>,
    pub cargo_home_dir: Option<String>,
    pub use_rustup: Option<bool>,
    pub rustc_with_gold: Option<bool>,
    pub notify_command: Option<String>,
}

/// The `[build]` section: default mode and build-variant toggles.
pub struct ConfigBuild {
    pub mode: Option<String>,
    pub android: Option<bool>,
    pub debug_assertions: Option<bool>,
    pub debug_mozjs: Option<bool>,
    pub webgl_backtrace: Option<bool>,
    pub dom_backtrace: Option<bool>,
    pub layout_2020: Option<bool>,
    pub ccache: Option<String>,
    pub rustflags: Option<String>,
    pub incremental: Option<bool>,
    pub thinlto: Option<bool>,
}

/// The `[android]` section: SDK, NDK and toolchain locations.
pub struct ConfigAndroid {
    pub sdk: Option<String>,
    pub ndk: Option<String>,
    pub toolchain: Option<String>,
    pub platform: Option<String>,
}

impl Default for ConfigTools {
    /// The all-absent `[tools]` section.
    fn default() -> (c: ConfigTools)
        ensures
            c.cache_dir is None,
            c.cargo_home_dir is None,
            c.use_rustup is None,
            c.rustc_with_gold is None,
            c.notify_command is None,
    {
        ConfigTools {
            cache_dir: None,
            cargo_home_dir: None,
            use_rustup: None,
            rustc_with_gold: None,
            notify_command: None,
        }
    }
}

impl Default for ConfigBuild {
    /// The all-absent `[build]` section.
    fn default() -> (c: ConfigBuild)
        ensures
            c.mode is None,
            c.android is None,
            c.debug_assertions is None,
            c.debug_mozjs is None,
            c.webgl_backtrace is None,
            c.dom_backtrace is None,
            c.layout_2020 is None,
            c.ccache is None,
            c.rustflags is None,
            c.incremental is None,
            c.thinlto is None,
    {
        ConfigBuild {
            mode: None,
            android: None,
            debug_assertions: None,
            debug_mozjs: None,
            webgl_backtrace: None,
            dom_backtrace: None,
            layout_2020: None,
            ccache: None,
            rustflags: None,
            incremental: None,
            thinlto: None,
        }
    }
}

impl Default for ConfigAndroid {
    /// The all-absent `[android]` section.
    fn default() -> (c: ConfigAndroid)
        ensures
            c.sdk is None,
            c.ndk is None,
            c.toolchain is None,
            c.platform is None,
    {
        ConfigAndroid { sdk: None, ndk: None, toolchain: None, platform: None }
    }
}

impl Default for Config {
    /// The all-absent configuration, used when the file is missing or does
    /// not parse.
    fn default() -> (c: Config)
        ensures
            c.tools.cache_dir is None,
            c.tools.cargo_home_dir is None,
            c.tools.use_rustup is None,
            c.tools.rustc_with_gold is None,
            c.tools.notify_command is None,
            c.build.mode is None,
            c.build.android is None,
            c.build.debug_assertions is None,
            c.build.debug_mozjs is None,
            c.build.webgl_backtrace is None,
            c.build.dom_backtrace is None,
            c.build.layout_2020 is None,
            c.build.ccache is None,
            c.build.rustflags is None,
            c.build.incremental is None,
            c.build.thinlto is None,
            c.android.sdk is None,
            c.android.ndk is None,
            c.android.toolchain is None,
            c.android.platform is None,
    {
        Config {
            tools: Default::default(),
            build: Default::default(),
            android: Default::default(),
        }
    }
}

} // verus!
