//! The target planner: derives the effective compilation target triple and
//! the platform mode flags (android / AR-device / universal-windows-app)
//! from the raw flags and the resolved configuration, and resolves the
//! debug/release build mode from explicit flags or the on-disk probe.

use vstd::prelude::*;

verus! {

use vstd::string::StringExecFns;
use crate::config::Config;
use crate::text::contains_seq;
use crate::text::str_contains;

/// Platform-specific environment blocks that are recognized as named
/// extension points: reaching one is reported, not silently skipped.
#[derive(Clone, Copy, Debug, PartialEq, Eq, Structural)]
pub enum ExtensionPoint {
    MacosHostFlags,
    WindowsHost,
    WindowsCross,
    UwpEnvironment,
    WindowsGstreamer,
    AndroidEnvironment,
}

/// Everything that stops an invocation before the external build command
/// is reached.
#[derive(Clone, Copy, Debug, PartialEq, Eq, Structural)]
pub enum PlanError {
    /// Neither --dev nor --release was given and the on-disk probe found
    /// both or neither of the conventional output binaries.
    ModeAmbiguous,
    /// Both --dev and --release were given.
    ModesMutuallyExclusive,
    /// An explicit target was combined with android mode but does not name
    /// a recognized android architecture.
    AndroidTargetInvalid,
    /// The pinned toolchain version file could not be read.
    ToolchainFileUnreadable,
    /// The invocation needs a platform-specific environment block that is a
    /// named, explicitly unpopulated extension point.
    Unimplemented(ExtensionPoint),
}

impl PlanError {
    /// The user-facing text for this error.
    pub fn message(&self) -> (r: String)
        ensures
            r@ == match *self {
                PlanError::ModeAmbiguous => (
                "Please specify either --dev (-d) for a development build, or --release (-r) for an optimized build."@),
                PlanError::ModesMutuallyExclusive => "Please specify either --dev or --release."@,
                PlanError::AndroidTargetInvalid => (
                "The given target is not a recognized android target."@),
                PlanError::ToolchainFileUnreadable => "Failed to read rust-toolchain file."@,
                PlanError::Unimplemented(_) => (
                "This platform configuration is a named extension point that is not populated yet."@),
            },
    {
        match self {
            PlanError::ModeAmbiguous => String::from_str(
                "Please specify either --dev (-d) for a development build, or --release (-r) for an optimized build.",
            ),
            PlanError::ModesMutuallyExclusive => String::from_str(
                "Please specify either --dev or --release.",
            ),
            PlanError::AndroidTargetInvalid => String::from_str(
                "The given target is not a recognized android target.",
            ),
            PlanError::ToolchainFileUnreadable => String::from_str(
                "Failed to read rust-toolchain file.",
            ),
            PlanError::Unimplemented(_) => String::from_str(
                "This platform configuration is a named extension point that is not populated yet.",
            ),
        }
    }
}

/// The effective target and the platform mode flags, fully derived.
#[derive(Debug)]
pub struct TargetPlan {
    pub target: Option<String>,
    pub android: bool,
    pub magicleap: bool,
    pub uwp: bool,
}

/// The mathematical shadow of `TargetPlan`.
pub ghost struct TargetPlanView {
    pub target: Option<Seq<char>>,
    pub android: bool,
    pub magicleap: bool,
    pub uwp: bool,
}

impl View for TargetPlan {
    type V = TargetPlanView;

    open spec fn view(&self) -> TargetPlanView {
        TargetPlanView {
            target: self.target.deep_view(),
            android: self.android,
            magicleap: self.magicleap,
            uwp: self.uwp,
        }
    }
}

/// The universal-windows-app triple synthesized from the convenience flags.
pub open spec fn uwp_triple(win_arm64: bool) -> Seq<char> {
    if win_arm64 {
        "aarch64-uwp-windows-msvc"@
    } else {
        "x86_64-uwp-windows-msvc"@
    }
}

/// A target names a recognized android architecture.
pub open spec fn spec_is_android_target(t: Seq<char>) -> bool {
    contains_seq(t, "armv7-linux-androideabi"@) || contains_seq(t, "aarch64-linux-android"@)
        || contains_seq(t, "i686-linux-android"@)
}

/// Whether the target names a recognized android architecture.
pub fn handle_android_target(target: &str) -> (r: bool)
    ensures
        r == spec_is_android_target(target@),
{
    str_contains(target, "armv7-linux-androideabi") || str_contains(
        target,
        "aarch64-linux-android",
    ) || str_contains(target, "i686-linux-android")
}

/// The pure derivation behind `plan_target`: the numbered steps are, in
/// order, universal-windows-app synthesis, android default from config,
/// android target validation, android target derivation, AR-device target
/// forcing, android inference from the target string, and
/// universal-windows-app inference from the target string.
pub open spec fn spec_plan_target(
    target: Option<Seq<char>>,
    android: bool,
    magicleap: bool,
    uwp: bool,
    win_arm64: bool,
    config_android: bool,
    config_android_target: Seq<char>,
) -> Result<TargetPlanView, PlanError> {
    let t1 = if (uwp || win_arm64) && target is None {
        Some(uwp_triple(win_arm64))
    } else {
        target
    };
    let a1 = android || config_android;
    if a1 && t1 is Some && !spec_is_android_target(t1->0) {
        Err(PlanError::AndroidTargetInvalid)
    } else {
        let t2 = if a1 && t1 is None {
            Some(config_android_target)
        } else {
            t1
        };
        let t3 = if magicleap && t2 is None {
            Some("aarch64-linux-android"@)
        } else {
            t2
        };
        let a2 = if t3 is Some && !a1 && !magicleap {
            spec_is_android_target(t3->0)
        } else {
            a1
        };
        let u2 = if uwp {
            true
        } else if t3 is Some {
            contains_seq(t3->0, "uwp"@)
        } else {
            false
        };
        Ok(TargetPlanView { target: t3, android: a2, magicleap, uwp: u2 })
    }
}

/// `Ok` results seen through the view, errors kept as they are.
pub open spec fn plan_result_view(r: Result<TargetPlan, PlanError>) -> Result<
    TargetPlanView,
    PlanError,
> {
    match r {
        Ok(p) => Ok(p@),
        Err(e) => Err(e),
    }
}

/// Derive the effective target triple (or none, meaning host) and the
/// platform mode flags.
pub fn plan_target(
    target: Option<String>,
    android: bool,
    magicleap: bool,
    uwp: bool,
    win_arm64: bool,
    config: &Config,
) -> (r: Result<TargetPlan, PlanError>)
    ensures
        plan_result_view(r) == spec_plan_target(
            target.deep_view(),
            android,
            magicleap,
            uwp,
            win_arm64,
            config.build.android,
            config.android.target@,
        ),
{
    let mut target = target;
    let mut android = android;
    let mut uwp = uwp;

    // Force the UWP-enabled target if the convenience UWP flags are passed.
    if (uwp || win_arm64) && target.is_none() {
        if win_arm64 {
            target = Some(String::from_str("aarch64-uwp-windows-msvc"));
        } else {
            target = Some(String::from_str("x86_64-uwp-windows-msvc"));
        }
    }

    // An android build may be requested by flag or by persisted default.
    if !android {
        android = config.build.android;
    }

    // An explicit target must agree with android mode; without one, android
    // mode supplies the configured default target.
    if android {
        match &target {
            Some(t) => {
                if !handle_android_target(t.as_str()) {
                    return Err(PlanError::AndroidTargetInvalid);
                }
            },
            None => {
                target = Some(config.android.target.clone());
            },
        }
    }

    // The AR device runs an android-compatible triple.
    if magicleap && target.is_none() {
        target = Some(String::from_str("aarch64-linux-android"));
    }

    // An explicit target can imply android mode by itself.
    if !android && !magicleap {
        match &target {
            Some(t) => {
                android = handle_android_target(t.as_str());
            },
            None => {},
        }
    }

    // Unless requested explicitly, universal-windows-app mode is read off
    // the resolved target string.
    if !uwp {
        uwp = match &target {
            Some(t) => str_contains(t.as_str(), "uwp"),
            None => false,
        };
    }

    Ok(TargetPlan { target, android, magicleap, uwp })
}

/// With a universal-windows-app convenience flag set and no explicit
/// target, and android mode not in play, planning succeeds, the resolved
/// triple is the windows-store variant chosen by the arm64 flag, and
/// universal-windows-app mode holds in the result even when only the
/// arm64 flag was given.
pub proof fn lemma_uwp_convenience_target(
    android: bool,
    magicleap: bool,
    uwp: bool,
    win_arm64: bool,
    config_android: bool,
    config_android_target: Seq<char>,
)
    requires
        !android,
        !config_android,
        uwp || win_arm64,
    ensures
        ({
            let r = spec_plan_target(
                None,
                android,
                magicleap,
                uwp,
                win_arm64,
                config_android,
                config_android_target,
            );
            &&& r is Ok
            &&& r->Ok_0.target == Some(uwp_triple(win_arm64))
            &&& r->Ok_0.uwp
        }),
{
    reveal_strlit("uwp");
    assert("uwp"@.len() == 3);
    if win_arm64 {
        reveal_strlit("aarch64-uwp-windows-msvc");
        let t = "aarch64-uwp-windows-msvc"@;
        assert(t.len() == 24);
        assert(contains_seq(t, "uwp"@)) by {
            assert(t.subrange(8, 8 + "uwp"@.len() as int) =~= "uwp"@);
        }
    } else {
        reveal_strlit("x86_64-uwp-windows-msvc");
        let t = "x86_64-uwp-windows-msvc"@;
        assert(t.len() == 23);
        assert(contains_seq(t, "uwp"@)) by {
            assert(t.subrange(7, 7 + "uwp"@.len() as int) =~= "uwp"@);
        }
    }
}

/// A target that names an android architecture turns android mode on by
/// itself: no android flag, no persisted default, yet the plan comes back
/// with android mode set (the AR-device flag suspends this inference).
pub proof fn lemma_android_inferred_from_target(
    t: Seq<char>,
    uwp: bool,
    win_arm64: bool,
    config_android_target: Seq<char>,
)
    requires
        spec_is_android_target(t),
    ensures
        ({
            let r = spec_plan_target(
                Some(t),
                false,
                false,
                uwp,
                win_arm64,
                false,
                config_android_target,
            );
            &&& r is Ok
            &&& r->Ok_0.target == Some(t)
            &&& r->Ok_0.android
        }),
{
}

/// The two build modes; exactly one is chosen per invocation.
#[derive(Clone, Copy, Debug, PartialEq, Eq, Structural)]
pub enum BuildMode {
    Dev,
    Release,
}

/// Mode resolution: explicit flags win; with neither flag, the probe of the
/// two conventional output binaries decides, and only an unambiguous probe
/// decides at all.
pub open spec fn spec_resolve_mode(
    release: bool,
    dev: bool,
    release_exists: bool,
    dev_exists: bool,
) -> Result<BuildMode, PlanError> {
    if !release && !dev {
        if release_exists && !dev_exists {
            Ok(BuildMode::Release)
        } else if !release_exists && dev_exists {
            Ok(BuildMode::Dev)
        } else {
            Err(PlanError::ModeAmbiguous)
        }
    } else if release && dev {
        Err(PlanError::ModesMutuallyExclusive)
    } else if release {
        Ok(BuildMode::Release)
    } else {
        Ok(BuildMode::Dev)
    }
}

/// Resolve the build mode from the explicit flags and the existence probe
/// of the conventional release and debug output paths.
pub fn resolve_mode(release: bool, dev: bool, release_exists: bool, dev_exists: bool) -> (r:
    Result<BuildMode, PlanError>)
    ensures
        r == spec_resolve_mode(release, dev, release_exists, dev_exists),
        !release && !dev && dev_exists && !release_exists ==> r == Ok::<BuildMode, PlanError>(
            BuildMode::Dev,
        ),
        !release && !dev && release_exists && !dev_exists ==> r == Ok::<BuildMode, PlanError>(
            BuildMode::Release,
        ),
        release && dev ==> r == Err::<BuildMode, PlanError>(PlanError::ModesMutuallyExclusive),
{
    if !release && !dev {
        if release_exists && !dev_exists {
            Ok(BuildMode::Release)
        } else if !release_exists && dev_exists {
            Ok(BuildMode::Dev)
        } else {
            Err(PlanError::ModeAmbiguous)
        }
    } else if release && dev {
        Err(PlanError::ModesMutuallyExclusive)
    } else if release {
        Ok(BuildMode::Release)
    } else {
        Ok(BuildMode::Dev)
    }
}

/// The triple this tool itself runs on, from the fixed cpu and os facts of
/// the supported host.
pub fn host_triple() -> (r: String)
    ensures
        r@ == "x86_64-linux"@,
{
    let mut triple = String::from_str("x86_64");
    triple.append("-");
    triple.append("linux");
    proof {
        reveal_strlit("x86_64");
        reveal_strlit("-");
        reveal_strlit("linux");
        reveal_strlit("x86_64-linux");
        assert("x86_64"@ + "-"@ + "linux"@ =~= "x86_64-linux"@);
    }
    triple
}

/// Directory layout of the produced binaries, derived from the repository
/// root and the platform mode.
#[derive(Debug)]
pub struct OutputPaths {
    pub target_dir: String,
    pub base_dir: String,
    pub release_path: String,
    pub dev_path: String,
}

/// The per-mode subdirectory under the target directory.
pub open spec fn spec_base_dir(repo_root: Seq<char>, plan: TargetPlanView) -> Seq<char> {
    let target_dir = repo_root + "/target"@;
    if plan.android {
        target_dir + "/android/"@ + or_empty(plan.target)
    } else if plan.magicleap {
        target_dir + "/magicleap/"@ + or_empty(plan.target)
    } else {
        target_dir
    }
}

/// A target string, or nothing for a host build.
pub open spec fn or_empty(t: Option<Seq<char>>) -> Seq<char> {
    match t {
        Some(s) => s,
        None => Seq::empty(),
    }
}

/// The conventional path of the produced release binary.
pub open spec fn spec_release_path(repo_root: Seq<char>, plan: TargetPlanView) -> Seq<char> {
    spec_base_dir(repo_root, plan) + "/release/servo"@
}

/// The conventional path of the produced debug binary.
pub open spec fn spec_dev_path(repo_root: Seq<char>, plan: TargetPlanView) -> Seq<char> {
    spec_base_dir(repo_root, plan) + "/debug/servo"@
}

/// Compute the output directory layout for a planned target.
pub fn output_paths(repo_root: &str, plan: &TargetPlan) -> (p: OutputPaths)
    ensures
        p.target_dir@ == repo_root@ + "/target"@,
        p.base_dir@ == spec_base_dir(repo_root@, plan@),
        p.release_path@ == spec_release_path(repo_root@, plan@),
        p.dev_path@ == spec_dev_path(repo_root@, plan@),
{
    let mut target_dir = String::from_str(repo_root);
    target_dir.append("/target");

    let mut base_dir = target_dir.clone();
    if plan.android {
        base_dir.append("/android/");
        match &plan.target {
            Some(t) => base_dir.append(t.as_str()),
            None => {},
        }
    } else if plan.magicleap {
        base_dir.append("/magicleap/");
        match &plan.target {
            Some(t) => base_dir.append(t.as_str()),
            None => {},
        }
    }
    proof {
        if plan@.target is None {
            assert(or_empty(plan@.target) =~= Seq::<char>::empty());
            assert(base_dir@ =~= spec_base_dir(repo_root@, plan@));
        }
    }

    let mut release_path = base_dir.clone();
    release_path.append("/release/servo");

    let mut dev_path = base_dir.clone();
    dev_path.append("/debug/servo");

    OutputPaths { target_dir, base_dir, release_path, dev_path }
}

} // verus!
