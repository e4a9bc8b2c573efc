//! The invocation planner: assembles the argument vector for the external
//! build command, prepends the diagnostic-timing option unless the caller
//! already supplied one, wraps the call in the version-pinning toolchain
//! manager, and composes the whole pipeline into one `BuildPlan`.

use vstd::prelude::*;

verus! {

use vstd::string::StringExecFns;
use crate::args::BuildArgs;
use crate::args::CommonArgs;
use crate::config::Config;
use crate::env::EnvMap;
use crate::env::spec_build_env;
use crate::env::build_env;
use crate::features::assemble_features;
use crate::features::spec_features;
use crate::plan::BuildMode;
use crate::plan::PlanError;
use crate::plan::TargetPlan;
use crate::plan::TargetPlanView;
use crate::plan::output_paths;
use crate::plan::plan_target;
use crate::plan::resolve_mode;
use crate::plan::spec_dev_path;
use crate::plan::spec_plan_target;
use crate::plan::spec_release_path;
use crate::plan::spec_resolve_mode;
use crate::text::clone_strings;
use crate::text::contains_seq;
use crate::text::dec_rep;
use crate::text::is_prefix_of;
use crate::text::join_space;
use crate::text::join_spec;
use crate::text::lemma_concat_membership;
use crate::text::lemma_dec_rep_first;
use crate::text::lemma_push_membership;
use crate::text::str_contains;
use crate::text::str_starts_with;
use crate::text::trim_spec;
use crate::text::trim_str;
use crate::text::u32_to_decimal;

/// The option list handed through to the build command: the raw passthrough
/// arguments, then the tokens derived from mode, job count and verbosity.
pub open spec fn spec_opts(
    params: Seq<Seq<char>>,
    release: bool,
    jobs: Option<u32>,
    verbose: bool,
    very_verbose: bool,
) -> Seq<Seq<char>> {
    let o1 = if release {
        params.push("--release"@)
    } else {
        params
    };
    let o2 = match jobs {
        Some(j) => o1.push("-j"@).push(dec_rep(j as nat)),
        None => o1,
    };
    let o3 = if verbose {
        o2.push("-v"@)
    } else {
        o2
    };
    if very_verbose {
        o3.push("-vv"@)
    } else {
        o3
    }
}

/// Assemble the option list.
pub fn build_opts(
    params: Vec<String>,
    release: bool,
    jobs: Option<u32>,
    verbose: bool,
    very_verbose: bool,
) -> (r: Vec<String>)
    ensures
        r.deep_view() == spec_opts(params.deep_view(), release, jobs, verbose, very_verbose),
{
    let mut opts = params;
    if release {
        opts.push(String::from_str("--release"));
        proof {
            assert(opts.deep_view() =~= params.deep_view().push("--release"@));
        }
    }
    let ghost o1 = opts.deep_view();
    match jobs {
        Some(j) => {
            opts.push(String::from_str("-j"));
            proof {
                assert(opts.deep_view() =~= o1.push("-j"@));
            }
            opts.push(u32_to_decimal(j));
            proof {
                assert(opts.deep_view() =~= o1.push("-j"@).push(dec_rep(j as nat)));
            }
        },
        None => {},
    }
    let ghost o2 = opts.deep_view();
    if verbose {
        opts.push(String::from_str("-v"));
        proof {
            assert(opts.deep_view() =~= o2.push("-v"@));
        }
    }
    let ghost o3 = opts.deep_view();
    if very_verbose {
        opts.push(String::from_str("-vv"));
        proof {
            assert(opts.deep_view() =~= o3.push("-vv"@));
        }
    }
    opts
}

/// The caller already supplied a diagnostic-timing option of its own.
pub open spec fn spec_has_timings(params: Seq<Seq<char>>) -> bool {
    exists|i: int| 0 <= i < params.len() && is_prefix_of("-Ztimings"@, #[trigger] params[i])
}

/// The option list with the fixed diagnostic-timing option prepended,
/// unless the caller already supplied one — the caller wins.
pub open spec fn spec_with_timings(opts: Seq<Seq<char>>, params: Seq<Seq<char>>) -> Seq<
    Seq<char>,
> {
    if spec_has_timings(params) {
        opts
    } else {
        seq!["-Ztimings=info"@] + opts
    }
}

/// Whether the passthrough arguments hold a diagnostic-timing option.
fn has_timings(params: &Vec<String>) -> (r: bool)
    ensures
        r == spec_has_timings(params.deep_view()),
{
    let mut i: usize = 0;
    while i < params.len()
        invariant
            0 <= i <= params.len(),
            params.deep_view().len() == params.len(),
            forall|j: int|
                0 <= j < i ==> !is_prefix_of("-Ztimings"@, #[trigger] params.deep_view()[j]),
        decreases params.len() - i,
    {
        if str_starts_with(params[i].as_str(), "-Ztimings") {
            proof {
                assert(is_prefix_of("-Ztimings"@, params.deep_view()[i as int]));
            }
            return true;
        }
        i = i + 1;
    }
    false
}

/// Prepend the diagnostic-timing option unless the caller supplied one.
pub fn add_timings(opts: Vec<String>, params: &Vec<String>) -> (r: Vec<String>)
    ensures
        r.deep_view() == spec_with_timings(opts.deep_view(), params.deep_view()),
{
    let mut r = opts;
    if !has_timings(params) {
        let ghost prev = r.deep_view();
        r.insert(0, String::from_str("-Ztimings=info"));
        proof {
            assert(r.deep_view() =~= seq!["-Ztimings=info"@] + prev);
        }
    }
    r
}

/// The sub-project whose manifest is built: the lean embedding api, the
/// android JNI api, or the default desktop port.
pub open spec fn spec_port(libsimpleservo: bool, android: bool) -> Seq<char> {
    if libsimpleservo || android {
        if android {
            "libsimpleservo/jniapi"@
        } else {
            "libsimpleservo/capi"@
        }
    } else {
        "glutin"@
    }
}

/// The manifest path of the chosen sub-project.
pub open spec fn spec_manifest_path(repo_root: Seq<char>, port: Seq<char>) -> Seq<char> {
    repo_root + "/ports/"@ + port + "/Cargo.toml"@
}

/// The argument vector for the build command: subcommand, manifest path,
/// optional explicit target, the consolidated feature argument, then the
/// caller's options.
pub open spec fn spec_cargo_args(
    repo_root: Seq<char>,
    plan: TargetPlanView,
    libsimpleservo: bool,
    features: Seq<Seq<char>>,
    opts: Seq<Seq<char>>,
) -> Seq<Seq<char>> {
    let a0 = seq![
        "build"@,
        "--manifest-path"@,
        spec_manifest_path(repo_root, spec_port(libsimpleservo, plan.android)),
    ];
    let a1 = match plan.target {
        Some(t) => a0.push("--target"@).push(t),
        None => a0,
    };
    a1.push("--features"@).push(join_spec(features, " "@)) + opts
}

/// A planned external call: the binary and its ordered arguments.
#[derive(Debug)]
pub struct Invocation {
    pub command: String,
    pub args: Vec<String>,
}

/// The delegation decision: a universal-windows-app target goes to the
/// alternate cross-compilation frontend; otherwise the toolchain manager
/// wraps the build command when it is in use, pinned to the trimmed version
/// from the toolchain file; failure to read that file is fatal.
pub open spec fn spec_invocation(
    repo_root: Seq<char>,
    plan: TargetPlanView,
    libsimpleservo: bool,
    features: Seq<Seq<char>>,
    opts: Seq<Seq<char>>,
    use_rustup: bool,
    toolchain_file: Option<Seq<char>>,
) -> Result<(Seq<char>, Seq<Seq<char>>), PlanError> {
    let cargo_args = spec_cargo_args(repo_root, plan, libsimpleservo, features, opts);
    if plan.target is Some && contains_seq(plan.target->0, "uwp"@) {
        Ok(("xargo"@, cargo_args))
    } else if use_rustup {
        match toolchain_file {
            None => Err(PlanError::ToolchainFileUnreadable),
            Some(tf) => Ok(
                ("rustup"@, seq!["run"@, "--install"@, trim_spec(tf), "cargo"@] + cargo_args),
            ),
        }
    } else {
        Ok(("cargo"@, cargo_args))
    }
}

/// Assemble the external call for a planned build.
pub fn plan_invocation(
    repo_root: &str,
    plan: &TargetPlan,
    libsimpleservo: bool,
    features: &Vec<String>,
    opts: Vec<String>,
    use_rustup: bool,
    toolchain_file: &Option<String>,
) -> (r: Result<Invocation, PlanError>)
    requires
        !opts.deep_view().contains("--features"@),
    ensures
        match r {
            Ok(inv) => spec_invocation(
                repo_root@,
                plan@,
                libsimpleservo,
                features.deep_view(),
                opts.deep_view(),
                use_rustup,
                toolchain_file.deep_view(),
            ) == Ok::<(Seq<char>, Seq<Seq<char>>), PlanError>((inv.command@, inv.args.deep_view())),
            Err(e) => spec_invocation(
                repo_root@,
                plan@,
                libsimpleservo,
                features.deep_view(),
                opts.deep_view(),
                use_rustup,
                toolchain_file.deep_view(),
            ) == Err::<(Seq<char>, Seq<Seq<char>>), PlanError>(e),
        },
{
    let port: &str = if libsimpleservo || plan.android {
        if plan.android {
            "libsimpleservo/jniapi"
        } else {
            "libsimpleservo/capi"
        }
    } else {
        "glutin"
    };
    let mut manifest = String::from_str(repo_root);
    manifest.append("/ports/");
    manifest.append(port);
    manifest.append("/Cargo.toml");

    let mut args: Vec<String> = Vec::new();
    args.push(String::from_str("build"));
    args.push(String::from_str("--manifest-path"));
    args.push(manifest);
    proof {
        assert(args.deep_view() =~= seq![
            "build"@,
            "--manifest-path"@,
            spec_manifest_path(repo_root@, spec_port(libsimpleservo, plan@.android)),
        ]);
    }
    let ghost a0 = args.deep_view();
    match &plan.target {
        Some(t) => {
            args.push(String::from_str("--target"));
            args.push(t.clone());
            proof {
                assert(args.deep_view() =~= a0.push("--target"@).push(plan@.target->0));
            }
        },
        None => {},
    }
    let ghost a1 = args.deep_view();
    args.push(String::from_str("--features"));
    args.push(join_space(features));
    proof {
        assert(args.deep_view() =~= a1.push("--features"@).push(
            join_spec(features.deep_view(), " "@),
        ));
    }
    let ghost a2 = args.deep_view();
    let mut opts = opts;
    let ghost ov = opts.deep_view();
    args.append(&mut opts);
    proof {
        assert(args.deep_view() =~= a2 + ov);
    }

    let target_is_uwp = match &plan.target {
        Some(t) => str_contains(t.as_str(), "uwp"),
        None => false,
    };
    if target_is_uwp {
        return Ok(Invocation { command: String::from_str("xargo"), args });
    }
    if use_rustup {
        match toolchain_file {
            None => Err(PlanError::ToolchainFileUnreadable),
            Some(tf) => {
                let toolchain = trim_str(tf.as_str());
                let mut rustup_args: Vec<String> = Vec::new();
                rustup_args.push(String::from_str("run"));
                rustup_args.push(String::from_str("--install"));
                rustup_args.push(toolchain);
                rustup_args.push(String::from_str("cargo"));
                proof {
                    assert(rustup_args.deep_view() =~= seq![
                        "run"@,
                        "--install"@,
                        trim_spec(tf@),
                        "cargo"@,
                    ]);
                }
                let ghost r0 = rustup_args.deep_view();
                let ghost av = args.deep_view();
                let mut cargo_args = args;
                rustup_args.append(&mut cargo_args);
                proof {
                    assert(rustup_args.deep_view() =~= r0 + av);
                }
                Ok(Invocation { command: String::from_str("rustup"), args: rustup_args })
            },
        }
    } else {
        Ok(Invocation { command: String::from_str("cargo"), args })
    }
}

/// No derived option token is the feature-selection flag, so the option
/// list stays free of it whenever the passthrough arguments are.
pub proof fn lemma_opts_no_features(
    params: Seq<Seq<char>>,
    release: bool,
    jobs: Option<u32>,
    verbose: bool,
    very_verbose: bool,
)
    requires
        !params.contains("--features"@),
    ensures
        !spec_with_timings(
            spec_opts(params, release, jobs, verbose, very_verbose),
            params,
        ).contains("--features"@),
{
    let f = "--features"@;
    reveal_strlit("--features");
    reveal_strlit("--release");
    reveal_strlit("-j");
    reveal_strlit("-v");
    reveal_strlit("-vv");
    reveal_strlit("-Ztimings=info");
    assert(f.len() == 10);
    assert("--release"@.len() == 9);
    assert("-j"@.len() == 2);
    assert("-v"@.len() == 2);
    assert("-vv"@.len() == 3);
    assert("-Ztimings=info"@.len() == 14);
    assert(f[0] == '-');
    let o1 = if release {
        params.push("--release"@)
    } else {
        params
    };
    lemma_push_membership(params, "--release"@, f);
    assert(!o1.contains(f));
    let o2 = match jobs {
        Some(j) => o1.push("-j"@).push(dec_rep(j as nat)),
        None => o1,
    };
    match jobs {
        Some(j) => {
            lemma_push_membership(o1, "-j"@, f);
            lemma_dec_rep_first(j as nat);
            assert(dec_rep(j as nat)[0] != f[0]);
            lemma_push_membership(o1.push("-j"@), dec_rep(j as nat), f);
        },
        None => {},
    }
    assert(!o2.contains(f));
    let o3 = if verbose {
        o2.push("-v"@)
    } else {
        o2
    };
    lemma_push_membership(o2, "-v"@, f);
    assert(!o3.contains(f));
    let o4 = if very_verbose {
        o3.push("-vv"@)
    } else {
        o3
    };
    lemma_push_membership(o3, "-vv"@, f);
    assert(!o4.contains(f));
    assert(o4 == spec_opts(params, release, jobs, verbose, very_verbose));
    assert(!seq!["-Ztimings=info"@].contains(f)) by {
        if seq!["-Ztimings=info"@].contains(f) {
            let i = choose|i: int|
                0 <= i < seq!["-Ztimings=info"@].len() && seq!["-Ztimings=info"@][i] == f;
            assert(seq!["-Ztimings=info"@][i] == "-Ztimings=info"@);
            assert(f.len() != "-Ztimings=info"@.len());
        }
    }
    lemma_concat_membership(seq!["-Ztimings=info"@], o4, f);
    assert(!(seq!["-Ztimings=info"@] + o4).contains(f));
}

/// The resolved, concrete plan: target, mode, output path, ordered feature
/// list, environment map, and the exact external call.
#[derive(Debug)]
pub struct BuildPlan {
    pub target_plan: TargetPlan,
    pub mode: BuildMode,
    pub output_path: String,
    pub features: Vec<String>,
    pub env: EnvMap,
    pub command: String,
    pub args: Vec<String>,
    pub verbose: bool,
}

/// The mathematical shadow of `BuildPlan`.
pub ghost struct BuildPlanView {
    pub target_plan: TargetPlanView,
    pub mode: BuildMode,
    pub output_path: Seq<char>,
    pub features: Seq<Seq<char>>,
    pub env: Seq<(Seq<char>, Seq<char>)>,
    pub command: Seq<char>,
    pub args: Seq<Seq<char>>,
    pub verbose: bool,
}

impl View for BuildPlan {
    type V = BuildPlanView;

    open spec fn view(&self) -> BuildPlanView {
        BuildPlanView {
            target_plan: self.target_plan@,
            mode: self.mode,
            output_path: self.output_path@,
            features: self.features.deep_view(),
            env: self.env@,
            command: self.command@,
            args: self.args.deep_view(),
            verbose: self.verbose,
        }
    }
}

/// The whole pipeline: target planning, mode resolution, feature assembly,
/// environment construction, then invocation planning, failing with the
/// first error in that order.
pub open spec fn spec_plan_build(
    repo_root: Seq<char>,
    build: BuildArgs,
    common: CommonArgs,
    config: Config,
    host: Seq<char>,
    release_exists: bool,
    dev_exists: bool,
    env: Seq<(Seq<char>, Seq<char>)>,
    toolchain_file: Option<Seq<char>>,
) -> Result<BuildPlanView, PlanError> {
    match spec_plan_target(
        common.target.deep_view(),
        common.android,
        common.magicleap,
        build.uwp,
        build.win_arm64,
        config.build.android,
        config.android.target@,
    ) {
        Err(e) => Err(e),
        Ok(plan) => match spec_resolve_mode(build.release, build.dev, release_exists, dev_exists) {
            Err(e) => Err(e),
            Ok(mode) => {
                let features = spec_features(
                    common.features.deep_view(),
                    common.media_stack.deep_view(),
                    plan,
                    common.with_layout_2020,
                    common.with_layout_2013,
                    config.build.layout_2020,
                );
                match spec_build_env(env, plan, host) {
                    Err(e) => Err(e),
                    Ok(env2) => {
                        let opts = spec_with_timings(
                            spec_opts(
                                build.params.deep_view(),
                                mode == BuildMode::Release,
                                build.jobs,
                                build.verbose,
                                build.very_verbose,
                            ),
                            build.params.deep_view(),
                        );
                        match spec_invocation(
                            repo_root,
                            plan,
                            common.libsimpleservo,
                            features,
                            opts,
                            config.tools.use_rustup,
                            toolchain_file,
                        ) {
                            Err(e) => Err(e),
                            Ok(inv) => Ok(
                                BuildPlanView {
                                    target_plan: plan,
                                    mode,
                                    output_path: if mode == BuildMode::Release {
                                        spec_release_path(repo_root, plan)
                                    } else {
                                        spec_dev_path(repo_root, plan)
                                    },
                                    features,
                                    env: env2,
                                    command: inv.0,
                                    args: inv.1,
                                    verbose: build.verbose,
                                },
                            ),
                        }
                    },
                }
            },
        },
    }
}

/// Resolve one invocation end to end.  `release_exists` and `dev_exists`
/// are the existence probes of the two conventional output paths (see
/// `output_paths`); `toolchain_file` is the raw content of the pinned
/// toolchain version file, when it could be read.
#[verifier::rlimit(100)]
pub fn plan_build(
    repo_root: &str,
    build: &BuildArgs,
    common: &CommonArgs,
    config: &Config,
    host: &str,
    release_exists: bool,
    dev_exists: bool,
    inherited: EnvMap,
    toolchain_file: &Option<String>,
) -> (r: Result<BuildPlan, PlanError>)
    requires
        inherited.wf(),
        !build.params.deep_view().contains("--features"@),
    ensures
        match r {
            Ok(p) => spec_plan_build(
                repo_root@,
                *build,
                *common,
                *config,
                host@,
                release_exists,
                dev_exists,
                inherited@,
                toolchain_file.deep_view(),
            ) == Ok::<BuildPlanView, PlanError>(p@),
            Err(e) => spec_plan_build(
                repo_root@,
                *build,
                *common,
                *config,
                host@,
                release_exists,
                dev_exists,
                inherited@,
                toolchain_file.deep_view(),
            ) == Err::<BuildPlanView, PlanError>(e),
        },
        build.release && build.dev ==> r is Err,
{
    let target = match &common.target {
        Some(t) => Some(t.clone()),
        None => None,
    };
    let plan = match plan_target(
        target,
        common.android,
        common.magicleap,
        build.uwp,
        build.win_arm64,
        config,
    ) {
        Ok(p) => p,
        Err(e) => {
            return Err(e);
        },
    };

    let mode = match resolve_mode(build.release, build.dev, release_exists, dev_exists) {
        Ok(m) => m,
        Err(e) => {
            return Err(e);
        },
    };
    let is_release = match mode {
        BuildMode::Release => true,
        BuildMode::Dev => false,
    };

    let features = assemble_features(
        &common.features,
        &common.media_stack,
        &plan,
        common.with_layout_2020,
        common.with_layout_2013,
        config,
    );

    let env = match build_env(inherited, &plan, host) {
        Ok(e) => e,
        Err(e) => {
            return Err(e);
        },
    };

    let opts = build_opts(
        clone_strings(&build.params),
        is_release,
        build.jobs,
        build.verbose,
        build.very_verbose,
    );
    let opts = add_timings(opts, &build.params);
    proof {
        lemma_opts_no_features(
            build.params.deep_view(),
            is_release,
            build.jobs,
            build.verbose,
            build.very_verbose,
        );
    }

    let paths = output_paths(repo_root, &plan);

    let inv = match plan_invocation(
        repo_root,
        &plan,
        common.libsimpleservo,
        &features,
        opts,
        config.tools.use_rustup,
        toolchain_file,
    ) {
        Ok(i) => i,
        Err(e) => {
            return Err(e);
        },
    };

    let output_path = if is_release {
        paths.release_path
    } else {
        paths.dev_path
    };

    Ok(
        BuildPlan {
            target_plan: plan,
            mode,
            output_path,
            features,
            env,
            command: inv.command,
            args: inv.args,
            verbose: build.verbose,
        },
    )
}

/// Giving both mode flags explicitly fails the whole pipeline with the
/// mutual-exclusion error, whatever the other flags, the probes and the
/// environment are, as soon as target planning itself goes through.
pub proof fn lemma_both_modes_fail(
    repo_root: Seq<char>,
    build: BuildArgs,
    common: CommonArgs,
    config: Config,
    host: Seq<char>,
    release_exists: bool,
    dev_exists: bool,
    env: Seq<(Seq<char>, Seq<char>)>,
    toolchain_file: Option<Seq<char>>,
)
    requires
        build.release,
        build.dev,
        spec_plan_target(
            common.target.deep_view(),
            common.android,
            common.magicleap,
            build.uwp,
            build.win_arm64,
            config.build.android,
            config.android.target@,
        ) is Ok,
    ensures
        spec_plan_build(
            repo_root,
            build,
            common,
            config,
            host,
            release_exists,
            dev_exists,
            env,
            toolchain_file,
        ) == Err::<BuildPlanView, PlanError>(PlanError::ModesMutuallyExclusive),
{
}

} // verus!
