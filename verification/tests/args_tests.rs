use mars::args::Args;
use mars::args::BuildArgs;
use mars::args::CommonArgs;
use mars::args::Subcommands;

fn common() -> CommonArgs {
    CommonArgs {
        target: Some("aarch64-linux-android".to_string()),
        media_stack: None,
        android: false,
        magicleap: false,
        libsimpleservo: false,
        features: vec!["egl".to_string()],
        debug_mozjs: false,
        with_debug_assertions: false,
        with_frame_pointer: false,
        with_raqote: false,
        with_layout_2020: false,
        with_layout_2013: false,
        without_wgl: false,
    }
}

#[test]
fn a_command_line_carries_shared_flags_and_a_subcommand() {
    let args = Args {
        common: common(),
        cmd: Subcommands::Build(BuildArgs {
            release: true,
            dev: false,
            jobs: Some(2),
            no_package: false,
            verbose: true,
            very_verbose: false,
            uwp: false,
            win_arm64: false,
            params: vec!["--color".to_string()],
        }),
    };
    assert_eq!(args.common.target.as_deref(), Some("aarch64-linux-android"));
    match args.cmd {
        Subcommands::Build(b) => {
            assert!(b.release);
            assert_eq!(b.jobs, Some(2));
            assert_eq!(b.params, vec!["--color".to_string()]);
        }
    }
}
