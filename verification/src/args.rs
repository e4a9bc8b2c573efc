//! The command-line surface of the build tool, as plain data: the outer
//! argument parser constructs these values and hands them to the planner.

use vstd::prelude::*;

verus! {

/// Flags shared by every subcommand.
pub struct CommonArgs {
    pub target: Option<String>,
    pub media_stack: Option<String>,
    pub android: bool,
    pub magicleap: bool,
    pub libsimpleservo: bool,
    pub features: Vec<String>,
    pub debug_mozjs: bool,
    pub with_debug_assertions: bool,
    pub with_frame_pointer: bool,
    pub with_raqote: bool,
    pub with_layout_2020: bool,
    pub with_layout_2013: bool,
    pub without_wgl: bool,
}

/// Flags of the build subcommand.
pub struct BuildArgs {
    pub release: bool,
    pub dev: bool,
    pub jobs: Option<u32>,
    pub no_package: bool,
    pub verbose: bool,
    pub very_verbose: bool,
    pub uwp: bool,
    pub win_arm64: bool,
    pub params: Vec<String>,
}

/// The subcommands the tool understands.
pub enum Subcommands {
    Build(BuildArgs),
}

/// A full command line: the shared flags and the chosen subcommand.
pub struct Args {
    pub common: CommonArgs,
    pub cmd: Subcommands,
}

} // verus!
