//! Build-configuration resolver and invocation planner for the Servo build
//! tool: given command-line flags, the persisted `.servobuild` configuration,
//! the inherited process environment and a few platform facts, it derives the
//! compilation target, the build mode, the feature list, the environment map
//! and the exact argument vector for the external build command.

pub mod args;
pub mod config;
pub mod config_file;
pub mod env;
pub mod features;
pub mod invoke;
pub mod plan;
pub mod repo;
pub mod text;
