//! Walks the commits between a root reference and the current head inside an
//! isolated workspace, accumulating the test files that changed along the way
//! and re-running the test runner on them at every commit.

pub mod accumulate;
pub mod cancel;
pub mod cli;
pub mod command;
pub mod config;
pub mod display;
pub mod engine;
pub mod errors;
pub mod git;
pub mod text;

pub use accumulate::{contains_path, fold};
pub use cancel::Coordinator;
pub use cli::{get_flag, handle_arg, parse_args, Cli, Notice};
pub use command::CommandSpec;
pub use display::{Color, Fd, LogLine, Logger};
pub use engine::{ensure_enough_commits, plan_run, Action, Conclusion, Driver, Event, RunPlan, Stage};
pub use config::{Config, Run, Setup, SetupStep, Step, Test};
pub use errors::{RevwError, RevwResult};
pub use git::{build_commit, workspace_name, Client, Commit, Subcommand};
pub use text::{matches_pattern, same_text};
