//! Reading the command line: which root reference to start from, and what to
//! tell the user about the arguments.

use vstd::prelude::*;

use crate::accumulate::views;
use crate::git::DEFAULT_COMMIT;
use crate::text::same_text;

verus! {

/// The options of a run.
#[derive(Debug)]
pub struct Cli {
    /// The root reference of the walk.
    pub sha: String,
}

/// A message the arguments call for.
#[derive(Debug)]
pub enum Notice {
    /// The usage text.
    Help,
    /// The program's version.
    Version,
    /// `--sha` was given without a value.
    MissingSha,
    /// An argument that is not a command.
    Unknown(String),
}

/// The notice a single argument calls for.
pub open spec fn notice_for(arg: Seq<char>, n: Notice) -> bool {
    if arg == "help"@ || arg == "--help"@ || arg == "-h"@ {
        n == Notice::Help
    } else if arg == "-v"@ || arg == "--version"@ {
        n == Notice::Version
    } else if arg == "--sha"@ {
        n == Notice::MissingSha
    } else {
        n matches Notice::Unknown(a) && a@ == arg
    }
}

/// The usage text.
pub const HELP: &'static str = "
Usage: revward [OPTIONS]

Optional Arguments:
  --sha <sha>   Start at a different commit sha then the sha pointed to by `main`.
  -h, --help    Show this help message and exit.
  -v --version  Show the version of the tool.
    ";

impl Cli {
    /// The default options: start from `main`.
    pub fn new() -> (r: Cli)
        ensures
            r.sha@ == DEFAULT_COMMIT@,
    {
        Cli { sha: String::from_str(DEFAULT_COMMIT) }
    }
}

impl Notice {
    /// The text shown for this notice; `version` is the program's version.
    pub fn text(&self, version: &str) -> (r: String)
        ensures
            r@ == match self {
                Notice::Help => HELP@,
                Notice::Version => "revward version "@ + version@,
                Notice::MissingSha => "Error: provide <sha>."@,
                Notice::Unknown(arg) => "\nrevward: "@ + arg@ + " is not a revward command. See 'revward --help'.\n    "@,
            },
    {
        match self {
            Notice::Help => String::from_str(HELP),
            Notice::Version => String::from_str("revward version ").concat(version),
            Notice::MissingSha => String::from_str("Error: provide <sha>."),
            Notice::Unknown(arg) => String::from_str("\nrevward: ").concat(arg.as_str()).concat(
                " is not a revward command. See 'revward --help'.\n    ",
            ),
        }
    }
}

/// The notice for a single argument.
pub fn handle_arg(arg: &str) -> (r: Notice)
    ensures
        notice_for(arg@, r),
{
    if same_text(arg, "help") || same_text(arg, "--help") || same_text(arg, "-h") {
        Notice::Help
    } else if same_text(arg, "-v") || same_text(arg, "--version") {
        Notice::Version
    } else if same_text(arg, "--sha") {
        Notice::MissingSha
    } else {
        Notice::Unknown(String::from_str(arg))
    }
}

/// The value of a flag and its value: `--sha` takes it; any other flag gives none.
pub fn get_flag(flag: &str, value: &str) -> (r: Option<String>)
    ensures
        flag@ == "--sha"@ ==> (r matches Some(v) && v@ == value@),
        flag@ != "--sha"@ ==> r is None,
{
    if same_text(flag, "--sha") {
        Some(String::from_str(value))
    } else {
        None
    }
}

/// Reads the arguments that follow the program's name: none keeps the
/// defaults; one is a command (help, version) or a mistake; two are a flag and
/// its value; more call for the usage text. The options are the defaults
/// except where `--sha <sha>` was given.
pub fn parse_args(args: &Vec<String>) -> (r: (Cli, Option<Notice>))
    ensures
        args@.len() == 2 && args@[0]@ == "--sha"@ ==> r.0.sha@ == args@[1]@ && r.1 is None,
        !(args@.len() == 2 && args@[0]@ == "--sha"@) ==> r.0.sha@ == DEFAULT_COMMIT@,
        args@.len() == 0 ==> r.1 is None,
        args@.len() == 1 ==> (r.1 matches Some(n) && notice_for(args@[0]@, n)),
        args@.len() == 2 && args@[0]@ != "--sha"@ ==> (r.1 matches Some(Notice::Unknown(a)) && a@
            == args@[0]@),
        args@.len() > 2 ==> r.1 == Some(Notice::Help),
{
    let mut cli = Cli::new();
    if args.len() == 0 {
        (cli, None)
    } else if args.len() == 1 {
        (cli, Some(handle_arg(args[0].as_str())))
    } else if args.len() == 2 {
        match get_flag(args[0].as_str(), args[1].as_str()) {
            Some(sha) => {
                cli.sha = sha;
                (cli, None)
            },
            None => (cli, Some(Notice::Unknown(args[0].clone()))),
        }
    } else {
        (cli, Some(Notice::Help))
    }
}

} // verus!
