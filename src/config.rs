//! The run's configuration: which paths are test files, the setup steps, and
//! the test runner, and the invocations built from them.

use vstd::prelude::*;

use crate::accumulate::views;
use crate::command::{copy_strings, extend_args, CommandSpec};
use crate::errors::{RevwError, RevwResult};
use crate::text::{has_substring, matches_pattern};

verus! {

/// The configuration of a run.
#[derive(Debug)]
pub struct Config {
    pub test: Test,
}

/// What the test suite looks like and how it is prepared and run.
#[derive(Debug)]
pub struct Test {
    /// A changed path is a test file when it holds this text.
    pub pattern: String,
    pub setup: Option<Setup>,
    pub run: Option<Run>,
}

/// Steps run once, inside the workspace, before the walk.
#[derive(Debug)]
pub struct Setup {
    pub steps: Vec<Step>,
}

/// The test runner: a program and its fixed arguments; the accumulated test
/// files follow them.
#[derive(Debug)]
pub struct Run {
    pub command: String,
    pub args: Option<Vec<String>>,
}

/// One named setup step.
#[derive(Debug)]
pub struct Step {
    pub name: String,
    pub command: String,
    pub args: Option<Vec<String>>,
}

/// A setup step ready to launch, with the name it is announced by.
#[derive(Debug)]
pub struct SetupStep {
    pub name: String,
    pub command: CommandSpec,
}

/// The arguments given, or none.
pub open spec fn arg_list(args: Option<Vec<String>>) -> Seq<Seq<char>> {
    match args {
        Some(v) => views(v@),
        None => Seq::empty(),
    }
}

/// The configured setup steps, or none.
pub open spec fn setup_steps(test: Test) -> Seq<Step> {
    match test.setup {
        Some(s) => s.steps@,
        None => Seq::empty(),
    }
}

/// `steps` launches each configured step in order, under its name, with its
/// command and arguments.
pub open spec fn launches_steps(steps: Seq<SetupStep>, config: Seq<Step>) -> bool {
    &&& steps.len() == config.len()
    &&& forall|i: int|
        0 <= i < steps.len() ==> {
            &&& (#[trigger] steps[i]).name@ == config[i].name@
            &&& steps[i].command.is(config[i].command@, arg_list(config[i].args))
        }
}

/// Copies an optional argument list.
fn args_of(args: &Option<Vec<String>>) -> (r: Vec<String>)
    ensures
        views(r@) == arg_list(*args),
{
    match args {
        Some(v) => copy_strings(v),
        None => {
            let r: Vec<String> = Vec::new();
            assert(views(r@) =~= Seq::empty());
            r
        },
    }
}

impl Config {
    /// Whether `file_name` is a test file: it holds the configured pattern.
    pub fn file_matches_pattern(&self, file_name: &str) -> (r: bool)
        ensures
            r == has_substring(file_name@, self.test.pattern@),
    {
        matches_pattern(file_name, self.test.pattern.as_str())
    }

    /// Checks that a test runner is configured and that its program exists;
    /// `run_command_exists` says whether the configured program's path exists.
    pub fn validate_keys(&self, run_command_exists: bool) -> (r: RevwResult<()>)
        ensures
            self.test.run is None ==> r == Err::<(), RevwError>(RevwError::MissingConfigKey),
            self.test.run is Some && !run_command_exists ==> r == Err::<(), RevwError>(RevwError::InvalidPath),
            self.test.run is Some && run_command_exists ==> r is Ok,
    {
        match &self.test.run {
            Some(_) => {
                if run_command_exists {
                    Ok(())
                } else {
                    Err(RevwError::InvalidPath)
                }
            },
            None => Err(RevwError::MissingConfigKey),
        }
    }

    /// The setup steps to launch inside the workspace before the walk, in the
    /// configured order; none when no setup is configured.
    pub fn setup_environment(&self) -> (r: Vec<SetupStep>)
        ensures
            launches_steps(r@, setup_steps(self.test)),
    {
        let mut r: Vec<SetupStep> = Vec::new();
        match &self.test.setup {
            Some(setup) => {
                let mut i: usize = 0;
                while i < setup.steps.len()
                    invariant
                        self.test.setup == Some(*setup),
                        i <= setup.steps@.len(),
                        launches_steps(r@, setup.steps@.take(i as int)),
                    decreases setup.steps@.len() - i,
                {
                    let step = &setup.steps[i];
                    let command = CommandSpec { program: step.command.clone(), args: args_of(&step.args) };
                    r.push(SetupStep { name: step.name.clone(), command });
                    i = i + 1;
                }
                assert(setup.steps@.take(setup.steps@.len() as int) =~= setup.steps@);
            },
            None => {},
        }
        r
    }

    /// The invocation of the test runner in the workspace at `worktree_path` on
    /// `files`: the configured program under that directory, its fixed
    /// arguments, then the files. Fails when no runner is configured.
    pub fn spawn_test_runner(&self, worktree_path: &str, files: &Vec<String>) -> (r: RevwResult<CommandSpec>)
        ensures
            match self.test.run {
                None => r == Err::<CommandSpec, RevwError>(RevwError::MissingConfigKey),
                Some(run) => r matches Ok(c) && c.is(
                    worktree_path@ + "/"@ + run.command@,
                    arg_list(run.args) + views(files@),
                ),
            },
    {
        match &self.test.run {
            Some(run) => {
                let program = String::from_str(worktree_path).concat("/").concat(run.command.as_str());
                let mut args = args_of(&run.args);
                extend_args(&mut args, files);
                Ok(CommandSpec { program, args })
            },
            None => Err(RevwError::MissingConfigKey),
        }
    }
}

} // verus!
