//! The commit driver: the decisions of a run as a state machine. The caller
//! performs each action it returns (on the repository, the file system or a
//! process) and hands back what happened as the next event.
//!
//! A run prunes a stale workspace of the same name, creates the workspace,
//! enters it and runs the setup steps; then, for each pair of adjacent commits
//! in order, it checks the shutdown flag, diffs the pair, folds the changed test
//! files into the accumulated set, checks out the newer commit and runs the
//! tests on the set. Every way out of the run after the workspace was created
//! goes through its teardown.

use vstd::prelude::*;

use crate::accumulate::{
    all_match, fold, fold_paths, lemma_fold_filters, lemma_fold_monotonic, lemma_fold_order_stable,
    lemma_fold_well_formed, unique, views,
};
use crate::command::{copy_strings, extend_args, strings_from, CommandSpec};
use crate::config::{arg_list, launches_steps, setup_steps, Config, SetupStep};
use crate::errors::{RevwError, RevwResult};
use crate::git::Commit;
use crate::text::has_substring;

verus! {

/// What a run needs besides its commits.
#[derive(Debug)]
pub struct RunPlan {
    /// A changed path is a test file when it holds this text.
    pub pattern: String,
    /// The workspace's name, which the revision-control system records.
    pub workspace_name: String,
    /// The directory of the workspace.
    pub workspace_dir: String,
    /// The setup steps, run inside the workspace before the walk.
    pub setup: Vec<SetupStep>,
    /// The test runner with its fixed arguments; the test files follow them.
    pub runner: CommandSpec,
}

/// Builds the plan of a run in the workspace `workspace_name` at `workspace_dir`
/// from the configuration. Fails when no test runner is configured.
pub fn plan_run(config: &Config, workspace_name: String, workspace_dir: String) -> (r: RevwResult<RunPlan>)
    ensures
        match config.test.run {
            None => r == Err::<RunPlan, RevwError>(RevwError::MissingConfigKey),
            Some(run) => r matches Ok(p) && {
                &&& p.pattern@ == config.test.pattern@
                &&& p.workspace_name == workspace_name
                &&& p.workspace_dir == workspace_dir
                &&& launches_steps(p.setup@, setup_steps(config.test))
                &&& p.runner.is(
                    workspace_dir@ + "/"@ + run.command@,
                    arg_list(run.args),
                )
            },
        },
{
    let no_files: Vec<String> = Vec::new();
    match config.spawn_test_runner(workspace_dir.as_str(), &no_files) {
        Ok(runner) => {
            assert(views(no_files@) =~= Seq::empty());
            assert(views(runner.args@) =~= arg_list(config.test.run.unwrap().args));
            Ok(
                RunPlan {
                    pattern: config.test.pattern.clone(),
                    workspace_name,
                    workspace_dir,
                    setup: config.setup_environment(),
                    runner,
                },
            )
        },
        Err(e) => Err(e),
    }
}

/// Where a run stands.
#[derive(Debug, Clone, Copy, PartialEq, Eq, Structural)]
pub enum Stage {
    /// Nothing has happened yet.
    Start,
    /// A stale workspace of the same name is being removed.
    Pruning,
    /// The workspace is being created.
    Creating,
    /// The process is moving into the workspace.
    Entering,
    /// The setup steps are running.
    SettingUp,
    /// The current pair is being diffed.
    Diffing,
    /// The newer commit of the current pair is being checked out.
    CheckingOut,
    /// The tests are running on the accumulated set.
    Testing,
    /// The workspace is being removed.
    TearingDown,
    /// The run is over.
    Finished,
}

/// How a run ended.
#[derive(Debug)]
pub enum Conclusion {
    /// Fewer than two commits: there is no pair to compare. Not a failure.
    InsufficientHistory,
    /// Every pair was processed.
    Completed,
    /// The shutdown flag was seen between two commits.
    Stopped,
    /// A revision-control or file-system operation failed.
    Failed(RevwError),
}

/// What happened to the last action.
#[derive(Debug)]
pub enum Event {
    /// It was carried out.
    Done,
    /// The diff was computed: the paths that changed, in the order listed.
    Changed(Vec<String>),
    /// It failed.
    Failed(RevwError),
}

/// What the caller is to do next.
#[derive(Debug)]
pub enum Action {
    /// Remove any workspace and branch left under the plan's workspace name.
    Prune,
    /// Create the workspace, detached at the head.
    Create,
    /// Make the workspace the process's working directory.
    Enter,
    /// Run the plan's setup steps inside the workspace.
    Setup,
    /// Report step `index` of `total` (the newer commit and its message) and
    /// list the paths that changed from `previous` to `current`.
    Diff { previous: String, current: String, message: String, index: usize, total: usize },
    /// Check out `sha` in the workspace, detached.
    Checkout { sha: String },
    /// Report `new_files`, the paths this step added (possibly none), and run
    /// `command`: the test runner on the whole accumulated set.
    RunTests { command: CommandSpec, new_files: Vec<String> },
    /// Remove the workspace and the branch recorded for it.
    Teardown,
    /// Nothing is left to do; the driver holds the conclusion.
    Finish,
}

/// The state of a run.
#[derive(Debug)]
pub struct Driver {
    pub commits: Vec<Commit>,
    pub plan: RunPlan,
    /// The accumulated file set.
    pub accumulated: Vec<String>,
    /// The paths the current step added to the set.
    pub fresh: Vec<String>,
    /// The index of the current pair: commits `pair` and `pair + 1`.
    pub pair: usize,
    pub stage: Stage,
    /// The workspace may exist: its creation was asked for.
    pub created: bool,
    /// Its teardown was asked for.
    pub teardown_issued: bool,
    /// Its teardown was carried out.
    pub removed: bool,
    /// How the run ended, or is ending once the teardown is over.
    pub conclusion: Option<Conclusion>,
}

/// The paths an event reports as changed.
pub open spec fn changed_paths(e: Event) -> Seq<Seq<char>> {
    match e {
        Event::Changed(paths) => views(paths@),
        _ => Seq::empty(),
    }
}

impl Driver {
    /// The number of adjacent pairs among the commits.
    pub open spec fn pair_count(self) -> int {
        if self.commits@.len() == 0 {
            0
        } else {
            self.commits@.len() - 1
        }
    }

    /// The accumulated file set as paths.
    pub open spec fn files(self) -> Seq<Seq<char>> {
        views(self.accumulated@)
    }

    /// The invariant of every state a run passes through.
    pub open spec fn wf(self) -> bool {
        &&& self.commits@.len() <= usize::MAX
        &&& self.pair <= self.pair_count()
        &&& (self.created || self.stage == Stage::Pruning || self.stage == Stage::Creating)
            ==> self.commits@.len() >= 2
        &&& (self.stage == Stage::Diffing || self.stage == Stage::CheckingOut || self.stage == Stage::Testing)
            ==> self.pair < self.pair_count()
        &&& (self.stage == Stage::Start || self.stage == Stage::Pruning || self.stage == Stage::Creating)
            ==> !self.created && !self.teardown_issued
        &&& (self.stage == Stage::Entering || self.stage == Stage::SettingUp || self.stage == Stage::Diffing
            || self.stage == Stage::CheckingOut || self.stage == Stage::Testing) ==> self.created
            && !self.teardown_issued
        &&& self.stage == Stage::TearingDown ==> self.created && self.teardown_issued
        &&& (self.stage == Stage::TearingDown || self.stage == Stage::Finished) <==> self.conclusion is Some
        &&& self.stage == Stage::Finished && self.created ==> self.teardown_issued
        &&& self.removed ==> self.teardown_issued && self.stage == Stage::Finished
        &&& unique(self.files())
        &&& all_match(self.files(), self.plan.pattern@)
    }

    /// `new` differs from `old` at most in its stage, its pair, its workspace
    /// flags and its conclusion.
    pub open spec fn same_walk(old: Driver, new: Driver) -> bool {
        &&& new.commits == old.commits
        &&& new.plan == old.plan
        &&& new.accumulated == old.accumulated
        &&& new.fresh == old.fresh
    }

    /// `new` only moved on to `stage`, asking for `a`.
    pub open spec fn moves(old: Driver, new: Driver, stage: Stage, a: Action, act: Action) -> bool {
        &&& a == act
        &&& new.stage == stage
        &&& Self::same_walk(old, new)
        &&& new.pair == old.pair
        &&& new.teardown_issued == old.teardown_issued
        &&& new.removed == old.removed
        &&& new.conclusion == old.conclusion
    }

    /// `new` asks for the teardown, the run to end with `c` once it is over.
    pub open spec fn tears_down(old: Driver, new: Driver, a: Action, c: Conclusion) -> bool {
        &&& a == Action::Teardown
        &&& new.stage == Stage::TearingDown
        &&& new.conclusion == Some(c)
        &&& new.teardown_issued
        &&& new.removed == old.removed
        &&& Self::same_walk(old, new)
    }

    /// `new` has ended with `c`.
    pub open spec fn finishes(old: Driver, new: Driver, a: Action, c: Conclusion, removed: bool) -> bool {
        &&& a == Action::Finish
        &&& new.stage == Stage::Finished
        &&& new.conclusion == Some(c)
        &&& new.created == old.created
        &&& new.teardown_issued == old.teardown_issued
        &&& new.removed == removed
        &&& new.pair == old.pair
        &&& Self::same_walk(old, new)
    }

    /// The move at the boundary before pair `k`: the run is over when no pair is
    /// left; otherwise it stops if the shutdown flag is set, and diffs pair `k`
    /// if not.
    pub open spec fn boundary(old: Driver, new: Driver, k: int, shutdown: bool, a: Action) -> bool {
        &&& new.pair == k
        &&& new.created == old.created
        &&& if k >= old.pair_count() {
            Self::tears_down(old, new, a, Conclusion::Completed)
        } else if shutdown {
            Self::tears_down(old, new, a, Conclusion::Stopped)
        } else {
            &&& a == Action::Diff {
                previous: old.commits@[k].sha,
                current: old.commits@[k + 1].sha,
                message: old.commits@[k + 1].message,
                index: (k + 1) as usize,
                total: old.pair_count() as usize,
            }
            &&& new.stage == Stage::Diffing
            &&& new.teardown_issued == old.teardown_issued
            &&& new.removed == old.removed
            &&& new.conclusion == old.conclusion
            &&& Self::same_walk(old, new)
        }
    }

    /// One step of a run: from `old`, on `event`, with the shutdown flag as
    /// `shutdown`, the run moves to `new` and asks for `a`.
    pub open spec fn transition(old: Driver, event: Event, shutdown: bool, new: Driver, a: Action) -> bool {
        match old.stage {
            Stage::Start => if old.commits@.len() < 2 {
                Self::finishes(old, new, a, Conclusion::InsufficientHistory, false)
            } else {
                Self::moves(old, new, Stage::Pruning, a, Action::Prune) && new.created == old.created
            },
            Stage::Pruning => match event {
                Event::Failed(e) => Self::finishes(old, new, a, Conclusion::Failed(e), false),
                _ => Self::moves(old, new, Stage::Creating, a, Action::Create) && new.created == old.created,
            },
            Stage::Creating => match event {
                Event::Failed(e) => Self::tears_down(old, new, a, Conclusion::Failed(e)) && new.created
                    && new.pair == old.pair,
                _ => Self::moves(old, new, Stage::Entering, a, Action::Enter) && new.created,
            },
            Stage::Entering => match event {
                Event::Failed(e) => Self::tears_down(old, new, a, Conclusion::Failed(e)) && new.created == old.created
                    && new.pair == old.pair,
                _ => Self::moves(old, new, Stage::SettingUp, a, Action::Setup) && new.created == old.created,
            },
            Stage::SettingUp => match event {
                Event::Failed(e) => Self::tears_down(old, new, a, Conclusion::Failed(e)) && new.created == old.created
                    && new.pair == old.pair,
                _ => Self::boundary(old, new, 0, shutdown, a),
            },
            Stage::Diffing => match event {
                Event::Failed(e) => Self::tears_down(old, new, a, Conclusion::Failed(e)) && new.created == old.created
                    && new.pair == old.pair,
                _ => {
                    &&& a == Action::Checkout { sha: old.commits@[old.pair + 1].sha }
                    &&& new.stage == Stage::CheckingOut
                    &&& new.files() == fold_paths(old.files(), changed_paths(event), old.plan.pattern@)
                    &&& views(new.fresh@) == new.files().subrange(old.accumulated@.len() as int, new.accumulated@.len() as int)
                    &&& new.commits == old.commits
                    &&& new.plan == old.plan
                    &&& new.pair == old.pair
                    &&& new.created == old.created
                    &&& new.teardown_issued == old.teardown_issued
                    &&& new.removed == old.removed
                    &&& new.conclusion == old.conclusion
                },
            },
            Stage::CheckingOut => match event {
                Event::Failed(e) => Self::tears_down(old, new, a, Conclusion::Failed(e)) && new.created == old.created
                    && new.pair == old.pair,
                _ => {
                    &&& a matches Action::RunTests { command, new_files } && {
                        &&& command.is(old.plan.runner.program@, views(old.plan.runner.args@) + old.files())
                        &&& views(new_files@) == views(old.fresh@)
                    }
                    &&& new.stage == Stage::Testing
                    &&& new.pair == old.pair
                    &&& new.created == old.created
                    &&& new.teardown_issued == old.teardown_issued
                    &&& new.removed == old.removed
                    &&& new.conclusion == old.conclusion
                    &&& Self::same_walk(old, new)
                },
            },
            Stage::Testing => Self::boundary(old, new, old.pair + 1, shutdown, a),
            Stage::TearingDown => match event {
                Event::Failed(e) => match old.conclusion {
                    Some(Conclusion::Failed(first)) => Self::finishes(old, new, a, Conclusion::Failed(first), false),
                    _ => Self::finishes(old, new, a, Conclusion::Failed(e), false),
                },
                _ => Self::finishes(old, new, a, old.conclusion.unwrap(), true),
            },
            Stage::Finished => Self::moves(old, new, Stage::Finished, a, Action::Finish) && new.created == old.created,
        }
    }

    /// A driver about to run `plan` over `commits`, oldest first.
    pub fn new(commits: Vec<Commit>, plan: RunPlan) -> (r: Driver)
        ensures
            r.wf(),
            r.stage == Stage::Start,
            r.commits == commits,
            r.plan == plan,
            r.files().len() == 0,
            !r.created,
    {
        let _count = commits.len();
        let r = Driver {
            commits,
            plan,
            accumulated: Vec::new(),
            fresh: Vec::new(),
            pair: 0,
            stage: Stage::Start,
            created: false,
            teardown_issued: false,
            removed: false,
            conclusion: None,
        };
        assert(r.files() =~= Seq::empty());
        r
    }

    /// Moves to the teardown, the run to end with `c` once it is over.
    fn begin_teardown(&mut self, c: Conclusion) -> (a: Action)
        requires
            old(self).created,
        ensures
            Self::tears_down(*old(self), *final(self), a, c),
            final(self).pair == old(self).pair,
            final(self).created == old(self).created,
    {
        self.stage = Stage::TearingDown;
        self.conclusion = Some(c);
        self.teardown_issued = true;
        Action::Teardown
    }

    /// Ends the run with `c`.
    fn finish(&mut self, c: Conclusion, removed: bool) -> (a: Action)
        ensures
            Self::finishes(*old(self), *final(self), a, c, removed),
    {
        self.stage = Stage::Finished;
        self.conclusion = Some(c);
        self.removed = removed;
        Action::Finish
    }

    /// The move at the boundary before pair `k`.
    fn at_boundary(&mut self, k: usize, shutdown: bool) -> (a: Action)
        requires
            old(self).wf(),
            old(self).created,
            !old(self).teardown_issued,
            old(self).conclusion is None,
            k <= old(self).pair_count(),
        ensures
            Self::boundary(*old(self), *final(self), k as int, shutdown, a),
    {
        let total = self.commits.len() - 1;
        self.pair = k;
        if k >= total {
            self.begin_teardown(Conclusion::Completed)
        } else if shutdown {
            self.begin_teardown(Conclusion::Stopped)
        } else {
            self.stage = Stage::Diffing;
            Action::Diff {
                previous: self.commits[k].sha.clone(),
                current: self.commits[k + 1].sha.clone(),
                message: self.commits[k + 1].message.clone(),
                index: k + 1,
                total,
            }
        }
    }

    /// Takes one step of the run: `event` says how the last action went, and
    /// `shutdown` whether a stop was asked for. The first call begins the run
    /// and does not read `event`.
    pub fn advance(&mut self, event: Event, shutdown: bool) -> (a: Action)
        requires
            old(self).wf(),
        ensures
            final(self).wf(),
            Self::transition(*old(self), event, shutdown, *final(self), a),
    {
        match self.stage {
            Stage::Start => {
                if self.commits.len() < 2 {
                    self.finish(Conclusion::InsufficientHistory, false)
                } else {
                    self.stage = Stage::Pruning;
                    Action::Prune
                }
            },
            Stage::Pruning => match event {
                Event::Failed(e) => self.finish(Conclusion::Failed(e), false),
                _ => {
                    self.stage = Stage::Creating;
                    Action::Create
                },
            },
            Stage::Creating => {
                self.created = true;
                match event {
                    Event::Failed(e) => self.begin_teardown(Conclusion::Failed(e)),
                    _ => {
                        self.stage = Stage::Entering;
                        Action::Enter
                    },
                }
            },
            Stage::Entering => match event {
                Event::Failed(e) => self.begin_teardown(Conclusion::Failed(e)),
                _ => {
                    self.stage = Stage::SettingUp;
                    Action::Setup
                },
            },
            Stage::SettingUp => match event {
                Event::Failed(e) => self.begin_teardown(Conclusion::Failed(e)),
                _ => self.at_boundary(0, shutdown),
            },
            Stage::Diffing => match event {
                Event::Failed(e) => self.begin_teardown(Conclusion::Failed(e)),
                Event::Changed(paths) => self.fold_step(&paths),
                Event::Done => {
                    let none: Vec<String> = Vec::new();
                    assert(views(none@) =~= Seq::empty());
                    self.fold_step(&none)
                },
            },
            Stage::CheckingOut => match event {
                Event::Failed(e) => self.begin_teardown(Conclusion::Failed(e)),
                _ => {
                    self.stage = Stage::Testing;
                    let mut args = copy_strings(&self.plan.runner.args);
                    extend_args(&mut args, &self.accumulated);
                    let command = CommandSpec { program: self.plan.runner.program.clone(), args };
                    let new_files = copy_strings(&self.fresh);
                    Action::RunTests { command, new_files }
                },
            },
            Stage::Testing => {
                let next = self.pair + 1;
                self.at_boundary(next, shutdown)
            },
            Stage::TearingDown => match event {
                Event::Failed(e) => {
                    let first = self.conclusion.take();
                    match first {
                        Some(Conclusion::Failed(f)) => self.finish(Conclusion::Failed(f), false),
                        _ => self.finish(Conclusion::Failed(e), false),
                    }
                },
                _ => {
                    let c = self.conclusion.take();
                    match c {
                        Some(c) => self.finish(c, true),
                        None => self.finish(Conclusion::Completed, true),
                    }
                },
            },
            Stage::Finished => Action::Finish,
        }
    }

    /// Folds the paths of the current pair into the set and asks for the newer
    /// commit's checkout.
    fn fold_step(&mut self, paths: &Vec<String>) -> (a: Action)
        requires
            old(self).wf(),
            old(self).stage == Stage::Diffing,
        ensures
            final(self).wf(),
            a == (Action::Checkout { sha: old(self).commits@[old(self).pair + 1].sha }),
            final(self).stage == Stage::CheckingOut,
            final(self).files() == fold_paths(old(self).files(), views(paths@), old(self).plan.pattern@),
            views(final(self).fresh@) == final(self).files().subrange(
                old(self).accumulated@.len() as int,
                final(self).accumulated@.len() as int,
            ),
            final(self).commits == old(self).commits,
            final(self).plan == old(self).plan,
            final(self).pair == old(self).pair,
            final(self).created == old(self).created,
            final(self).teardown_issued == old(self).teardown_issued,
            final(self).removed == old(self).removed,
            final(self).conclusion == old(self).conclusion,
    {
        let before = self.accumulated.len();
        proof {
            lemma_fold_well_formed(self.files(), views(paths@), self.plan.pattern@);
            lemma_fold_monotonic(self.files(), views(paths@), self.plan.pattern@);
        }
        fold(&mut self.accumulated, paths, self.plan.pattern.as_str());
        self.fresh = strings_from(&self.accumulated, before);
        self.stage = Stage::CheckingOut;
        Action::Checkout { sha: self.commits[self.pair + 1].sha.clone() }
    }
}

/// Checks that the walk has a pair of commits to compare. Gives the number of
/// commits.
pub fn ensure_enough_commits(commits: &Vec<Commit>) -> (r: RevwResult<usize>)
    ensures
        commits@.len() >= 2 ==> r == Ok::<usize, RevwError>(commits@.len() as usize),
        commits@.len() < 2 ==> r == Err::<usize, RevwError>(RevwError::NotEnoughCommits),
{
    if commits.len() >= 2 {
        Ok(commits.len())
    } else {
        Err(RevwError::NotEnoughCommits)
    }
}

/// `states` is a run on `events` and `flags` asking for `actions`: each state
/// is well formed and moves to the next on its event, with its shutdown flag.
pub open spec fn is_run(states: Seq<Driver>, events: Seq<Event>, flags: Seq<bool>, actions: Seq<Action>) -> bool {
    &&& states.len() == events.len() + 1
    &&& flags.len() == events.len()
    &&& actions.len() == events.len()
    &&& forall|i: int| 0 <= i < states.len() ==> (#[trigger] states[i]).wf()
    &&& forall|i: int|
        0 <= i < events.len() ==> Driver::transition(
            states[i],
            #[trigger] events[i],
            flags[i],
            states[i + 1],
            actions[i],
        )
}

/// A step never drops or moves a path of the accumulated set: the set before
/// is a prefix of the set after, so its size never shrinks along the walk.
pub proof fn lemma_walk_monotonic(d: Driver, e: Event, shutdown: bool, next: Driver, a: Action)
    requires
        d.wf(),
        Driver::transition(d, e, shutdown, next, a),
    ensures
        d.files().len() <= next.files().len(),
        forall|i: int| 0 <= i < d.files().len() ==> #[trigger] next.files()[i] == d.files()[i],
{
    if d.stage == Stage::Diffing && !(e is Failed) {
        lemma_fold_monotonic(d.files(), changed_paths(e), d.plan.pattern@);
    }
}

/// Along a whole run the accumulated set only grows: the set at any state is a
/// prefix of the set at every later state.
pub proof fn lemma_run_monotonic(
    states: Seq<Driver>,
    events: Seq<Event>,
    flags: Seq<bool>,
    actions: Seq<Action>,
    i: int,
    j: int,
)
    requires
        is_run(states, events, flags, actions),
        0 <= i <= j < states.len(),
    ensures
        states[i].files().len() <= states[j].files().len(),
        forall|k: int| 0 <= k < states[i].files().len() ==> #[trigger] states[j].files()[k] == states[i].files()[k],
    decreases j - i,
{
    if i < j {
        lemma_run_monotonic(states, events, flags, actions, i, j - 1);
        assert(Driver::transition(states[j - 1], events[j - 1], flags[j - 1], states[j], actions[j - 1]));
        assert(states[j - 1].wf());
        lemma_walk_monotonic(states[j - 1], events[j - 1], flags[j - 1], states[j], actions[j - 1]);
    }
}

/// A step adds to the accumulated set only paths its event reports as changed
/// that hold the pattern; every path in the set holds the pattern.
pub proof fn lemma_walk_filters(d: Driver, e: Event, shutdown: bool, next: Driver, a: Action)
    requires
        d.wf(),
        Driver::transition(d, e, shutdown, next, a),
    ensures
        forall|x: Seq<char>| #[trigger] next.files().contains(x) ==> d.files().contains(x) || (
        changed_paths(e).contains(x) && has_substring(x, d.plan.pattern@)),
        forall|i: int| 0 <= i < next.files().len() ==> has_substring(#[trigger] next.files()[i], next.plan.pattern@),
{
    if d.stage == Stage::Diffing && !(e is Failed) {
        lemma_fold_filters(d.files(), changed_paths(e), d.plan.pattern@);
        lemma_fold_well_formed(d.files(), changed_paths(e), d.plan.pattern@);
    }
}

/// The set a step produces depends only on the set before, the paths reported
/// and the pattern, and folding the same paths again leaves it as it is.
pub proof fn lemma_walk_order_stable(
    d1: Driver,
    e1: Event,
    s1: bool,
    n1: Driver,
    a1: Action,
    d2: Driver,
    e2: Event,
    s2: bool,
    n2: Driver,
    a2: Action,
)
    requires
        d1.wf(),
        d2.wf(),
        d1.stage == Stage::Diffing,
        d2.stage == Stage::Diffing,
        !(e1 is Failed),
        !(e2 is Failed),
        d1.files() == d2.files(),
        d1.plan.pattern@ == d2.plan.pattern@,
        changed_paths(e1) == changed_paths(e2),
        Driver::transition(d1, e1, s1, n1, a1),
        Driver::transition(d2, e2, s2, n2, a2),
    ensures
        n1.files() == n2.files(),
        fold_paths(n1.files(), changed_paths(e1), d1.plan.pattern@) == n1.files(),
{
    lemma_fold_order_stable(d1.files(), changed_paths(e1), d1.plan.pattern@);
}

/// Once finished, a run stays finished and asks for nothing more.
proof fn lemma_stays_finished(states: Seq<Driver>, events: Seq<Event>, flags: Seq<bool>, actions: Seq<Action>, from: int)
    requires
        is_run(states, events, flags, actions),
        0 <= from < states.len(),
        states[from].stage == Stage::Finished,
    ensures
        forall|i: int| from <= i < states.len() ==> #[trigger] states[i].stage == Stage::Finished,
        forall|i: int| from <= i < actions.len() ==> #[trigger] actions[i] == Action::Finish,
        forall|i: int| from <= i < states.len() ==> #[trigger] states[i].created == states[from].created,
    decreases states.len() - from,
{
    if from + 1 < states.len() {
        assert(Driver::transition(states[from], events[from], flags[from], states[from + 1], actions[from]));
        lemma_stays_finished(states, events, flags, actions, from + 1);
    }
}

/// With fewer than two commits there is nothing to compare: the run ends at
/// once, as insufficient history, and never creates a workspace, checks out a
/// commit or runs the tests.
pub proof fn lemma_insufficient_history(states: Seq<Driver>, events: Seq<Event>, flags: Seq<bool>, actions: Seq<Action>)
    requires
        is_run(states, events, flags, actions),
        events.len() >= 1,
        states[0].stage == Stage::Start,
        states[0].commits@.len() < 2,
    ensures
        forall|i: int| 0 <= i < actions.len() ==> #[trigger] actions[i] == Action::Finish,
        forall|i: int| 0 <= i < states.len() ==> !(#[trigger] states[i]).created,
        states[1].conclusion == Some(Conclusion::InsufficientHistory),
{
    assert(Driver::transition(states[0], events[0], flags[0], states[1], actions[0]));
    lemma_stays_finished(states, events, flags, actions, 1);
}

/// A finished run that created its workspace asked for its teardown.
pub proof fn lemma_finish_follows_teardown(d: Driver)
    requires
        d.wf(),
        d.stage == Stage::Finished,
        d.created,
    ensures
        d.teardown_issued,
{
}

/// A walk cancelled while the tests of a step that is not the last are
/// running: the next step asks for the teardown instead of another pair, and
/// after it nothing but the end is asked for. When the teardown is carried out
/// the run ends as stopped, with the workspace removed.
pub proof fn lemma_cancel_tears_down(states: Seq<Driver>, events: Seq<Event>, flags: Seq<bool>, actions: Seq<Action>)
    requires
        is_run(states, events, flags, actions),
        events.len() >= 2,
        states[0].stage == Stage::Testing,
        states[0].pair + 1 < states[0].pair_count(),
        flags[0],
    ensures
        actions[0] == Action::Teardown,
        states[1].conclusion == Some(Conclusion::Stopped),
        forall|i: int| 1 <= i < actions.len() ==> #[trigger] actions[i] == Action::Finish,
        forall|i: int| 2 <= i < states.len() ==> (#[trigger] states[i]).teardown_issued,
        !(events[1] is Failed) ==> states[2].removed && states[2].conclusion == Some(Conclusion::Stopped),
{
    assert(Driver::transition(states[0], events[0], flags[0], states[1], actions[0]));
    assert(Driver::transition(states[1], events[1], flags[1], states[2], actions[1]));
    assert(states[2].wf());
    lemma_stays_finished(states, events, flags, actions, 2);
    assert forall|i: int| 2 <= i < states.len() implies (#[trigger] states[i]).teardown_issued by {
        assert(states[i].wf());
        assert(states[i].stage == Stage::Finished);
    }
}

} // verus!
