//! Commits, and the revision-control commands that the walk needs: how each is
//! invoked and how its output is read.

use vstd::prelude::*;

use crate::accumulate::views;
use crate::command::CommandSpec;
use crate::text::chars_of;

verus! {

/// The program that every revision-control command runs.
pub const GIT: &'static str = "git";

/// The reference the walk starts from when none is given.
pub const DEFAULT_COMMIT: &'static str = "main";

/// The prefix of a workspace's name; the head commit's identifier follows it.
pub const WORKSPACE_PREFIX: &'static str = "revward-";

/// A commit: its short hash and its one-line message.
#[derive(Debug)]
pub struct Commit {
    pub sha: String,
    pub message: String,
}

/// The index of the first `c` in `s` at or after `from`, or `s.len()` if none.
pub open spec fn index_of(s: Seq<char>, c: char, from: int) -> int
    decreases s.len() - from,
{
    if from < 0 || from >= s.len() {
        s.len() as int
    } else if s[from] == c {
        from
    } else {
        index_of(s, c, from + 1)
    }
}

/// The hash and message read from one line of the revision log: the text before
/// the first space and the text after it. A line without a space gives two empty
/// fields.
pub open spec fn commit_fields(line: Seq<char>) -> (Seq<char>, Seq<char>) {
    let i = index_of(line, ' ', 0);
    if i < line.len() {
        (line.subrange(0, i), line.subrange(i + 1, line.len() as int))
    } else {
        (Seq::empty(), Seq::empty())
    }
}

/// The position of the first `c` in `s` at or after `from`, or the length of `s`.
pub fn find_char(s: &Vec<char>, c: char, from: usize) -> (r: usize)
    requires
        from <= s@.len(),
    ensures
        r as int == index_of(s@, c, from as int),
        from <= r <= s@.len(),
{
    let mut i = from;
    while i < s.len()
        invariant
            from <= i <= s@.len(),
            index_of(s@, c, from as int) == index_of(s@, c, i as int),
        decreases s@.len() - i,
    {
        if s[i] == c {
            return i;
        }
        i = i + 1;
    }
    i
}

impl Commit {
    /// Reads a commit from one line of the revision log, `<sha> <message>`.
    pub fn build(line: String) -> (r: Commit)
        ensures
            (r.sha@, r.message@) == commit_fields(line@),
    {
        let chars = chars_of(line.as_str());
        let i = find_char(&chars, ' ', 0);
        if i < chars.len() {
            let sha = line.as_str().substring_char(0, i).to_owned();
            let message = line.as_str().substring_char(i + 1, chars.len()).to_owned();
            Commit { sha, message }
        } else {
            Commit { sha: String::new(), message: String::new() }
        }
    }
}

/// Reads a commit from a line that may have failed to read; a failed read gives
/// a commit with empty fields.
pub fn build_commit<E>(line: Result<String, E>) -> (r: Commit)
    ensures
        match line {
            Ok(l) => (r.sha@, r.message@) == commit_fields(l@),
            Err(_) => r.sha@.len() == 0 && r.message@.len() == 0,
        },
{
    match line {
        Ok(l) => Commit::build(l),
        Err(_) => Commit { sha: String::new(), message: String::new() },
    }
}

/// The lines of `s` that were complete within its first `n` characters, empty
/// ones left out, and where the line in progress there starts.
pub open spec fn scan_lines(s: Seq<char>, n: int) -> (Seq<Seq<char>>, int)
    decreases n,
{
    if n <= 0 {
        (Seq::empty(), 0)
    } else {
        let (done, start) = scan_lines(s, n - 1);
        if s[n - 1] == '\n' {
            if start < n - 1 {
                (done.push(s.subrange(start, n - 1)), n)
            } else {
                (done, n)
            }
        } else {
            (done, start)
        }
    }
}

/// The non-empty lines of `s`, split at each newline, in order.
pub open spec fn nonempty_lines(s: Seq<char>) -> Seq<Seq<char>> {
    let (done, start) = scan_lines(s, s.len() as int);
    if start < s.len() {
        done.push(s.subrange(start, s.len() as int))
    } else {
        done
    }
}

/// Splits command output into its non-empty lines.
pub fn output_lines(output: &str) -> (r: Vec<String>)
    ensures
        views(r@) == nonempty_lines(output@),
{
    let chars = chars_of(output);
    let n = chars.len();
    let mut lines: Vec<String> = Vec::new();
    let mut start: usize = 0;
    let mut i: usize = 0;
    while i < n
        invariant
            n == output@.len(),
            chars@ == output@,
            start <= i <= n,
            (views(lines@), start as int) == scan_lines(output@, i as int),
        decreases n - i,
    {
        if chars[i] == '\n' {
            if start < i {
                let ghost prev = lines@;
                lines.push(output.substring_char(start, i).to_owned());
                assert(views(lines@) =~= views(prev).push(output@.subrange(start as int, i as int)));
            }
            start = i + 1;
        }
        i = i + 1;
    }
    if start < n {
        let ghost prev = lines@;
        lines.push(output.substring_char(start, n).to_owned());
        assert(views(lines@) =~= views(prev).push(output@.subrange(start as int, n as int)));
    }
    lines
}

/// The revision-control subcommands the walk uses.
pub enum Subcommand {
    Diff,
    Log,
    Checkout,
    Worktree,
}

impl Subcommand {
    /// The subcommand's name on the command line.
    pub fn to_string(&self) -> (r: &'static str)
        ensures
            r@ == match self {
                Subcommand::Log => "log"@,
                Subcommand::Diff => "diff"@,
                Subcommand::Checkout => "checkout"@,
                Subcommand::Worktree => "worktree"@,
            },
    {
        match self {
            Subcommand::Log => "log",
            Subcommand::Diff => "diff",
            Subcommand::Checkout => "checkout",
            Subcommand::Worktree => "worktree",
        }
    }
}

/// The name of the workspace for a head commit: the prefix, then the commit's
/// identifier, so that runs on different heads never share one.
pub fn workspace_name(head_id: &str) -> (r: String)
    ensures
        r@ == WORKSPACE_PREFIX@ + head_id@,
{
    String::from_str(WORKSPACE_PREFIX).concat(head_id)
}

/// A revision-control client bound to a root reference, with the commits from
/// that reference to the head, oldest first.
#[derive(Debug)]
pub struct Client {
    pub root_commit: String,
    pub commits: Vec<Commit>,
}

/// The commits a revision log lists, one per non-empty line, in order.
pub open spec fn log_commits(commits: Seq<Commit>, output: Seq<char>) -> bool {
    &&& commits.len() == nonempty_lines(output).len()
    &&& forall|i: int|
        0 <= i < commits.len() ==> (#[trigger] commits[i].sha@, commits[i].message@) == commit_fields(
            nonempty_lines(output)[i],
        )
}

impl Client {
    /// The log command whose output `new` reads: one `<sha> <subject>` line per
    /// commit from `root_commit` to the head, oldest first.
    pub fn log_command(root_commit: &str) -> (r: CommandSpec)
        ensures
            r.is(
                GIT@,
                seq!["log"@, root_commit@ + "^.."@, "--reverse"@, "--format=%h %s"@],
            ),
    {
        let range = String::from_str(root_commit).concat("^..");
        let args = vec![
            String::from_str(Subcommand::Log.to_string()),
            range,
            String::from_str("--reverse"),
            String::from_str("--format=%h %s"),
        ];
        let r = CommandSpec { program: String::from_str(GIT), args };
        assert(views(r.args@) =~= seq!["log"@, root_commit@ + "^.."@, "--reverse"@, "--format=%h %s"@]);
        r
    }

    /// A client for `root_commit` whose commits are read from the output of its
    /// log command.
    pub fn new(root_commit: String, log_output: &str) -> (r: Client)
        ensures
            r.root_commit == root_commit,
            log_commits(r.commits@, log_output@),
    {
        let client = Client { root_commit, commits: Vec::new() };
        let commits = client.get_commits(log_output);
        Client { root_commit: client.root_commit, commits }
    }

    /// The commits listed in the output of the log command, in order.
    pub fn get_commits(&self, log_output: &str) -> (r: Vec<Commit>)
        ensures
            log_commits(r@, log_output@),
    {
        let lines = self.transform_stream(log_output);
        let mut commits: Vec<Commit> = Vec::new();
        let mut i: usize = 0;
        while i < lines.len()
            invariant
                views(lines@) == nonempty_lines(log_output@),
                i <= lines@.len(),
                commits@.len() == i,
                forall|k: int|
                    0 <= k < i ==> (#[trigger] commits@[k].sha@, commits@[k].message@) == commit_fields(
                        nonempty_lines(log_output@)[k],
                    ),
            decreases lines@.len() - i,
        {
            assert(views(lines@)[i as int] == lines@[i as int]@);
            commits.push(Commit::build(lines[i].clone()));
            i = i + 1;
        }
        commits
    }

    /// The diff command listing the paths that changed between two commits.
    pub fn diff_command(&self, sha_1: &String, sha_2: &String) -> (r: CommandSpec)
        ensures
            r.is(GIT@, seq!["diff"@, "--name-only"@, sha_1@, sha_2@]),
    {
        let args = vec![
            String::from_str(Subcommand::Diff.to_string()),
            String::from_str("--name-only"),
            sha_1.clone(),
            sha_2.clone(),
        ];
        let r = CommandSpec { program: String::from_str(GIT), args };
        assert(views(r.args@) =~= seq!["diff"@, "--name-only"@, sha_1@, sha_2@]);
        r
    }

    /// The changed paths listed in the output of the diff command, in order.
    pub fn get_changed_files(&self, diff_output: &str) -> (r: Vec<String>)
        ensures
            views(r@) == nonempty_lines(diff_output@),
    {
        self.transform_stream(diff_output)
    }

    /// The command that checks out `value` in the current working tree.
    pub fn checkout(&self, value: &String) -> (r: CommandSpec)
        ensures
            r.is(GIT@, seq!["checkout"@, value@]),
    {
        let args = vec![String::from_str(Subcommand::Checkout.to_string()), value.clone()];
        let r = CommandSpec { program: String::from_str(GIT), args };
        assert(views(r.args@) =~= seq!["checkout"@, value@]);
        r
    }

    /// The command that adds a detached working tree at `path`.
    pub fn create_worktree(&self, path: &String) -> (r: CommandSpec)
        ensures
            r.is(GIT@, seq!["worktree"@, "add"@, "-d"@, path@]),
    {
        let args = vec![
            String::from_str(Subcommand::Worktree.to_string()),
            String::from_str("add"),
            String::from_str("-d"),
            path.clone(),
        ];
        let r = CommandSpec { program: String::from_str(GIT), args };
        assert(views(r.args@) =~= seq!["worktree"@, "add"@, "-d"@, path@]);
        r
    }

    /// The command that removes the working tree at `path`.
    pub fn delete_worktree(&self, path: &String) -> (r: CommandSpec)
        ensures
            r.is(GIT@, seq!["worktree"@, "remove"@, path@]),
    {
        let args = vec![
            String::from_str(Subcommand::Worktree.to_string()),
            String::from_str("remove"),
            path.clone(),
        ];
        let r = CommandSpec { program: String::from_str(GIT), args };
        assert(views(r.args@) =~= seq!["worktree"@, "remove"@, path@]);
        r
    }

    /// The non-empty lines of a command's output.
    fn transform_stream(&self, stdout: &str) -> (r: Vec<String>)
        ensures
            views(r@) == nonempty_lines(stdout@),
    {
        output_lines(stdout)
    }
}

} // verus!
