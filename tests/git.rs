use revw::{build_commit, workspace_name, Client, Commit, Subcommand};

fn args(c: &revw::CommandSpec) -> Vec<&str> {
    c.args.iter().map(|s| s.as_str()).collect()
}

#[test]
fn commit_is_split_at_the_first_space() {
    let c = Commit::build("a1b2c3d Add user spec for login".to_string());
    assert_eq!(c.sha, "a1b2c3d");
    assert_eq!(c.message, "Add user spec for login");
}

#[test]
fn commit_line_without_space_gives_empty_fields() {
    let c = Commit::build("a1b2c3d".to_string());
    assert_eq!(c.sha, "");
    assert_eq!(c.message, "");
}

#[test]
fn commit_line_with_leading_space_has_empty_sha() {
    let c = Commit::build(" message".to_string());
    assert_eq!(c.sha, "");
    assert_eq!(c.message, "message");
}

#[test]
fn failed_line_read_gives_empty_commit() {
    let c = build_commit::<()>(Err(()));
    assert_eq!(c.sha, "");
    assert_eq!(c.message, "");
    let c = build_commit::<()>(Ok("abc Fix".to_string()));
    assert_eq!(c.sha, "abc");
    assert_eq!(c.message, "Fix");
}

#[test]
fn client_reads_commits_from_log_output() {
    let client = Client::new("main".to_string(), "aaa Root\nbbb Second one\n\nccc Third\n");
    assert_eq!(client.root_commit, "main");
    let shas: Vec<&str> = client.commits.iter().map(|c| c.sha.as_str()).collect();
    let messages: Vec<&str> = client.commits.iter().map(|c| c.message.as_str()).collect();
    assert_eq!(shas, vec!["aaa", "bbb", "ccc"]);
    assert_eq!(messages, vec!["Root", "Second one", "Third"]);
}

#[test]
fn client_with_empty_log_has_no_commits() {
    let client = Client::new("main".to_string(), "");
    assert!(client.commits.is_empty());
}

#[test]
fn changed_files_skip_empty_lines() {
    let client = Client::new("main".to_string(), "");
    assert_eq!(
        client.get_changed_files("a_spec.rb\n\nlib/b.rb\nc_spec.rb"),
        vec!["a_spec.rb", "lib/b.rb", "c_spec.rb"]
    );
    assert!(client.get_changed_files("\n\n").is_empty());
}

#[test]
fn git_commands_are_built_in_order() {
    let log = Client::log_command("feature");
    assert_eq!(log.program, "git");
    assert_eq!(args(&log), vec!["log", "feature^..", "--reverse", "--format=%h %s"]);
    let client = Client::new("feature".to_string(), "");
    let diff = client.diff_command(&"aaa".to_string(), &"bbb".to_string());
    assert_eq!(args(&diff), vec!["diff", "--name-only", "aaa", "bbb"]);
    assert_eq!(args(&client.checkout(&"bbb".to_string())), vec!["checkout", "bbb"]);
    let path = "/tmp/revward-abc".to_string();
    assert_eq!(args(&client.create_worktree(&path)), vec!["worktree", "add", "-d", "/tmp/revward-abc"]);
    assert_eq!(args(&client.delete_worktree(&path)), vec!["worktree", "remove", "/tmp/revward-abc"]);
}

#[test]
fn subcommands_have_their_names() {
    assert_eq!(Subcommand::Log.to_string(), "log");
    assert_eq!(Subcommand::Diff.to_string(), "diff");
    assert_eq!(Subcommand::Checkout.to_string(), "checkout");
    assert_eq!(Subcommand::Worktree.to_string(), "worktree");
}

#[test]
fn workspace_is_named_after_the_head() {
    assert_eq!(workspace_name("0123abcd"), "revward-0123abcd");
}
