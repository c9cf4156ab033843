use revw::{get_flag, handle_arg, parse_args, Cli, Notice, RevwError};

fn strings(items: &[&str]) -> Vec<String> {
    items.iter().map(|s| s.to_string()).collect()
}

#[test]
fn defaults_to_main() {
    assert_eq!(Cli::new().sha, "main");
    let (cli, notice) = parse_args(&Vec::new());
    assert_eq!(cli.sha, "main");
    assert!(notice.is_none());
}

#[test]
fn sha_flag_sets_root() {
    let (cli, notice) = parse_args(&strings(&["--sha", "abc123"]));
    assert_eq!(cli.sha, "abc123");
    assert!(notice.is_none());
}

#[test]
fn unknown_flag_is_reported() {
    let (cli, notice) = parse_args(&strings(&["--from", "abc123"]));
    assert_eq!(cli.sha, "main");
    assert!(matches!(notice, Some(Notice::Unknown(ref a)) if a == "--from"));
}

#[test]
fn single_arguments() {
    assert!(matches!(handle_arg("help"), Notice::Help));
    assert!(matches!(handle_arg("--help"), Notice::Help));
    assert!(matches!(handle_arg("-h"), Notice::Help));
    assert!(matches!(handle_arg("-v"), Notice::Version));
    assert!(matches!(handle_arg("--version"), Notice::Version));
    assert!(matches!(handle_arg("--sha"), Notice::MissingSha));
    assert!(matches!(handle_arg("go"), Notice::Unknown(ref a) if a == "go"));
    let (cli, notice) = parse_args(&strings(&["-v"]));
    assert_eq!(cli.sha, "main");
    assert!(matches!(notice, Some(Notice::Version)));
}

#[test]
fn too_many_arguments_show_help() {
    let (cli, notice) = parse_args(&strings(&["--sha", "a", "b"]));
    assert_eq!(cli.sha, "main");
    assert!(matches!(notice, Some(Notice::Help)));
}

#[test]
fn get_flag_only_knows_sha() {
    assert_eq!(get_flag("--sha", "x"), Some("x".to_string()));
    assert_eq!(get_flag("--shaa", "x"), None);
}

#[test]
fn notice_texts() {
    assert_eq!(Notice::Version.text("1.2.3"), "revward version 1.2.3");
    assert_eq!(Notice::MissingSha.text("1"), "Error: provide <sha>.");
    assert_eq!(
        Notice::Unknown("go".to_string()).text("1"),
        "\nrevward: go is not a revward command. See 'revward --help'.\n    "
    );
    assert!(Notice::Help.text("1").contains("--sha <sha>"));
}

#[test]
fn error_messages() {
    assert_eq!(RevwError::NotEnoughCommits.message(), "Not enough commits");
    assert_eq!(RevwError::MissingConfigKey.message(), "Missing config key");
    assert_eq!(RevwError::InvalidPath.message(), "Config value referenced invalid path");
    assert_eq!(RevwError::Git("bad ref".to_string()).message(), "Git error: bad ref");
    assert_eq!(RevwError::UnhandledIO("denied".to_string()).message(), "Unhandled IO error: denied");
    assert_eq!(RevwError::Deserialization("line 2".to_string()).message(), "Config error: line 2");
    assert_eq!(RevwError::CtrlCError("twice".to_string()).message(), "Ctrlc error: twice");
}
