use revw::{Config, RevwError, Run, Setup, Step, Test};

fn strings(items: &[&str]) -> Vec<String> {
    items.iter().map(|s| s.to_string()).collect()
}

fn config() -> Config {
    Config {
        test: Test {
            pattern: "_spec.rb".to_string(),
            setup: Some(Setup {
                steps: vec![
                    Step { name: "install".to_string(), command: "yarn".to_string(), args: None },
                    Step {
                        name: "migrate".to_string(),
                        command: "rails".to_string(),
                        args: Some(strings(&["RAILS_ENV=test", "db:migrate"])),
                    },
                ],
            }),
            run: Some(Run { command: "bundle".to_string(), args: Some(strings(&["exec", "rspec"])) }),
        },
    }
}

#[test]
fn file_matches_configured_pattern() {
    let c = config();
    assert!(c.file_matches_pattern("spec/user_spec.rb"));
    assert!(!c.file_matches_pattern("app/models/user.rb"));
    assert!(!c.file_matches_pattern("spec/user_spec.py"));
}

#[test]
fn setup_steps_keep_order_names_and_arguments() {
    let steps = config().setup_environment();
    assert_eq!(steps.len(), 2);
    assert_eq!(steps[0].name, "install");
    assert_eq!(steps[0].command.program, "yarn");
    assert!(steps[0].command.args.is_empty());
    assert_eq!(steps[1].name, "migrate");
    assert_eq!(steps[1].command.program, "rails");
    assert_eq!(steps[1].command.args, strings(&["RAILS_ENV=test", "db:migrate"]));
}

#[test]
fn no_setup_means_no_steps() {
    let mut c = config();
    c.test.setup = None;
    assert!(c.setup_environment().is_empty());
}

#[test]
fn test_runner_gets_files_after_its_arguments() {
    let cmd = config().spawn_test_runner("/tmp/revward-abc", &strings(&["a_spec.rb", "b_spec.rb"])).unwrap();
    assert_eq!(cmd.program, "/tmp/revward-abc/bundle");
    assert_eq!(cmd.args, strings(&["exec", "rspec", "a_spec.rb", "b_spec.rb"]));
}

#[test]
fn test_runner_still_runs_with_no_files() {
    let mut c = config();
    c.test.run = Some(Run { command: "bin/test".to_string(), args: None });
    let cmd = c.spawn_test_runner("/w", &Vec::new()).unwrap();
    assert_eq!(cmd.program, "/w/bin/test");
    assert!(cmd.args.is_empty());
}

#[test]
fn missing_runner_is_a_config_error() {
    let mut c = config();
    c.test.run = None;
    assert!(matches!(c.spawn_test_runner("/w", &Vec::new()), Err(RevwError::MissingConfigKey)));
    assert!(matches!(c.validate_keys(true), Err(RevwError::MissingConfigKey)));
}

#[test]
fn runner_path_must_exist() {
    let c = config();
    assert!(matches!(c.validate_keys(false), Err(RevwError::InvalidPath)));
    assert!(c.validate_keys(true).is_ok());
}
