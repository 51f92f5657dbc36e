use boi::child::{wait_result, Child, EnvChange, Error, WaitOutcome};
use boi::config::RepoConfig;

#[test]
fn waits() {
    assert_eq!(wait_result(WaitOutcome::Exited(Some(0))), Ok(()));
    assert_eq!(wait_result(WaitOutcome::Exited(Some(2))), Err(Error::ExitCode(2)));
    assert_eq!(wait_result(WaitOutcome::Exited(None)), Err(Error::Killed));
    assert_eq!(
        wait_result(WaitOutcome::Failed("boom".to_string())),
        Err(Error::Launch("boom".to_string()))
    );
}

#[test]
fn exit_codes_pass_through() {
    assert_eq!(Error::ExitCode(2).exit_code(), 2);
    assert_eq!(Error::ExitCode(-3).exit_code(), -3);
    assert_eq!(Error::Killed.exit_code(), 1);
    assert_eq!(Error::Launch("x".to_string()).exit_code(), 1);
}

#[test]
fn error_messages() {
    assert_eq!(Error::Launch("No such file".to_string()).describe(), "failed to launch child: No such file");
    assert_eq!(Error::ExitCode(2).describe(), "child exited with code 2");
    assert_eq!(Error::ExitCode(-1).describe(), "child exited with code -1");
    assert_eq!(Error::Killed.describe(), "child terminated abnormally");
    assert_eq!(
        Error::Killed.die_message(),
        "Something went wrong (child terminated abnormally); you might need do something about that."
    );
}

#[test]
fn command_lines() {
    let c = Child::from_cmdline(&["borg", "list", "--short"]);
    assert_eq!(c.program(), "borg");
    assert_eq!(c.args(), &vec!["list".to_string(), "--short".to_string()]);
    assert_eq!(c.render(), "borg list --short");
    assert!(!c.is_output_nulled());
    assert!(!c.is_input_nulled());
    let c = Child::from_cmdline(&["true"]);
    assert_eq!(c.render(), "true");
    assert!(c.args().is_empty());
}

#[test]
fn timezone_is_set_unless_nulled() {
    let repo = RepoConfig::new("ssh://h/r".to_string(), "cmd".to_string(), None);
    let c = Child::from_cmdline(&["borg", "prune"]).for_borg_repo(&repo);
    assert_eq!(
        c.env_changes("Europe/Paris"),
        vec![
            EnvChange::Assign("BORG_REPO".to_string(), "ssh://h/r".to_string()),
            EnvChange::Assign("BORG_PASSCOMMAND".to_string(), "cmd".to_string()),
            EnvChange::Assign("TZ".to_string(), "Europe/Paris".to_string()),
        ]
    );
    let c = Child::from_cmdline(&["tmutil", "localsnapshot"]).null_timezone();
    assert_eq!(c.env_changes("UTC"), vec![EnvChange::Remove("TZ".to_string())]);
}

#[test]
fn null_streams() {
    let c = Child::from_cmdline(&["x"]).null_output();
    assert!(c.is_output_nulled() && !c.is_input_nulled());
    let c = Child::from_cmdline(&["x"]).null_input();
    assert!(!c.is_output_nulled() && c.is_input_nulled());
}
