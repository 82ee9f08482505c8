//! The init flow: the order of the steps, short-circuiting on failure, and
//! the failure messages.

use bruno_cli::flow::{dir_failure_message, init_failure_message, is_terminal, next_step,
    spawn_failure_message, Step};

#[test]
fn flow_runs_the_steps_in_order_on_success() {
    let s0 = Step::CreateRoot;
    let s1 = next_step(s0, true);
    let s2 = next_step(s1, true);
    let s3 = next_step(s2, true);
    let s4 = next_step(s3, true);
    assert_eq!(s1, Step::RunInit);
    assert_eq!(s2, Step::WriteTemplates);
    assert_eq!(s3, Step::WriteManifest);
    assert_eq!(s4, Step::Done);
    assert!(is_terminal(s4));
}

#[test]
fn failed_external_init_blocks_all_writes() {
    let s1 = next_step(Step::CreateRoot, true);
    let mut s = next_step(s1, false);
    assert_eq!(s, Step::Failed);
    for ok in [true, false, true, true] {
        s = next_step(s, ok);
        assert_ne!(s, Step::WriteTemplates);
        assert_ne!(s, Step::WriteManifest);
        assert_ne!(s, Step::Done);
        assert_eq!(s, Step::Failed);
    }
}

#[test]
fn any_step_failure_is_terminal() {
    assert_eq!(next_step(Step::CreateRoot, false), Step::Failed);
    assert_eq!(next_step(Step::RunInit, false), Step::Failed);
    assert_eq!(next_step(Step::WriteTemplates, false), Step::Failed);
    assert_eq!(next_step(Step::WriteManifest, false), Step::Failed);
    assert!(is_terminal(Step::Failed));
}

#[test]
fn terminal_states_stay_put() {
    assert_eq!(next_step(Step::Done, true), Step::Done);
    assert_eq!(next_step(Step::Done, false), Step::Done);
    assert_eq!(next_step(Step::Failed, true), Step::Failed);
    assert_eq!(next_step(Step::Failed, false), Step::Failed);
}

#[test]
fn dir_failure_message_names_the_directory() {
    assert_eq!(dir_failure_message("demo"), "Failed to create project directory: demo");
}

#[test]
fn spawn_failure_message_names_the_external_command() {
    assert_eq!(spawn_failure_message(), "Failed to run 'cargo init'");
    assert!(spawn_failure_message().contains("cargo init"));
}

#[test]
fn init_failure_message_carries_captured_stderr() {
    let msg = init_failure_message("error: some cargo complaint");
    assert_eq!(msg, "Failed to initialize Cargo project: error: some cargo complaint");
    assert!(msg.contains("error: some cargo complaint"));
}
