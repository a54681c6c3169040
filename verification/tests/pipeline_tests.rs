use hookdeploy::git::{evaluate_launch, CommandOutput, GitRepositoryError};
use hookdeploy::hook::HookConfig;
use hookdeploy::log::SimpleLog;
use hookdeploy::pipeline::{handle_command_result, HookPipeline, Stage};

fn hook() -> HookConfig {
    HookConfig {
        name: String::from("a"),
        repo_name: String::from("org/repo"),
        hook_route: String::from("/hook"),
        repository_directory: String::from("/srv/checkout"),
        script: String::from("./deploy.sh"),
        branch: String::from("main"),
        secret: None,
    }
}

fn ok_output() -> CommandOutput {
    CommandOutput { code: Some(0), stdout: String::new(), stderr: String::new() }
}

fn failing_output(code: i32) -> CommandOutput {
    CommandOutput {
        code: Some(code),
        stdout: String::from("out line"),
        stderr: String::from("err line"),
    }
}

#[test]
fn evaluate_launch_classifies_outcomes() {
    assert!(matches!(evaluate_launch(Ok(ok_output())), Ok(_)));
    assert!(matches!(
        evaluate_launch(Ok(failing_output(2))),
        Err(GitRepositoryError::CommandFailed(_))
    ));
    assert!(matches!(
        evaluate_launch(Err(String::from("no such file"))),
        Err(GitRepositoryError::CommandError(_))
    ));
    let signal = CommandOutput { code: None, stdout: String::new(), stderr: String::new() };
    assert!(matches!(
        evaluate_launch(Ok(signal)),
        Err(GitRepositoryError::CommandFailed(_))
    ));
}

#[test]
fn format_marks_empty_streams() {
    let s = ok_output().format("stage one");
    assert_eq!(
        s,
        "\n--------\nstage one\n--------\n++ status = 0\n++ stdout [empty]\n++ stderr [empty]\n"
    );
}

#[test]
fn format_preserves_multi_line_content_verbatim() {
    let out = CommandOutput {
        code: Some(1),
        stdout: String::from("first\nsecond\nthird"),
        stderr: String::new(),
    };
    let s = out.format("st");
    assert_eq!(
        s,
        "\n--------\nst\n--------\n++ status = 1\n++ stdout\nfirst\nsecond\nthird\n++ stderr [empty]\n"
    );
}

#[test]
fn format_renders_negative_and_missing_codes() {
    let out = CommandOutput { code: Some(-17), stdout: String::new(), stderr: String::new() };
    assert!(out.format("s").contains("++ status = -17\n"));
    let out = CommandOutput { code: None, stdout: String::new(), stderr: String::new() };
    assert!(out.format("s").contains("++ status = signal\n"));
}

#[test]
fn log_entry_marks_first_and_continuation_lines() {
    let mut log = SimpleLog::default();
    log.add_entry_with_timestamp("T0", "INFO", "a\nb\nc");
    assert_eq!(log.content(), "T0: INFO:+:a\nT0: INFO:|:b\nT0: INFO:|:c\n");
}

#[test]
fn log_entry_of_empty_text_adds_nothing() {
    let mut log = SimpleLog::default();
    log.add_entry_with_timestamp("T0", "ERROR", "");
    assert_eq!(log.content(), "");
}

#[test]
fn log_entry_strips_carriage_return_before_newline() {
    let mut log = SimpleLog::default();
    log.add_entry_with_timestamp("T0", "INFO", "a\r\nb");
    assert_eq!(log.content(), "T0: INFO:+:a\nT0: INFO:|:b\n");
}

#[test]
fn log_info_and_error_carry_severities() {
    let mut log = SimpleLog::default();
    log.info("fine");
    log.error("broken");
    let content = log.content();
    assert!(content.contains(": INFO:+:fine\n"));
    assert!(content.contains(": ERROR:+:broken\n"));
    assert_eq!(content.lines().count(), 2);
}

#[test]
fn handle_command_result_logs_success_and_passes_it_on() {
    let mut log = SimpleLog::default();
    let r = handle_command_result(Ok(ok_output()), "st", &mut log);
    assert!(r.is_ok());
    assert!(log.content().contains("++ status = 0\n"));
}

#[test]
fn handle_command_result_logs_failure_and_returns_it() {
    let mut log = SimpleLog::default();
    let r = handle_command_result(
        Err(GitRepositoryError::CommandError(String::from("spawn failed"))),
        "st",
        &mut log,
    );
    assert!(matches!(r, Err(GitRepositoryError::CommandError(_))));
    assert!(log.content().contains("error = spawn failed"));
    assert!(log.content().contains("ERROR"));
}

#[test]
fn pipeline_runs_the_fixed_stage_sequence() {
    let mut p = HookPipeline::new(&hook());
    let c = p.next_command().unwrap();
    assert_eq!(c.program, "git");
    assert_eq!(c.args, vec!["fetch", "origin"]);
    assert_eq!(c.cwd, "/srv/checkout");
    assert_eq!(c.stage, "fetching latest changes");
    p.advance(Ok(ok_output()));

    let c = p.next_command().unwrap();
    assert_eq!(c.args, vec!["checkout", "main"]);
    assert_eq!(c.stage, "checking out main branch");
    p.advance(Ok(ok_output()));

    let c = p.next_command().unwrap();
    assert_eq!(c.args, vec!["rebase", "origin/main"]);
    assert_eq!(c.stage, "rebasing onto latest changes");
    p.advance(Ok(ok_output()));

    let c = p.next_command().unwrap();
    assert_eq!(c.program, "./deploy.sh");
    assert!(c.args.is_empty());
    assert_eq!(c.stage, "running hook");
    p.advance(Ok(ok_output()));

    assert!(p.is_finished());
    assert!(!p.failed());
    assert!(p.next_command().is_none());
    let content = p.log().content();
    assert_eq!(content.matches("--------").count(), 8);
    assert!(content.contains("running hook"));
}

#[test]
fn scenario_rebase_failure_skips_the_script_stage() {
    let mut p = HookPipeline::new(&hook());
    p.advance(Ok(ok_output()));
    p.advance(Ok(ok_output()));
    assert_eq!(p.stage(), Stage::Rebase);
    p.advance(Ok(failing_output(1)));

    assert!(p.is_finished());
    assert!(p.failed());
    assert!(p.next_command().is_none());
    let content = p.log().content();
    // Exactly three stages were logged: fetch, checkout, rebase.
    assert_eq!(content.matches("--------").count(), 6);
    assert!(content.contains("fetching latest changes"));
    assert!(content.contains("checking out main branch"));
    assert!(content.contains("rebasing onto latest changes"));
    assert!(!content.contains("running hook"));
    // The rebase block is the failed one.
    assert!(content.contains("++ status = 1\n"));
    assert!(content.contains("ERROR"));
}

#[test]
fn launch_failure_aborts_at_the_first_stage() {
    let mut p = HookPipeline::new(&hook());
    p.advance(Err(String::from("git not found")));
    assert!(p.failed());
    assert!(p.next_command().is_none());
    assert!(p.log().content().contains("error = git not found"));
}
