use gai::errors::PipelineError;
use gai::pipeline::{
    commit_command_line, mode_of_flags, Event, GitDiffOutcome, Mode, Pipeline, Stage,
};
use gai::request::{ChatTurn, Role, Temperature};
use gai::response::{ApiErrorInfo, ApiReply, Choice, CompletionResult};

fn started(mode: Mode) -> Pipeline {
    Pipeline::new(mode, "gpt-4.1-nano".to_string(), Temperature { hundredths: 100 })
}

fn at_diff(mode: Mode) -> Pipeline {
    let p = started(mode);
    let p = p.step(Event::KeyLookup(Some("sk-test".to_string())));
    p.step(Event::RepoCheck(Some(true)))
}

fn good_reply(content: &str) -> ApiReply {
    ApiReply::Response {
        status: 200,
        body: None,
        parsed: Some(CompletionResult {
            choices: vec![Choice {
                message: ChatTurn { role: Role::Assistant, content: content.to_string() },
            }],
            error: None,
        }),
    }
}

#[test]
fn mode_selection_from_flags() {
    assert_eq!(mode_of_flags(false, false), Mode::Help);
    assert_eq!(mode_of_flags(true, false), Mode::Generate);
    assert_eq!(mode_of_flags(false, true), Mode::Commit);
    assert_eq!(mode_of_flags(true, true), Mode::Commit);
}

#[test]
fn help_mode_goes_straight_to_usage() {
    let p = started(Mode::Help);
    assert_eq!(p.stage, Stage::ShowUsage);
    assert!(p.is_terminal());
    assert_eq!(p.exit_code(), 0);
}

#[test]
fn missing_api_key_is_fatal() {
    let p = started(Mode::Generate);
    let p = p.step(Event::KeyLookup(None));
    assert_eq!(p.stage, Stage::Failed { error: PipelineError::MissingApiKey });
    assert!(p.is_terminal());
    assert_eq!(p.exit_code(), 1);
}

#[test]
fn git_unavailable_and_not_a_repository_are_fatal() {
    let p = started(Mode::Generate).step(Event::KeyLookup(Some("k".to_string())));
    let failed = p.step(Event::RepoCheck(None));
    assert_eq!(failed.stage, Stage::Failed { error: PipelineError::GitUnavailable });

    let p = started(Mode::Generate).step(Event::KeyLookup(Some("k".to_string())));
    let failed = p.step(Event::RepoCheck(Some(false)));
    assert_eq!(failed.stage, Stage::Failed { error: PipelineError::NotARepository });
}

#[test]
fn diff_command_failures_are_fatal() {
    let failed = at_diff(Mode::Generate).step(Event::DiffRead(GitDiffOutcome::CommandFailed));
    assert_eq!(failed.stage, Stage::Failed { error: PipelineError::DiffCommandFailed });

    let failed = at_diff(Mode::Generate).step(Event::DiffRead(GitDiffOutcome::NotUtf8));
    assert_eq!(failed.stage, Stage::Failed { error: PipelineError::DiffNotUtf8 });
}

#[test]
fn empty_diff_fails_before_any_request_is_built() {
    let p = at_diff(Mode::Commit);
    let p = p.step(Event::DiffRead(GitDiffOutcome::Output(String::new())));
    assert_eq!(p.stage, Stage::Failed { error: PipelineError::EmptyDiff });
    assert!(p.is_terminal());
    assert_eq!(p.exit_code(), 1);
    assert_eq!(
        PipelineError::EmptyDiff.describe(),
        "No staged changes found. Use 'git add' to stage your changes."
    );
}

#[test]
fn non_empty_diff_builds_the_request_to_send() {
    let p = at_diff(Mode::Generate);
    let p = p.step(Event::DiffRead(GitDiffOutcome::Output("+add foo()\n".to_string())));
    match &p.stage {
        Stage::AwaitingReply { request, api_key } => {
            assert_eq!(api_key.as_str(), "sk-test");
            assert_eq!(request.model.as_str(), "gpt-4.1-nano");
            assert_eq!(request.temperature, Temperature { hundredths: 100 });
            assert_eq!(request.turns.len(), 2);
            assert_eq!(request.turns[0].role, Role::System);
            assert_eq!(request.turns[1].role, Role::User);
            assert!(request.turns[1].content.contains("+add foo()\n"));
        }
        other => panic!("unexpected stage: {:?}", other),
    }
    assert!(!p.is_terminal());
}

#[test]
fn http_failure_is_fatal_even_in_commit_mode() {
    let p = at_diff(Mode::Commit);
    let p = p.step(Event::DiffRead(GitDiffOutcome::Output("+add foo()\n".to_string())));
    let reply = ApiReply::Response {
        status: 401,
        body: Some("{\"error\":{\"message\":\"invalid api key\"}}".to_string()),
        parsed: None,
    };
    let p = p.step(Event::Reply(reply));
    match &p.stage {
        Stage::Failed { error } => {
            assert!(error.describe().contains("invalid api key"));
            assert!(matches!(error, PipelineError::ApiRequestFailed { .. }));
        }
        other => panic!("unexpected stage: {:?}", other),
    }
    assert!(p.is_terminal());
    assert_eq!(p.exit_code(), 1);
}

#[test]
fn empty_choice_list_is_fatal_not_a_crash() {
    let p = at_diff(Mode::Generate);
    let p = p.step(Event::DiffRead(GitDiffOutcome::Output("+x\n".to_string())));
    let reply = ApiReply::Response {
        status: 200,
        body: Some("{\"choices\":[],\"error\":null}".to_string()),
        parsed: Some(CompletionResult { choices: vec![], error: None }),
    };
    let p = p.step(Event::Reply(reply));
    assert_eq!(p.stage, Stage::Failed { error: PipelineError::NoChoices });
}

#[test]
fn embedded_error_is_fatal_in_the_pipeline() {
    let p = at_diff(Mode::Generate);
    let p = p.step(Event::DiffRead(GitDiffOutcome::Output("+x\n".to_string())));
    let reply = ApiReply::Response {
        status: 200,
        body: None,
        parsed: Some(CompletionResult {
            choices: vec![],
            error: Some(ApiErrorInfo { message: "server overloaded".to_string() }),
        }),
    };
    let p = p.step(Event::Reply(reply));
    assert_eq!(
        p.stage,
        Stage::Failed { error: PipelineError::ApiError { message: "server overloaded".to_string() } }
    );
}

#[test]
fn generate_mode_prints_message_and_command_line() {
    let p = at_diff(Mode::Generate);
    let p = p.step(Event::DiffRead(GitDiffOutcome::Output("+add foo()\n".to_string())));
    let p = p.step(Event::Reply(good_reply("\"feat: add foo function\"")));
    match &p.stage {
        Stage::Succeeded { message } => {
            assert_eq!(message.as_str(), "feat: add foo function");
            assert_eq!(
                commit_command_line(message),
                "git commit -m \"feat: add foo function\""
            );
        }
        other => panic!("unexpected stage: {:?}", other),
    }
    assert!(p.is_terminal());
    assert_eq!(p.exit_code(), 0);
}

#[test]
fn commit_mode_commits_with_the_normalized_message() {
    let p = at_diff(Mode::Commit);
    let p = p.step(Event::DiffRead(GitDiffOutcome::Output("+add foo()\n".to_string())));
    let p = p.step(Event::Reply(good_reply("\"feat: add foo function\"")));
    match &p.stage {
        Stage::AwaitingCommit { message } => {
            assert_eq!(message.as_str(), "feat: add foo function");
        }
        other => panic!("unexpected stage: {:?}", other),
    }
    assert!(!p.is_terminal());
    let p = p.step(Event::CommitOutcome(None));
    assert_eq!(p.stage, Stage::Succeeded { message: "feat: add foo function".to_string() });
    assert_eq!(p.exit_code(), 0);
}

#[test]
fn commit_mode_reports_failure_when_the_tool_exits_non_zero() {
    let p = at_diff(Mode::Commit);
    let p = p.step(Event::DiffRead(GitDiffOutcome::Output("+add foo()\n".to_string())));
    let p = p.step(Event::Reply(good_reply("\"feat: add foo function\"")));
    let p = p.step(Event::CommitOutcome(Some("pre-commit hook failed".to_string())));
    assert_eq!(
        p.stage,
        Stage::Failed {
            error: PipelineError::CommitFailed { stderr: "pre-commit hook failed".to_string() }
        }
    );
    assert_eq!(p.exit_code(), 1);
    match &p.stage {
        Stage::Failed { error } => {
            assert_eq!(error.describe(), "Commit failed: pre-commit hook failed");
        }
        other => panic!("unexpected stage: {:?}", other),
    }
}

#[test]
fn transport_failure_is_fatal() {
    let p = at_diff(Mode::Generate);
    let p = p.step(Event::DiffRead(GitDiffOutcome::Output("+x\n".to_string())));
    let p = p.step(Event::Reply(ApiReply::NoReply));
    assert_eq!(p.stage, Stage::Failed { error: PipelineError::TransportError });
}
