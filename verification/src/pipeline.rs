//! The orchestrator, as a state machine. Each stage names the one outside
//! action the caller must perform next (look up the credential, check the
//! repository, read the staged diff, send the HTTP request, apply the commit);
//! the caller hands the outcome back as an [`Event`] and [`Pipeline::step`]
//! decides the next stage. Every decision of the tool lives here; the caller
//! only performs the actions.

use vstd::pervasive::unreached;
use vstd::prelude::*;

use crate::errors::PipelineError;
use crate::errors::lemma_api_request_failed_reports_body;
use crate::errors::spec_describe;
use crate::request::CompletionRequest;
use crate::request::Temperature;
use crate::request::build_request;
use crate::request::built_request;
use crate::response::ApiReply;
use crate::response::status_ok;
use crate::response::validate_reply;
use crate::text::contains_seq;
use crate::text::normalize_spec;
use vstd::string::StringExecFns;

verus! {

/// What the tool was asked to do.
#[derive(Clone, Copy, Debug, PartialEq, Eq, Structural)]
pub enum Mode {
    /// No flag given: show usage guidance and exit successfully.
    Help,
    /// Generate a commit message and print it.
    Generate,
    /// Generate a commit message and commit with it.
    Commit,
}

/// The mode selected by the two boolean flags: committing wins over
/// generating, and neither flag means help.
pub open spec fn mode_of_flags_spec(generate: bool, commit: bool) -> Mode {
    if commit {
        Mode::Commit
    } else if generate {
        Mode::Generate
    } else {
        Mode::Help
    }
}

/// Select the mode from the two flags, exactly [`mode_of_flags_spec`].
pub fn mode_of_flags(generate: bool, commit: bool) -> (m: Mode)
    ensures
        m == mode_of_flags_spec(generate, commit),
{
    if commit {
        Mode::Commit
    } else if generate {
        Mode::Generate
    } else {
        Mode::Help
    }
}

/// What reading the staged diff produced.
#[derive(Debug, PartialEq, Eq)]
pub enum GitDiffOutcome {
    /// The version-control tool could not be invoked.
    CommandFailed,
    /// Its output was not valid UTF-8 text.
    NotUtf8,
    /// The diff text, possibly empty.
    Output(String),
}

/// The outcome of the one outside action a waiting stage asked for.
#[derive(Debug, PartialEq, Eq)]
pub enum Event {
    /// The credential lookup: the key, if the environment held one.
    KeyLookup(Option<String>),
    /// The repository check: whether the directory is inside a repository, or
    /// nothing if the tool could not be invoked.
    RepoCheck(Option<bool>),
    /// Reading the staged diff.
    DiffRead(GitDiffOutcome),
    /// The HTTP round trip.
    Reply(ApiReply),
    /// Applying the commit: nothing on success, the tool's standard error on
    /// a non-zero exit.
    CommitOutcome(Option<String>),
}

/// Where the pipeline stands: either waiting for the outcome of one outside
/// action, or finished.
#[derive(Debug, PartialEq, Eq)]
pub enum Stage {
    /// Waiting for the credential lookup.
    AwaitingKey,
    /// Waiting for the repository check.
    AwaitingRepoCheck { api_key: String },
    /// Waiting for the staged diff.
    AwaitingDiff { api_key: String },
    /// Waiting for the HTTP round trip of `request`.
    AwaitingReply { request: CompletionRequest, api_key: String },
    /// Waiting for the commit of `message` to be applied.
    AwaitingCommit { message: String },
    /// Terminal: show usage guidance.
    ShowUsage,
    /// Terminal: a validated, non-empty commit message, committed in commit
    /// mode.
    Succeeded { message: String },
    /// Terminal: the first failure, surfaced verbatim.
    Failed { error: PipelineError },
}

/// The terminal stages: nothing further happens in them.
pub open spec fn stage_is_terminal(stage: Stage) -> bool {
    match stage {
        Stage::ShowUsage => true,
        Stage::Succeeded { .. } => true,
        Stage::Failed { .. } => true,
        _ => false,
    }
}

/// The one stage whose action is the HTTP request.
pub open spec fn stage_requests_send(stage: Stage) -> bool {
    stage matches Stage::AwaitingReply { .. }
}

/// The one stage whose action is the commit invocation.
pub open spec fn stage_requests_commit(stage: Stage) -> bool {
    stage matches Stage::AwaitingCommit { .. }
}

/// Whether `event` reports the action that `stage` is waiting for.
pub open spec fn event_expected(stage: Stage, event: Event) -> bool {
    match (stage, event) {
        (Stage::AwaitingKey, Event::KeyLookup(_)) => true,
        (Stage::AwaitingRepoCheck { .. }, Event::RepoCheck(_)) => true,
        (Stage::AwaitingDiff { .. }, Event::DiffRead(_)) => true,
        (Stage::AwaitingReply { .. }, Event::Reply(_)) => true,
        (Stage::AwaitingCommit { .. }, Event::CommitOutcome(_)) => true,
        _ => false,
    }
}

/// One run of the tool: the selected mode and request parameters, and the
/// stage the run currently stands in.
#[derive(Debug, PartialEq, Eq)]
pub struct Pipeline {
    pub mode: Mode,
    pub model: String,
    pub temperature: Temperature,
    pub stage: Stage,
}

/// The stage a run starts in: help mode goes straight to usage, the two
/// generating modes first need the credential.
pub open spec fn initial_stage_spec(mode: Mode) -> Stage {
    if mode is Help {
        Stage::ShowUsage
    } else {
        Stage::AwaitingKey
    }
}

/// What the stage after a reply is, given the mode: the first failing gate of
/// the validator decides the error; a validated message goes on to the commit
/// stage in commit mode and is final otherwise.
pub open spec fn reply_step(mode: Mode, reply: ApiReply, post: Stage) -> bool {
    match reply {
        ApiReply::NoReply => post == (Stage::Failed { error: PipelineError::TransportError }),
        ApiReply::Response { status, body, parsed } => {
            if !status_ok(status) {
                post matches Stage::Failed {
                    error: PipelineError::ApiRequestFailed { body: b },
                } && b@ == crate::response::failure_body_view(body)
            } else {
                match parsed {
                    None => post == (Stage::Failed { error: PipelineError::MalformedResponse }),
                    Some(res) => match res.error {
                        Some(err) => post matches Stage::Failed {
                            error: PipelineError::ApiError { message },
                        } && message@ == err.message@,
                        None => {
                            if res.choices@.len() == 0 {
                                post == (Stage::Failed { error: PipelineError::NoChoices })
                            } else {
                                let norm = normalize_spec(res.choices@[0].message.content@);
                                if norm.len() == 0 {
                                    post == (Stage::Failed { error: PipelineError::EmptyMessage })
                                } else if mode is Commit {
                                    post matches Stage::AwaitingCommit { message } && message@
                                        == norm
                                } else {
                                    post matches Stage::Succeeded { message } && message@ == norm
                                }
                            }
                        },
                    },
                }
            }
        },
    }
}

/// How the stage changes for each expected stage/event pair.
pub open spec fn stage_step(pre: Pipeline, event: Event, post: Stage) -> bool {
    match (pre.stage, event) {
        (Stage::AwaitingKey, Event::KeyLookup(k)) => match k {
            Some(key) => post == (Stage::AwaitingRepoCheck { api_key: key }),
            None => post == (Stage::Failed { error: PipelineError::MissingApiKey }),
        },
        (Stage::AwaitingRepoCheck { api_key }, Event::RepoCheck(res)) => match res {
            Some(true) => post == (Stage::AwaitingDiff { api_key }),
            Some(false) => post == (Stage::Failed { error: PipelineError::NotARepository }),
            None => post == (Stage::Failed { error: PipelineError::GitUnavailable }),
        },
        (Stage::AwaitingDiff { api_key }, Event::DiffRead(outcome)) => match outcome {
            GitDiffOutcome::CommandFailed => post == (
            Stage::Failed { error: PipelineError::DiffCommandFailed }),
            GitDiffOutcome::NotUtf8 => post == (
            Stage::Failed { error: PipelineError::DiffNotUtf8 }),
            GitDiffOutcome::Output(diff) => {
                if diff@.len() == 0 {
                    post == (Stage::Failed { error: PipelineError::EmptyDiff })
                } else {
                    post matches Stage::AwaitingReply { request, api_key: k } && built_request(
                        request,
                        pre.model@,
                        pre.temperature,
                        diff@,
                    ) && k == api_key
                }
            },
        },
        (Stage::AwaitingReply { .. }, Event::Reply(reply)) => reply_step(pre.mode, reply, post),
        (Stage::AwaitingCommit { message }, Event::CommitOutcome(out)) => match out {
            None => post == (Stage::Succeeded { message }),
            Some(stderr) => post == (
            Stage::Failed { error: PipelineError::CommitFailed { stderr } }),
        },
        _ => false,
    }
}

/// The full step relation: mode and request parameters never change, and the
/// stage changes as [`stage_step`] says.
pub open spec fn step_rel(pre: Pipeline, event: Event, next: Pipeline) -> bool {
    &&& next.mode == pre.mode
    &&& next.model == pre.model
    &&& next.temperature == pre.temperature
    &&& stage_step(pre, event, next.stage)
}

impl Pipeline {
    /// The stage invariant: a request waiting to be sent is well-formed, and a
    /// message that reached the commit stage or success is non-empty.
    pub open spec fn stage_wf(stage: Stage) -> bool {
        match stage {
            Stage::AwaitingReply { request, .. } => request.wf(),
            Stage::AwaitingCommit { message } => message@.len() > 0,
            Stage::Succeeded { message } => message@.len() > 0,
            _ => true,
        }
    }

    /// The run invariant: the temperature is in its documented range and the
    /// stage invariant holds.
    pub open spec fn wf(self) -> bool {
        &&& self.temperature.wf()
        &&& Self::stage_wf(self.stage)
    }

    /// Start a run in the given mode with the given request parameters.
    pub fn new(mode: Mode, model: String, temperature: Temperature) -> (p: Pipeline)
        requires
            temperature.wf(),
        ensures
            p.wf(),
            p.mode == mode,
            p.model == model,
            p.temperature == temperature,
            p.stage == initial_stage_spec(mode),
    {
        let stage = match mode {
            Mode::Help => Stage::ShowUsage,
            _ => Stage::AwaitingKey,
        };
        Pipeline { mode, model, temperature, stage }
    }

    /// Whether the run is finished.
    pub fn is_terminal(&self) -> (b: bool)
        ensures
            b == stage_is_terminal(self.stage),
    {
        match self.stage {
            Stage::ShowUsage => true,
            Stage::Succeeded { .. } => true,
            Stage::Failed { .. } => true,
            _ => false,
        }
    }

    /// The process exit status of a finished run: non-zero exactly on failure.
    pub fn exit_code(&self) -> (c: i32)
        ensures
            (c == 0) <==> !(self.stage matches Stage::Failed { .. }),
    {
        match self.stage {
            Stage::Failed { .. } => 1,
            _ => 0,
        }
    }

    /// Advance the run by the outcome of the action its stage was waiting
    /// for. The stage changes exactly as [`step_rel`] says; mode, model and
    /// temperature never change.
    pub fn step(self, event: Event) -> (next: Pipeline)
        requires
            self.wf(),
            event_expected(self.stage, event),
        ensures
            next.wf(),
            step_rel(self, event, next),
    {
        let Pipeline { mode, model, temperature, stage } = self;
        match (stage, event) {
            (Stage::AwaitingKey, Event::KeyLookup(k)) => {
                let stage = match k {
                    Some(key) => Stage::AwaitingRepoCheck { api_key: key },
                    None => Stage::Failed { error: PipelineError::MissingApiKey },
                };
                Pipeline { mode, model, temperature, stage }
            },
            (Stage::AwaitingRepoCheck { api_key }, Event::RepoCheck(res)) => {
                let stage = match res {
                    Some(true) => Stage::AwaitingDiff { api_key },
                    Some(false) => Stage::Failed { error: PipelineError::NotARepository },
                    None => Stage::Failed { error: PipelineError::GitUnavailable },
                };
                Pipeline { mode, model, temperature, stage }
            },
            (Stage::AwaitingDiff { api_key }, Event::DiffRead(outcome)) => {
                let stage = match outcome {
                    GitDiffOutcome::CommandFailed => Stage::Failed {
                        error: PipelineError::DiffCommandFailed,
                    },
                    GitDiffOutcome::NotUtf8 => Stage::Failed { error: PipelineError::DiffNotUtf8 },
                    GitDiffOutcome::Output(diff) => {
                        if diff.as_str().is_empty() {
                            Stage::Failed { error: PipelineError::EmptyDiff }
                        } else {
                            let request = build_request(model.as_str(), temperature, diff.as_str());
                            Stage::AwaitingReply { request, api_key }
                        }
                    },
                };
                Pipeline { mode, model, temperature, stage }
            },
            (Stage::AwaitingReply { request: _, api_key: _ }, Event::Reply(reply)) => {
                let stage = match validate_reply(reply) {
                    Ok(message) => match mode {
                        Mode::Commit => Stage::AwaitingCommit { message },
                        _ => Stage::Succeeded { message },
                    },
                    Err(error) => Stage::Failed { error },
                };
                Pipeline { mode, model, temperature, stage }
            },
            (Stage::AwaitingCommit { message }, Event::CommitOutcome(out)) => {
                let stage = match out {
                    None => Stage::Succeeded { message },
                    Some(stderr) => Stage::Failed {
                        error: PipelineError::CommitFailed { stderr },
                    },
                };
                Pipeline { mode, model, temperature, stage }
            },
            _ => unreached(),
        }
    }
}

/// The ready-to-use command string printed beside a generated message.
pub open spec fn commit_command_spec(message: Seq<char>) -> Seq<char> {
    "git commit -m \""@ + message + "\""@
}

/// The ready-to-use command string for `message`, exactly
/// [`commit_command_spec`].
pub fn commit_command_line(message: &str) -> (r: String)
    ensures
        r@ == commit_command_spec(message@),
{
    let head = "git commit -m \"".to_owned().concat(message);
    head.concat("\"")
}

/// Law: a terminal stage accepts no further event; once a run has shown
/// usage, succeeded or failed, no step is possible.
pub proof fn lemma_terminal_absorbs(stage: Stage, event: Event)
    requires
        stage_is_terminal(stage),
    ensures
        !event_expected(stage, event),
{
}

/// Law: an empty staged diff fails the run with the empty-diff error while it
/// is still waiting for the diff. The run never reaches the stage that sends
/// the HTTP request, and accepts no further event.
pub proof fn lemma_empty_diff_fails_before_send(pre: Pipeline, event: Event, next: Pipeline)
    requires
        pre.stage matches Stage::AwaitingDiff { .. },
        event matches Event::DiffRead(GitDiffOutcome::Output(diff)) && diff@.len() == 0,
        step_rel(pre, event, next),
    ensures
        next.stage == (Stage::Failed { error: PipelineError::EmptyDiff }),
        !stage_requests_send(next.stage),
        stage_is_terminal(next.stage),
        forall|e: Event| !event_expected(next.stage, e),
{
}

/// Law: a non-success HTTP status fails the run with an error whose reported
/// text carries the response body verbatim, so it contains whatever the body
/// contains; the run is terminal, and in particular never requests a commit,
/// whatever the mode.
pub proof fn lemma_http_failure_is_fatal(
    pre: Pipeline,
    event: Event,
    next: Pipeline,
    needle: Seq<char>,
)
    requires
        pre.stage matches Stage::AwaitingReply { .. },
        event matches Event::Reply(ApiReply::Response { status, body: Some(b), parsed })
            && !status_ok(status) && contains_seq(b@, needle),
        step_rel(pre, event, next),
    ensures
        next.stage matches Stage::Failed { error } && error matches PipelineError::ApiRequestFailed {
            ..
        } && contains_seq(spec_describe(error), needle),
        stage_is_terminal(next.stage),
        !stage_requests_commit(next.stage),
        forall|e: Event| !event_expected(next.stage, e),
{
    match next.stage {
        Stage::Failed { error } => {
            lemma_api_request_failed_reports_body(error, needle);
        },
        _ => {
        },
    }
}

/// Law: a well-formed success response whose choice list is empty fails the
/// run with the no-choices error, and the run is terminal.
pub proof fn lemma_empty_choices_fail(pre: Pipeline, event: Event, next: Pipeline)
    requires
        pre.stage matches Stage::AwaitingReply { .. },
        event matches Event::Reply(ApiReply::Response { status, body, parsed: Some(res) })
            && status_ok(status) && res.error is None && res.choices@.len() == 0,
        step_rel(pre, event, next),
    ensures
        next.stage == (Stage::Failed { error: PipelineError::NoChoices }),
        stage_is_terminal(next.stage),
        forall|e: Event| !event_expected(next.stage, e),
{
}

/// Law: from the commit stage, the run succeeds exactly when the external
/// commit call exited zero, the committed message is reported unchanged, and
/// a non-zero exit surfaces the tool's standard error verbatim.
pub proof fn lemma_commit_reports_tool_outcome(pre: Pipeline, event: Event, next: Pipeline)
    requires
        pre.stage matches Stage::AwaitingCommit { .. },
        event matches Event::CommitOutcome(_),
        step_rel(pre, event, next),
    ensures
        (next.stage matches Stage::Succeeded { .. }) <==> event == Event::CommitOutcome(
            None,
        ),
        (pre.stage, event) matches (Stage::AwaitingCommit { message }, Event::CommitOutcome(None))
            ==> next.stage == (Stage::Succeeded { message }),
        event matches Event::CommitOutcome(Some(stderr)) ==> next.stage == (
        Stage::Failed { error: PipelineError::CommitFailed { stderr } }),
        stage_is_terminal(next.stage),
{
}

} // verus!
