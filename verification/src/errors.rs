//! The failure taxonomy of the pipeline, with the exact text each failure is
//! reported with.

use vstd::prelude::*;
use vstd::string::StringExecFns;

use crate::text::contains_seq;
use crate::text::lemma_contains_in_extension;

verus! {

/// Every way a run of the pipeline can fail, from the missing credential to a
/// failed commit invocation. The variants that carry text carry it verbatim
/// from the collaborator that produced it (the HTTP response body, the
/// application-level error message, the commit tool's standard error).
#[derive(Debug, PartialEq, Eq)]
pub enum PipelineError {
    /// The API key was not present in the environment.
    MissingApiKey,
    /// The version-control tool could not be invoked for the repository check.
    GitUnavailable,
    /// The working directory is not inside a repository.
    NotARepository,
    /// The version-control tool could not be invoked for the staged diff.
    DiffCommandFailed,
    /// The staged diff was not valid UTF-8 text.
    DiffNotUtf8,
    /// The staged diff is empty: there is nothing to describe.
    EmptyDiff,
    /// The HTTP request could not be sent at all.
    TransportError,
    /// The HTTP status was outside the success range; `body` is the raw
    /// response body text, or a placeholder if it could not be read.
    ApiRequestFailed { body: String },
    /// The response body did not deserialize into the expected shape.
    MalformedResponse,
    /// The response carried an application-level error object.
    ApiError { message: String },
    /// The response was well-formed but its choice list was empty.
    NoChoices,
    /// The returned message text was empty after normalization.
    EmptyMessage,
    /// The commit invocation exited non-zero; `stderr` is its standard error.
    CommitFailed { stderr: String },
}

/// The text a failure is reported with.
pub open spec fn spec_describe(e: PipelineError) -> Seq<char> {
    match e {
        PipelineError::MissingApiKey => "OPENAI_API_KEY not found. Please set it in your .env file or environment variables."@,
        PipelineError::GitUnavailable => "Failed to execute git command. Is git installed?"@,
        PipelineError::NotARepository => "Not inside a git repository"@,
        PipelineError::DiffCommandFailed => "Failed to execute git diff command"@,
        PipelineError::DiffNotUtf8 => "Failed to parse git diff output as UTF-8"@,
        PipelineError::EmptyDiff => "No staged changes found. Use 'git add' to stage your changes."@,
        PipelineError::TransportError => "Failed to send request to OpenAI API"@,
        PipelineError::ApiRequestFailed { body } => "API request failed: "@ + body@,
        PipelineError::MalformedResponse => "Failed to parse OpenAI API response"@,
        PipelineError::ApiError { message } => "OpenAI API error: "@ + message@,
        PipelineError::NoChoices => "No choices in response"@,
        PipelineError::EmptyMessage => "Empty commit message in response"@,
        PipelineError::CommitFailed { stderr } => "Commit failed: "@ + stderr@,
    }
}

impl PipelineError {
    /// The text this failure is reported with, exactly [`spec_describe`].
    pub fn describe(&self) -> (r: String)
        ensures
            r@ == spec_describe(*self),
    {
        match self {
            PipelineError::MissingApiKey => "OPENAI_API_KEY not found. Please set it in your .env file or environment variables.".to_owned(),
            PipelineError::GitUnavailable => "Failed to execute git command. Is git installed?".to_owned(),
            PipelineError::NotARepository => "Not inside a git repository".to_owned(),
            PipelineError::DiffCommandFailed => "Failed to execute git diff command".to_owned(),
            PipelineError::DiffNotUtf8 => "Failed to parse git diff output as UTF-8".to_owned(),
            PipelineError::EmptyDiff => "No staged changes found. Use 'git add' to stage your changes.".to_owned(),
            PipelineError::TransportError => "Failed to send request to OpenAI API".to_owned(),
            PipelineError::ApiRequestFailed { body } => "API request failed: ".to_owned().concat(
                body.as_str(),
            ),
            PipelineError::MalformedResponse => "Failed to parse OpenAI API response".to_owned(),
            PipelineError::ApiError { message } => "OpenAI API error: ".to_owned().concat(
                message.as_str(),
            ),
            PipelineError::NoChoices => "No choices in response".to_owned(),
            PipelineError::EmptyMessage => "Empty commit message in response".to_owned(),
            PipelineError::CommitFailed { stderr } => "Commit failed: ".to_owned().concat(
                stderr.as_str(),
            ),
        }
    }
}

/// Law: the description of an HTTP-status failure carries the response body
/// verbatim, so whatever the body contains, the reported text contains too.
pub proof fn lemma_api_request_failed_reports_body(e: PipelineError, needle: Seq<char>)
    requires
        e matches PipelineError::ApiRequestFailed { body } && contains_seq(body@, needle),
    ensures
        contains_seq(spec_describe(e), needle),
{
    match e {
        PipelineError::ApiRequestFailed { body } => {
            lemma_contains_in_extension("API request failed: "@, body@, needle);
        },
        _ => {
        },
    }
}

} // verus!
