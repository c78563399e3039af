//! The response validator: a strict sequential gate over what came back from
//! the completion endpoint. HTTP status first, then the shape of the body,
//! then the embedded error object (which takes precedence over any choices),
//! then the choice list, and finally normalization of the message text.

use vstd::prelude::*;
use vstd::string::StringExecFns;

use crate::errors::PipelineError;
use crate::request::ChatTurn;
use crate::text::normalize;
use crate::text::normalize_spec;

verus! {

/// The application-level error object a response may embed.
#[derive(Debug, PartialEq, Eq)]
pub struct ApiErrorInfo {
    pub message: String,
}

/// One choice of a completion response.
#[derive(Debug, PartialEq, Eq)]
pub struct Choice {
    pub message: ChatTurn,
}

/// The expected shape of a deserialized completion response.
#[derive(Debug, PartialEq, Eq)]
pub struct CompletionResult {
    pub choices: Vec<Choice>,
    pub error: Option<ApiErrorInfo>,
}

/// Everything the transport can hand back for one request. `body` is the raw
/// body text where it could be read; `parsed` is the body deserialized into
/// the expected shape where that succeeded.
#[derive(Debug, PartialEq, Eq)]
pub enum ApiReply {
    /// The request could not be sent at all.
    NoReply,
    /// An HTTP response arrived.
    Response { status: u16, body: Option<String>, parsed: Option<CompletionResult> },
}

/// The HTTP success range.
pub open spec fn status_ok(status: u16) -> bool {
    200 <= status < 300
}

/// The text reported for a non-success status: the body verbatim, or a
/// placeholder if it could not be read.
pub open spec fn failure_body_view(body: Option<String>) -> Seq<char> {
    match body {
        Some(b) => b@,
        None => "Unknown error"@,
    }
}

/// What validation returns for each possible reply, as a strict sequential
/// gate: transport failure, then HTTP status, then body shape, then the
/// embedded error object (regardless of any choices), then an empty choice
/// list, then an empty message after normalization; otherwise the first
/// choice's message text, normalized.
pub open spec fn validate_rel(reply: ApiReply, r: Result<String, PipelineError>) -> bool {
    match reply {
        ApiReply::NoReply => r == Result::<String, PipelineError>::Err(
            PipelineError::TransportError,
        ),
        ApiReply::Response { status, body, parsed } => {
            if !status_ok(status) {
                r matches Err(PipelineError::ApiRequestFailed { body: b }) && b@
                    == failure_body_view(body)
            } else {
                match parsed {
                    None => r == Result::<String, PipelineError>::Err(
                        PipelineError::MalformedResponse,
                    ),
                    Some(res) => match res.error {
                        Some(err) => r matches Err(PipelineError::ApiError { message }) && message@
                            == err.message@,
                        None => {
                            if res.choices@.len() == 0 {
                                r == Result::<String, PipelineError>::Err(PipelineError::NoChoices)
                            } else {
                                let norm = normalize_spec(res.choices@[0].message.content@);
                                if norm.len() == 0 {
                                    r == Result::<String, PipelineError>::Err(
                                        PipelineError::EmptyMessage,
                                    )
                                } else {
                                    r matches Ok(m) && m@ == norm
                                }
                            }
                        },
                    },
                }
            }
        },
    }
}

/// Validate one reply, exactly as [`validate_rel`] says: the first gate that
/// fails decides the error, and on success the result is the first choice's
/// message text, normalized and non-empty.
pub fn validate_reply(reply: ApiReply) -> (r: Result<String, PipelineError>)
    ensures
        validate_rel(reply, r),
{
    match reply {
        ApiReply::NoReply => Err(PipelineError::TransportError),
        ApiReply::Response { status, body, parsed } => {
            if !(200 <= status && status < 300) {
                let text = match body {
                    Some(b) => b,
                    None => "Unknown error".to_owned(),
                };
                Err(PipelineError::ApiRequestFailed { body: text })
            } else {
                match parsed {
                    None => Err(PipelineError::MalformedResponse),
                    Some(res) => {
                        let CompletionResult { mut choices, error } = res;
                        match error {
                            Some(err) => Err(PipelineError::ApiError { message: err.message }),
                            None => {
                                if choices.len() == 0 {
                                    Err(PipelineError::NoChoices)
                                } else {
                                    let first = choices.remove(0);
                                    let m = normalize(first.message.content.as_str());
                                    if m.as_str().is_empty() {
                                        Err(PipelineError::EmptyMessage)
                                    } else {
                                        Ok(m)
                                    }
                                }
                            },
                        }
                    },
                }
            }
        },
    }
}

} // verus!
