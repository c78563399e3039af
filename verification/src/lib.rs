//! Library behind a command-line tool that turns the staged diff of a
//! version-control working tree into a conventional commit message by asking a
//! remote language-model completion endpoint.
//!
//! The verified core is the request-orchestration and response-validation
//! pipeline: building a chat-style completion request around the diff,
//! deciding how every reply (transport failure, non-success status, malformed
//! body, embedded error object, empty choice list) is classified, and
//! normalizing the returned text into a usable commit message. The calls that
//! touch the outside world (spawning the version-control tool, the HTTP round
//! trip, environment lookup) stay with the binary around this library, which
//! drives the pipeline state machine and performs the action each stage asks
//! for.

pub mod errors;
pub mod pipeline;
pub mod request;
pub mod response;
pub mod text;
