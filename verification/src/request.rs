//! The request builder: a chat-style completion request is a fixed system turn
//! (the conventional-commit instructions) followed by one user turn embedding
//! the staged diff verbatim.

use vstd::prelude::*;
use vstd::string::StringExecFns;

use crate::text::contains_seq;
use crate::text::lemma_concat_contains_suffix;

verus! {

/// The role tag of a chat turn.
#[derive(Clone, Copy, Debug, PartialEq, Eq, Structural)]
pub enum Role {
    System,
    User,
    Assistant,
}

/// The name each role is serialized under in the request body.
pub open spec fn role_name_spec(r: Role) -> Seq<char> {
    match r {
        Role::System => "system"@,
        Role::User => "user"@,
        Role::Assistant => "assistant"@,
    }
}

impl Role {
    /// The name this role is serialized under, exactly [`role_name_spec`].
    pub fn name(self) -> (r: String)
        ensures
            r@ == role_name_spec(self),
    {
        match self {
            Role::System => "system".to_owned(),
            Role::User => "user".to_owned(),
            Role::Assistant => "assistant".to_owned(),
        }
    }
}

/// One role-tagged turn of a chat-style request or response.
#[derive(Debug, PartialEq, Eq)]
pub struct ChatTurn {
    pub role: Role,
    pub content: String,
}

/// The sampling temperature, held in hundredths so that the documented range
/// [0.0, 2.0] becomes the integer range [0, 200].
#[derive(Clone, Copy, Debug, PartialEq, Eq, Structural)]
pub struct Temperature {
    pub hundredths: u16,
}

impl Temperature {
    /// The documented range for the temperature parameter.
    pub open spec fn wf(self) -> bool {
        self.hundredths <= 200
    }

    /// The default temperature of 1.
    pub fn default_value() -> (t: Temperature)
        ensures
            t.wf(),
            t.hundredths == 100,
    {
        Temperature { hundredths: 100 }
    }

    /// Accept a temperature given in hundredths exactly when it lies in the
    /// documented range.
    pub fn from_hundredths(hundredths: u16) -> (t: Option<Temperature>)
        ensures
            hundredths <= 200 ==> t == Some(Temperature { hundredths }),
            hundredths > 200 ==> t is None,
    {
        if hundredths <= 200 {
            Some(Temperature { hundredths })
        } else {
            None
        }
    }
}

/// The opening sentence of the fixed system instructions.
pub open spec fn instructions_head() -> Seq<char> {
    "You are an expert at writing conventional git commit messages. Analyze the code diff and generate a single concise commit message in the format type(scope): description.\n"@
}

/// The taxonomy of change types and the formatting rules that follow the
/// opening sentence of the system instructions.
pub open spec fn instructions_rules() -> Seq<char> {
    "COMMIT TYPES:\nfeat: a new feature for the user\nfix: a bug fix\ndocs: documentation-only changes\nstyle: changes that do not affect the meaning of the code\nrefactor: a code change that neither fixes a bug nor adds a feature\ntest: adding missing tests or correcting existing tests\nchore: changes to the build process, auxiliary tools, or maintenance\nperf: a performance improvement\nci: changes to CI configuration files and scripts\nbuild: changes affecting the build system or external dependencies\nrevert: reverts a previous commit\nRULES:\nKeep the description under 50 characters when possible.\nUse the imperative mood (add, fix, update, not added, fixed, updated).\nDo not end the description with a period.\nFocus on what changed, not how.\nIf there are several kinds of change, pick the most significant one.\nUse a scope in parentheses when appropriate (component, file, or area affected)."@
}

/// The full fixed system instructions.
pub open spec fn system_instructions() -> Seq<char> {
    instructions_head() + instructions_rules()
}

/// The fixed sentence that precedes the diff in the user turn.
pub open spec fn user_prefix() -> Seq<char> {
    "Generate a conventional commit message for this diff:\n\n"@
}

/// The content of the user turn: the fixed instruction sentence, then the diff
/// verbatim.
pub open spec fn user_content(diff: Seq<char>) -> Seq<char> {
    user_prefix() + diff
}

/// The fixed system instructions as text, exactly [`system_instructions`].
pub fn system_instructions_text() -> (r: String)
    ensures
        r@ == system_instructions(),
        r@.len() > 0,
{
    proof {
        reveal_strlit(
            "You are an expert at writing conventional git commit messages. Analyze the code diff and generate a single concise commit message in the format type(scope): description.\n",
        );
    }
    let head =
        "You are an expert at writing conventional git commit messages. Analyze the code diff and generate a single concise commit message in the format type(scope): description.\n".to_owned();
    head.concat(
        "COMMIT TYPES:\nfeat: a new feature for the user\nfix: a bug fix\ndocs: documentation-only changes\nstyle: changes that do not affect the meaning of the code\nrefactor: a code change that neither fixes a bug nor adds a feature\ntest: adding missing tests or correcting existing tests\nchore: changes to the build process, auxiliary tools, or maintenance\nperf: a performance improvement\nci: changes to CI configuration files and scripts\nbuild: changes affecting the build system or external dependencies\nrevert: reverts a previous commit\nRULES:\nKeep the description under 50 characters when possible.\nUse the imperative mood (add, fix, update, not added, fixed, updated).\nDo not end the description with a period.\nFocus on what changed, not how.\nIf there are several kinds of change, pick the most significant one.\nUse a scope in parentheses when appropriate (component, file, or area affected).",
    )
}

/// The content of the user turn for `diff`, exactly [`user_content`].
pub fn user_content_text(diff: &str) -> (r: String)
    ensures
        r@ == user_content(diff@),
{
    "Generate a conventional commit message for this diff:\n\n".to_owned().concat(diff)
}

/// A complete chat-style completion request: a model identifier, the ordered
/// turns, and a sampling temperature.
#[derive(Debug, PartialEq, Eq)]
pub struct CompletionRequest {
    pub model: String,
    pub turns: Vec<ChatTurn>,
    pub temperature: Temperature,
}

impl CompletionRequest {
    /// For this use: exactly one system turn followed by exactly one user
    /// turn, both non-empty, with the temperature in its documented range.
    pub open spec fn wf(self) -> bool {
        &&& self.turns@.len() == 2
        &&& self.turns@[0].role == Role::System
        &&& self.turns@[1].role == Role::User
        &&& self.turns@[0].content@.len() > 0
        &&& self.turns@[1].content@.len() > 0
        &&& self.temperature.wf()
    }
}

/// What the request builder produces for the given model, temperature and
/// diff: the fixed system turn, then the user turn embedding the diff.
pub open spec fn built_request(
    req: CompletionRequest,
    model: Seq<char>,
    temperature: Temperature,
    diff: Seq<char>,
) -> bool {
    &&& req.model@ == model
    &&& req.temperature == temperature
    &&& req.turns@.len() == 2
    &&& req.turns@[0].role == Role::System
    &&& req.turns@[0].content@ == system_instructions()
    &&& req.turns@[1].role == Role::User
    &&& req.turns@[1].content@ == user_content(diff)
}

/// Build the completion request for a staged diff. Pure: the one system turn
/// carries the fixed instructions, the one user turn embeds the diff verbatim
/// after the fixed instruction sentence.
pub fn build_request(model: &str, temperature: Temperature, diff: &str) -> (req: CompletionRequest)
    requires
        temperature.wf(),
        diff@.len() > 0,
    ensures
        built_request(req, model@, temperature, diff@),
        req.wf(),
{
    let system = ChatTurn { role: Role::System, content: system_instructions_text() };
    let user = ChatTurn { role: Role::User, content: user_content_text(diff) };
    let mut turns: Vec<ChatTurn> = Vec::new();
    turns.push(system);
    turns.push(user);
    CompletionRequest { model: model.to_owned(), turns, temperature }
}

/// Law: a built request has exactly the turn sequence [system, user], and its
/// user turn contains the diff text verbatim as a substring.
pub proof fn lemma_built_request_embeds_diff(
    req: CompletionRequest,
    model: Seq<char>,
    temperature: Temperature,
    diff: Seq<char>,
)
    requires
        built_request(req, model, temperature, diff),
    ensures
        req.turns@.len() == 2,
        req.turns@[0].role == Role::System,
        req.turns@[1].role == Role::User,
        contains_seq(req.turns@[1].content@, diff),
{
    lemma_concat_contains_suffix(user_prefix(), diff);
}

} // verus!
