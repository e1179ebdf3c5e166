//! The prompt task: asks a local Ollama model to complete a prompt.
use vstd::prelude::*;
use vstd::string::StringExecFns;

use crate::status::{unexpected_status, unexpected_status_text};

verus! {

/// Where the Ollama server answers generation requests.
pub const GENERATE_URL: &'static str = "http://host.docker.internal:11434/api/generate";

/// The model that completes prompts.
pub const GENERATE_MODEL: &'static str = "llama3.2:1b";

/// The task's input.
#[derive(Clone, Debug, PartialEq, Eq)]
pub struct TaskInput {
    pub prompt: String,
}

/// The task's output: the completion, or why there is none.
#[derive(Clone, Debug, PartialEq, Eq)]
pub enum TaskOutput {
    Success(String),
    Error(String),
}

/// The body of a generation request.
#[derive(Clone, Debug, PartialEq, Eq)]
pub struct OllamaGenerateRequest {
    pub model: String,
    pub prompt: String,
    /// Whether the answer comes in pieces.
    pub stream: bool,
}

/// A refusal of the server.
#[derive(Clone, Debug, PartialEq, Eq)]
pub struct OllamaGenerateErrorResponse {
    pub error: String,
}

/// A completion.
#[derive(Clone, Debug, PartialEq, Eq)]
pub struct OllamaGenerateSuccessResponse {
    pub model: String,
    pub response: String,
}

/// The body of the server's answer: a refusal or a completion.
#[derive(Clone, Debug, PartialEq, Eq)]
pub enum OllamaGenerateResponse {
    Error(OllamaGenerateErrorResponse),
    Success(OllamaGenerateSuccessResponse),
}

impl OllamaGenerateRequest {
    /// The request that completes `prompt` with the task's model, in one
    /// piece.
    pub fn for_prompt(prompt: String) -> (r: OllamaGenerateRequest)
        ensures
            r.model@ == GENERATE_MODEL@,
            r.prompt == prompt,
            !r.stream,
    {
        OllamaGenerateRequest { model: String::from_str(GENERATE_MODEL), prompt, stream: false }
    }
}

/// Decides on the server's answer: with status `200` a completion is the
/// result and a refusal (or an unreadable body, given as `reply`'s error)
/// is the error; any other status is refused with its message.
pub fn generate_outcome(status: u16, reply: Result<OllamaGenerateResponse, String>) -> (r: Result<
    OllamaGenerateSuccessResponse,
    String,
>)
    ensures
        status != 200 ==> (r matches Err(m) && m@ == unexpected_status_text(status)),
        status == 200 ==> r == match reply {
            Ok(OllamaGenerateResponse::Error(e)) => Err::<OllamaGenerateSuccessResponse, String>(e.error),
            Ok(OllamaGenerateResponse::Success(s)) => Ok(s),
            Err(m) => Err(m),
        },
{
    if status != 200 {
        return Err(unexpected_status(status));
    }
    match reply {
        Ok(OllamaGenerateResponse::Error(e)) => Err(e.error),
        Ok(OllamaGenerateResponse::Success(s)) => Ok(s),
        Err(m) => Err(m),
    }
}

/// The message for a body that is not an answer of the server: the
/// parser's text and the body's debug text.
pub fn parsing_error_message(detail: &str, body_debug: &str) -> (r: String)
    ensures
        r@ == "response parsing error ("@ + detail@ + "). body: "@ + body_debug@,
{
    let mut r = String::from_str("response parsing error (");
    r.append(detail);
    r.append("). body: ");
    r.append(body_debug);
    r
}

impl TaskOutput {
    /// The task's output for the outcome of the request: the completion's
    /// text, or the error.
    pub fn from_outcome(outcome: Result<OllamaGenerateSuccessResponse, String>) -> (r: TaskOutput)
        ensures
            r == match outcome {
                Ok(s) => TaskOutput::Success(s.response),
                Err(e) => TaskOutput::Error(e),
            },
    {
        match outcome {
            Ok(s) => TaskOutput::Success(s.response),
            Err(e) => TaskOutput::Error(e),
        }
    }
}

} // verus!
