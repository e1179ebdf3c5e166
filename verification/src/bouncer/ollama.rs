//! Talking to a local Ollama chat API.
use vstd::prelude::*;
use vstd::string::StringExecFns;

use super::json::{get_member, member_from, JsonValue};
use super::session::SessionMessage;

verus! {

/// The name by which the task's environment selects Ollama.
pub const OLLAMA_PROVIDER_NAME: &'static str = "ollama";

/// The model a new Ollama session uses.
pub const OLLAMA_MODEL: &'static str = "llama3-groq-tool-use";

/// A message of an Ollama conversation.
#[derive(Debug)]
pub struct OllamaChatMessage {
    pub role: String,
    pub content: String,
    pub tool_calls: Option<Vec<OllamaChatMessageToolCall>>,
}

/// A call of a tool by the model.
#[derive(Debug)]
pub struct OllamaChatMessageToolCall {
    pub function: OllamaChatMessageToolCallFunction,
}

/// The tool called and its arguments, a JSON object.
#[derive(Debug)]
pub struct OllamaChatMessageToolCallFunction {
    pub name: String,
    pub arguments: Vec<(String, JsonValue)>,
}

/// A reply of the API.
#[derive(Debug)]
pub enum OllamaChatResponse {
    Error(OllamaChatErrorResponse),
    Success(OllamaChatSuccessResponse),
}

/// A refusal of the API.
#[derive(Clone, Debug, PartialEq, Eq)]
pub struct OllamaChatErrorResponse {
    pub error: String,
}

/// The model's reply.
#[derive(Debug)]
pub struct OllamaChatSuccessResponse {
    pub message: OllamaChatMessage,
}

/// The Ollama provider; it needs no settings.
#[derive(Clone, Copy, Debug, PartialEq, Eq, Structural)]
pub struct OllamaProvider {}

impl OllamaProvider {
    /// The provider.
    pub fn new() -> (r: OllamaProvider) {
        OllamaProvider {  }
    }
}

/// The argument named `decision` among `arguments`, `null` if absent.
pub open spec fn decision_argument(arguments: Seq<(String, JsonValue)>) -> JsonValue {
    match member_from(arguments, "decision"@, 0) {
        Some(v) => v,
        None => JsonValue::Null,
    }
}

impl OllamaChatMessage {
    /// The Ollama form of a session message: same role and text; a decision
    /// becomes one call of `make_decision` with the argument `decision`.
    pub fn from(value: &SessionMessage) -> (r: OllamaChatMessage)
        ensures
            r.role@ == value.role@,
            r.content@ == value.content@,
            value.decision is None ==> r.tool_calls is None,
            value.decision matches Some(d) ==> (r.tool_calls matches Some(calls) && calls@.len()
                == 1 && calls@[0].function.name@ == "make_decision"@
                && calls@[0].function.arguments@.len() == 1
                && calls@[0].function.arguments@[0].0@ == "decision"@
                && calls@[0].function.arguments@[0].1 == JsonValue::Bool(d)),
    {
        let tool_calls = match value.decision {
            Some(d) => {
                let mut arguments = Vec::new();
                arguments.push((String::from_str("decision"), JsonValue::Bool(d)));
                let mut calls = Vec::new();
                calls.push(
                    OllamaChatMessageToolCall {
                        function: OllamaChatMessageToolCallFunction {
                            name: String::from_str("make_decision"),
                            arguments,
                        },
                    },
                );
                Some(calls)
            },
            None => None,
        };
        OllamaChatMessage {
            role: String::from_str(value.role.as_str()),
            content: String::from_str(value.content.as_str()),
            tool_calls,
        }
    }

    /// The decision the message makes: none without tool calls; otherwise
    /// whether there is exactly one call whose `decision` argument is true.
    pub fn decision(&self) -> (r: Option<bool>)
        requires
            self.tool_calls matches Some(calls) ==> (calls@.len() == 1 ==> decision_argument(
                calls@[0].function.arguments@,
            ) is Bool),
        ensures
            self.tool_calls is None ==> r is None,
            self.tool_calls matches Some(calls) ==> (r matches Some(d) && d == (calls@.len() == 1
                && decision_argument(calls@[0].function.arguments@) == JsonValue::Bool(true))),
    {
        match &self.tool_calls {
            None => None,
            Some(calls) => {
                if calls.len() != 1 {
                    return Some(false);
                }
                let d = match get_member(&calls[0].function.arguments, "decision") {
                    Some(v) => match v.as_bool() {
                        Some(b) => b,
                        None => false,
                    },
                    None => false,
                };
                Some(d)
            },
        }
    }
}

impl OllamaChatResponse {
    /// The model's message, or the API's error.
    pub fn into_message(self) -> (r: Result<OllamaChatMessage, String>)
        ensures
            self matches OllamaChatResponse::Error(e) ==> r == Err::<OllamaChatMessage, String>(
                e.error,
            ),
            self matches OllamaChatResponse::Success(s) ==> r == Ok::<OllamaChatMessage, String>(
                s.message,
            ),
    {
        match self {
            OllamaChatResponse::Error(e) => Err(e.error),
            OllamaChatResponse::Success(s) => Ok(s.message),
        }
    }
}

} // verus!
