//! Talking to Groq's chat completion API.
use vstd::prelude::*;
use vstd::string::StringExecFns;

use super::json::{json_get, JsonValue};
use super::session::SessionMessage;

verus! {

/// The name by which the task's environment selects Groq.
pub const GROQ_PROVIDER_NAME: &'static str = "groq";

/// The model a new Groq session uses.
pub const GROQ_MODEL: &'static str = "llama3-groq-70b-8192-tool-use-preview";

/// One of the choices of a reply.
#[derive(Clone, Debug, PartialEq, Eq)]
pub struct GroqChatChoice {
    pub message: GroqChatMessage,
}

/// A message of a Groq conversation.
#[derive(Clone, Debug, PartialEq, Eq)]
pub struct GroqChatMessage {
    pub role: String,
    pub content: Option<String>,
    pub tool_calls: Option<Vec<GroqChatMessageToolCall>>,
}

/// A call of a tool by the model.
#[derive(Clone, Debug, PartialEq, Eq)]
pub struct GroqChatMessageToolCall {
    pub function: GroqChatMessageToolCallFunction,
}

/// The tool called and its arguments, as JSON text.
#[derive(Clone, Debug, PartialEq, Eq)]
pub struct GroqChatMessageToolCallFunction {
    pub name: String,
    pub arguments: String,
}

/// A reply of the API.
#[derive(Clone, Debug, PartialEq, Eq)]
pub enum GroqChatResponse {
    Error(GroqChatErrorResponse),
    Success(GroqChatSuccessResponse),
}

/// A refusal of the API.
#[derive(Clone, Debug, PartialEq, Eq)]
pub struct GroqChatErrorResponse {
    pub error: String,
}

/// The model's choices.
#[derive(Clone, Debug, PartialEq, Eq)]
pub struct GroqChatSuccessResponse {
    pub choices: Vec<GroqChatChoice>,
}

/// The Groq provider, holding its API key.
#[derive(Clone, Debug, PartialEq, Eq)]
pub struct GroqProvider {
    api_key: String,
}

/// `{"decision": <d>}`
pub open spec fn decision_arguments(d: bool) -> Seq<char> {
    "{\"decision\": "@ + if d {
        "true"@
    } else {
        "false"@
    } + "}"@
}

/// The message when the API offers no choice.
pub open spec fn no_choice_message() -> Seq<char> {
    "expected at least one choice"@
}

impl GroqChatMessage {
    /// The Groq form of a session message: same role and text; a decision
    /// becomes one call of `make_decision` with `{"decision": <d>}`.
    pub fn from(value: &SessionMessage) -> (r: GroqChatMessage)
        ensures
            r.role@ == value.role@,
            r.content matches Some(c) && c@ == value.content@,
            value.decision is None ==> r.tool_calls is None,
            value.decision matches Some(d) ==> (r.tool_calls matches Some(calls) && calls@.len()
                == 1 && calls@[0].function.name@ == "make_decision"@
                && calls@[0].function.arguments@ == decision_arguments(d)),
    {
        let tool_calls = match value.decision {
            Some(d) => {
                let mut arguments = String::from_str("{\"decision\": ");
                if d {
                    arguments.append("true");
                } else {
                    arguments.append("false");
                }
                arguments.append("}");
                let mut calls = Vec::new();
                calls.push(
                    GroqChatMessageToolCall {
                        function: GroqChatMessageToolCallFunction {
                            name: String::from_str("make_decision"),
                            arguments,
                        },
                    },
                );
                Some(calls)
            },
            None => None,
        };
        GroqChatMessage {
            role: String::from_str(value.role.as_str()),
            content: Some(String::from_str(value.content.as_str())),
            tool_calls,
        }
    }

    /// The text of the message, empty when it has none.
    pub fn content_text(&self) -> (r: String)
        ensures
            self.content matches Some(c) ==> r@ == c@,
            self.content is None ==> r@ == Seq::<char>::empty(),
    {
        match &self.content {
            Some(c) => String::from_str(c.as_str()),
            None => String::new(),
        }
    }

    /// The decision the message makes: none without tool calls; otherwise
    /// whether there is exactly one call and its arguments (parsed into
    /// `first_arguments`) hold `"decision": true`.
    pub fn decision(&self, first_arguments: &JsonValue) -> (r: Option<bool>)
        requires
            self.tool_calls matches Some(calls) ==> (calls@.len() == 1 ==> json_get(
                *first_arguments,
                "decision"@,
            ) is Bool),
        ensures
            self.tool_calls is None ==> r is None,
            self.tool_calls matches Some(calls) ==> (r matches Some(d) && d == (calls@.len() == 1
                && json_get(*first_arguments, "decision"@) == JsonValue::Bool(true))),
    {
        match &self.tool_calls {
            None => None,
            Some(calls) => {
                if calls.len() != 1 {
                    return Some(false);
                }
                match first_arguments.get("decision") {
                    Some(v) => match v.as_bool() {
                        Some(b) => Some(b),
                        None => Some(false),
                    },
                    None => Some(false),
                }
            },
        }
    }
}

impl GroqChatResponse {
    /// The message of the first choice; the API's error, or an error when
    /// there is no choice.
    pub fn first_message(&self) -> (r: Result<&GroqChatMessage, String>)
        ensures
            self matches GroqChatResponse::Error(e) ==> (r matches Err(m) && m@ == e.error@),
            self matches GroqChatResponse::Success(s) ==> (s.choices@.len() == 0 <==> r is Err),
            self matches GroqChatResponse::Success(s) ==> (s.choices@.len() == 0 ==> (r matches Err(
                m,
            ) && m@ == no_choice_message())),
            self matches GroqChatResponse::Success(s) ==> (s.choices@.len() > 0 ==> (r matches Ok(
                msg,
            ) && *msg == s.choices@[0].message)),
    {
        match self {
            GroqChatResponse::Error(e) => Err(String::from_str(e.error.as_str())),
            GroqChatResponse::Success(s) => {
                if s.choices.len() == 0 {
                    Err(String::from_str("expected at least one choice"))
                } else {
                    Ok(&s.choices[0].message)
                }
            },
        }
    }
}

impl GroqProvider {
    /// The provider with its API key.
    pub fn new(api_key: String) -> (r: GroqProvider)
        ensures
            r.api_key() == api_key@,
    {
        GroqProvider { api_key }
    }

    /// The API key.
    pub closed spec fn api_key(&self) -> Seq<char> {
        self.api_key@
    }

    /// The value of the `Authorization` header: `Bearer <api key>`.
    pub fn authorization(&self) -> (r: String)
        ensures
            r@ == "Bearer "@ + self.api_key(),
    {
        let mut r = String::from_str("Bearer ");
        r.append(self.api_key.as_str());
        r
    }
}

} // verus!
