//! The first form of the bouncer, which keeps one session per session id and
//! reads the model's tool calls as free JSON.
use vstd::prelude::*;
use vstd::string::StringExecFns;

use super::json::{json_get, JsonValue};
use crate::bindings::fmt::push_decimal;
use crate::text::{chars_eq, decimal, str_chars};

verus! {

/// The role of a message's sender.
#[derive(Clone, Copy, Debug, PartialEq, Eq, Structural)]
pub enum OllamaChatMessageRole {
    System,
    User,
    Assistant,
    Tool,
}

/// A message of the conversation.
#[derive(Debug)]
pub struct OllamaChatMessage {
    pub role: String,
    pub content: String,
    pub tool_calls: Option<Vec<JsonValue>>,
}

/// A refusal of the API.
#[derive(Clone, Debug, PartialEq, Eq)]
pub struct OllamaChatErrorResponse {
    pub error: String,
}

/// A session of this form. (Its model options and tool descriptions are kept
/// by the caller.)
#[derive(Debug)]
pub struct AiBouncerSession {
    pub session_id: String,
    pub address: String,
    pub decision: Option<bool>,
    pub model: String,
    pub messages: Vec<OllamaChatMessage>,
}

/// The model of a new session.
pub open spec fn legacy_model() -> Seq<char> {
    "llama3-groq-tool-use"@
}

/// The system message of a new session.
pub open spec fn legacy_system_message() -> Seq<char> {
    "You are a bouncer, deciding who is allowed to join an organization based purely on good vibes. Engage in a conversation with the user, and make a decision using the make_decision tool only once you are confident you have enough information. You should not make a decision until exchanging at least a few messages back and forth."@
}

/// The message when the first message comes without an address.
pub open spec fn address_required_message() -> Seq<char> {
    "address is required on first message"@
}

/// The number of messages with the role `user`.
pub open spec fn legacy_user_count(msgs: Seq<OllamaChatMessage>) -> nat
    decreases msgs.len(),
{
    if msgs.len() == 0 {
        0
    } else {
        legacy_user_count(msgs.drop_last()) + if msgs.last().role@ == "user"@ {
            1nat
        } else {
            0nat
        }
    }
}

/// A tool call that decides: an object whose `function` is an object named
/// `make_decision` whose `arguments` are an object with a boolean `decision`.
pub open spec fn is_decision_call(call: JsonValue) -> bool {
    let f = json_get(call, "function"@);
    let args = json_get(f, "arguments"@);
    &&& call is Object
    &&& f is Object
    &&& json_get(f, "name"@) matches JsonValue::String(n) && n@ == "make_decision"@
    &&& args is Object
    &&& json_get(args, "decision"@) is Bool
}

/// The decision that a message's tool calls make: present only when there is
/// exactly one call and it decides.
pub open spec fn spec_tool_call_decision(calls: Seq<JsonValue>) -> Option<bool> {
    if calls.len() == 1 && is_decision_call(calls[0]) {
        match json_get(json_get(json_get(calls[0], "function"@), "arguments"@), "decision"@) {
            JsonValue::Bool(b) => Some(b),
            _ => None,
        }
    } else {
        None
    }
}

/// The decision that the tool calls `calls` make (see
/// [`spec_tool_call_decision`]).
pub fn tool_call_decision(calls: &Vec<JsonValue>) -> (r: Option<bool>)
    ensures
        r == spec_tool_call_decision(calls@),
{
    if calls.len() != 1 {
        return None;
    }
    let call = &calls[0];
    if !call.is_object() {
        return None;
    }
    let f = match call.get("function") {
        Some(f) => f,
        None => return None,
    };
    if !f.is_object() {
        return None;
    }
    match f.get("name") {
        Some(n) => {
            if !n.is_str("make_decision") {
                return None;
            }
        },
        None => return None,
    }
    let args = match f.get("arguments") {
        Some(a) => a,
        None => return None,
    };
    if !args.is_object() {
        return None;
    }
    match args.get("decision") {
        Some(d) => d.as_bool(),
        None => None,
    }
}

impl AiBouncerSession {
    /// A new session for `session_id`; the first message must name the
    /// applicant's address.
    pub fn start(session_id: &str, address: Option<&str>) -> (r: Result<AiBouncerSession, String>)
        ensures
            address is None <==> r is Err,
            r matches Err(m) ==> m@ == address_required_message(),
            r matches Ok(s) ==> (s.session_id@ == session_id@ && s.decision is None && s.model@
                == legacy_model() && s.messages@.len() == 1 && s.messages@[0].role@ == "system"@
                && s.messages@[0].content@ == legacy_system_message()
                && s.messages@[0].tool_calls is None),
            r matches Ok(s) ==> (address matches Some(a) && s.address@ == a@),
    {
        let address = match address {
            Some(a) => a,
            None => return Err(String::from_str("address is required on first message")),
        };
        let mut messages = Vec::new();
        messages.push(
            OllamaChatMessage {
                role: String::from_str("system"),
                content: String::from_str(
                    "You are a bouncer, deciding who is allowed to join an organization based purely on good vibes. Engage in a conversation with the user, and make a decision using the make_decision tool only once you are confident you have enough information. You should not make a decision until exchanging at least a few messages back and forth.",
                ),
                tool_calls: None,
            },
        );
        Ok(
            AiBouncerSession {
                session_id: String::from_str(session_id),
                address: String::from_str(address),
                decision: None,
                model: String::from_str("llama3-groq-tool-use"),
                messages,
            },
        )
    }

    /// Accepts the applicant's next message: the session must have no
    /// decision yet, and `message_id` must count the applicant's earlier
    /// messages (modulo 2¹⁶); the message is then appended.
    pub fn accept_user_message(&mut self, message_id: u16, message: &str) -> (r: Result<(), String>)
        ensures
            r is Ok <==> (old(self).decision is None && message_id as nat == legacy_user_count(
                old(self).messages@,
            ) % 65536),
            old(self).decision is Some ==> (r matches Err(m) && m@
                == super::session::already_decided_message()),
            old(self).decision is None && r is Err ==> (r matches Err(m) && m@
                == "message_id mismatch: expected "@ + decimal(
                legacy_user_count(old(self).messages@),
            ) + " but got "@ + decimal(message_id as nat)),
            r is Err ==> *final(self) == *old(self),
            r is Ok ==> final(self).messages@.len() == old(self).messages@.len() + 1
                && final(self).messages@.drop_last() == old(self).messages@
                && final(self).messages@.last().role@ == "user"@
                && final(self).messages@.last().content@ == message@
                && final(self).messages@.last().tool_calls is None && final(self).session_id
                == old(self).session_id && final(self).address == old(self).address
                && final(self).decision == old(self).decision && final(self).model == old(
                self,
            ).model,
    {
        if self.decision.is_some() {
            return Err(String::from_str("a decision has already been made"));
        }
        let mut n: usize = 0;
        let mut i: usize = 0;
        while i < self.messages.len()
            invariant
                i <= self.messages@.len(),
                n == legacy_user_count(self.messages@.take(i as int)),
                n <= i,
            decreases self.messages@.len() - i,
        {
            assert(self.messages@.take(i + 1 as int).drop_last() =~= self.messages@.take(
                i as int,
            ));
            let role = str_chars(self.messages[i].role.as_str());
            let user = str_chars("user");
            if chars_eq(&role, &user) {
                n = n + 1;
            }
            i = i + 1;
        }
        assert(self.messages@.take(self.messages@.len() as int) =~= self.messages@);
        if message_id != (n % 65536) as u16 {
            let mut m = String::from_str("message_id mismatch: expected ");
            push_decimal(&mut m, n as u128);
            m.append(" but got ");
            push_decimal(&mut m, message_id as u128);
            return Err(m);
        }
        self.messages.push(
            OllamaChatMessage {
                role: String::from_str("user"),
                content: String::from_str(message),
                tool_calls: None,
            },
        );
        assert(self.messages@.drop_last() =~= old(self).messages@);
        Ok(())
    }

    /// Records the model's reply: it is appended, and the decision its tool
    /// calls make (if any) becomes the session's decision, which is returned.
    pub fn record_reply(&mut self, reply: OllamaChatMessage) -> (d: Option<bool>)
        ensures
            d == (match reply.tool_calls {
                Some(calls) => spec_tool_call_decision(calls@),
                None => None,
            }),
            final(self).messages@ == old(self).messages@.push(reply),
            final(self).decision == (match d {
                Some(b) => Some(b),
                None => old(self).decision,
            }),
            final(self).session_id == old(self).session_id,
            final(self).address == old(self).address,
            final(self).model == old(self).model,
    {
        let d = match &reply.tool_calls {
            Some(calls) => tool_call_decision(calls),
            None => None,
        };
        if let Some(b) = d {
            self.decision = Some(b);
        }
        self.messages.push(reply);
        d
    }
}

/// The decision a turn reports: the one the reply's tool call made, or
/// else the one the chat server reported with the reply.
pub fn reply_decision(made: Option<bool>, reported: Option<bool>) -> (r: Option<bool>)
    ensures
        r == (if made is Some {
            made
        } else {
            reported
        }),
{
    match made {
        Some(d) => Some(d),
        None => reported,
    }
}

/// Only applicant messages count: appending a message raises the count by
/// one when its role is `user`, and leaves it for any other role.
pub proof fn lemma_legacy_count_push(msgs: Seq<OllamaChatMessage>, m: OllamaChatMessage)
    ensures
        legacy_user_count(msgs.push(m)) == legacy_user_count(msgs) + if m.role@ == "user"@ {
            1nat
        } else {
            0nat
        },
{
    assert(msgs.push(m).drop_last() =~= msgs);
}

/// The count of applicant messages is the number of messages whose role is
/// `user`.
pub proof fn lemma_legacy_count_is_user_messages(msgs: Seq<OllamaChatMessage>)
    ensures
        legacy_user_count(msgs) == msgs.filter(|m: OllamaChatMessage| m.role@ == "user"@).len(),
    decreases msgs.len(),
{
    reveal(Seq::filter);
    if msgs.len() > 0 {
        lemma_legacy_count_is_user_messages(msgs.drop_last());
    }
}

/// A turn (the applicant's message, then a reply of the assistant or a
/// tool) moves the expected message id on by exactly one.
pub proof fn lemma_legacy_turn_advances(
    msgs: Seq<OllamaChatMessage>,
    message: OllamaChatMessage,
    reply: OllamaChatMessage,
)
    requires
        message.role@ == "user"@,
        reply.role@ != "user"@,
    ensures
        legacy_user_count(msgs.push(message).push(reply)) == legacy_user_count(msgs) + 1,
{
    lemma_legacy_count_push(msgs, message);
    lemma_legacy_count_push(msgs.push(message), reply);
}

} // verus!
