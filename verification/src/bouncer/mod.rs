//! The AI bouncer task: a model converses with an applicant and decides
//! whether they may join a DAO.
use vstd::prelude::*;
use vstd::string::StringExecFns;

use crate::text::{chars_eq, str_chars};

pub mod groq;
pub mod json;
pub mod legacy;
pub mod ollama;
pub mod session;

use session::Session;

verus! {

/// Settings of the task, read from its environment.
#[derive(Clone, Debug, PartialEq, Eq)]
pub struct Env {
    /// Which model provider answers: `ollama` or `groq`.
    pub provider: String,
    /// The chain's LCD endpoint.
    pub lcd: String,
}

/// One message of an applicant.
#[derive(Clone, Debug, PartialEq, Eq)]
pub struct TaskInput {
    /// The DAO address.
    pub dao: String,
    /// The applicant's address.
    pub address: String,
    /// The index of this message among the applicant's messages, from 0.
    pub message_id: u16,
    /// The message.
    pub message: String,
}

/// The bouncer's answer to one message.
#[derive(Clone, Debug, PartialEq, Eq)]
pub struct TaskOutputSuccess {
    pub dao: String,
    pub address: String,
    /// The message answered.
    pub message_id: u16,
    /// The bouncer's reply.
    pub response: String,
    /// The decision, once the bouncer made it.
    pub decision: Option<bool>,
}

/// What the task returns.
#[derive(Clone, Debug, PartialEq, Eq)]
pub enum TaskOutput {
    Success(TaskOutputSuccess),
    Error(String),
}

/// The providers that can answer.
#[derive(Clone, Copy, Debug, PartialEq, Eq, Structural)]
pub enum ProviderKind {
    Ollama,
    Groq,
}

/// The message for a provider name that is not known.
pub open spec fn unknown_provider_message(name: Seq<char>) -> Seq<char> {
    "unknown provider: "@ + name
}

/// Picks the provider named `name` (`ollama` or `groq`).
pub fn select_provider(name: &str) -> (r: Result<ProviderKind, String>)
    ensures
        name@ == "ollama"@ <==> r == Ok::<ProviderKind, String>(ProviderKind::Ollama),
        name@ == "groq"@ <==> r == Ok::<ProviderKind, String>(ProviderKind::Groq),
        r matches Err(m) ==> m@ == unknown_provider_message(name@),
{
    proof {
        reveal_strlit("groq");
        reveal_strlit("ollama");
        assert("groq"@[0] != "ollama"@[0]);
    }
    let n = str_chars(name);
    let o = str_chars(ollama::OLLAMA_PROVIDER_NAME);
    let g = str_chars(groq::GROQ_PROVIDER_NAME);
    if chars_eq(&n, &o) {
        Ok(ProviderKind::Ollama)
    } else if chars_eq(&n, &g) {
        Ok(ProviderKind::Groq)
    } else {
        let mut m = String::from_str("unknown provider: ");
        m.append(name);
        Err(m)
    }
}

impl TaskOutputSuccess {
    /// The answer to message `message_id` of a session: the session's DAO and
    /// applicant, and the text and decision of its last message.
    pub fn from_session(session: &Session, message_id: u16) -> (r: TaskOutputSuccess)
        requires
            session.messages@.len() > 0,
        ensures
            r.dao@ == session.dao@,
            r.address@ == session.address@,
            r.message_id == message_id,
            r.response@ == session.messages@.last().content@,
            r.decision == session.messages@.last().decision,
    {
        let last = session.last_message();
        TaskOutputSuccess {
            dao: String::from_str(session.dao.as_str()),
            address: String::from_str(session.address.as_str()),
            message_id,
            response: last.content,
            decision: last.decision,
        }
    }
}

impl TaskOutput {
    /// The task's output for the processed session, or for the error that
    /// stopped the processing.
    pub fn from_processed(processed: Result<Session, String>, message_id: u16) -> (r: TaskOutput)
        requires
            processed matches Ok(s) ==> s.messages@.len() > 0,
        ensures
            processed matches Err(e) ==> r == TaskOutput::Error(e),
            processed matches Ok(s) ==> (r matches TaskOutput::Success(o) && o.dao@ == s.dao@
                && o.address@ == s.address@ && o.message_id == message_id && o.response@
                == s.messages@.last().content@ && o.decision == s.messages@.last().decision),
    {
        match processed {
            Ok(s) => TaskOutput::Success(TaskOutputSuccess::from_session(&s, message_id)),
            Err(e) => TaskOutput::Error(e),
        }
    }
}

} // verus!
