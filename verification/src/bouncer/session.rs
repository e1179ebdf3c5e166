//! A conversation between the bouncer and one applicant of one DAO.
use base64::Engine;
use vstd::prelude::*;
use vstd::string::StringExecFns;

use crate::bindings::fmt::push_decimal;
use crate::text::{chars_eq, decimal, str_chars};

verus! {

/// One message of a conversation.
#[derive(Clone, Debug, PartialEq, Eq)]
pub struct SessionMessage {
    /// `system`, `user` or `assistant`.
    pub role: String,
    pub content: String,
    /// The decision the message carries; only the bouncer's messages do.
    pub decision: Option<bool>,
}

/// A conversation. (The sampling temperature and the tool descriptions that
/// go with it are kept by the caller.)
#[derive(Clone, Debug, PartialEq, Eq)]
pub struct Session {
    /// The DAO address.
    pub dao: String,
    /// The address of the applicant.
    pub address: String,
    /// The decision, once made.
    pub decision: Option<bool>,
    /// The model that answers.
    pub model: String,
    pub messages: Vec<SessionMessage>,
    /// The sampling seed.
    pub seed: u64,
}

/// The reply to the query for the DAO's bouncer widget item.
#[derive(Clone, Debug, PartialEq, Eq)]
pub struct GetItemQueryResponse {
    /// Base64 of the JSON of [`GetItemQueryResponseData`].
    pub data: String,
}

/// The widget item, if the DAO has one.
#[derive(Clone, Debug, PartialEq, Eq)]
pub struct GetItemQueryResponseData {
    /// The item's JSON text.
    pub item: Option<String>,
}

/// The bouncer widget's settings.
#[derive(Clone, Debug, PartialEq, Eq)]
pub struct AiBouncerWidgetData {
    /// What the DAO asks of applicants.
    pub requirements: String,
}

/// The number of messages in `msgs` with the role `user`.
pub open spec fn user_message_count(msgs: Seq<SessionMessage>) -> nat
    decreases msgs.len(),
{
    if msgs.len() == 0 {
        0
    } else {
        user_message_count(msgs.drop_last()) + if msgs.last().role@ == "user"@ {
            1nat
        } else {
            0nat
        }
    }
}

/// The message for a message id that is not the next one.
pub open spec fn message_id_mismatch(expected: nat, got: u16) -> Seq<char> {
    "message_id mismatch: expected "@ + decimal(expected) + " but got "@ + decimal(got as nat)
}

/// The message for a session that already reached its decision.
pub open spec fn already_decided_message() -> Seq<char> {
    "a decision has already been made"@
}

/// The file that stores the session of `address` with `dao`.
pub open spec fn session_path(dao: Seq<char>, address: Seq<char>) -> Seq<char> {
    "./sessions/"@ + dao + "_"@ + address + ".json"@
}

/// The system message of a new session, given the DAO's requirements.
pub open spec fn system_message(requirements: Option<Seq<char>>) -> Seq<char> {
    match requirements {
        Some(r) => guided_intro() + r + guided_outro(),
        None => unguided_message(),
    }
}

/// Start of the system message when the DAO gave requirements.
pub open spec fn guided_intro() -> Seq<char> {
    "You are a helpful bouncer deciding who is allowed to join an organization. Converse with the applicant, and make a decision using the make_decision tool only once you are confident you have enough information. Do not make a decision too early. If you cannot make a decision, ask follow up questions. The members of the organization provided the following requirements/guidelines for assessing applicants:\n\n"@
}

/// End of the system message when the DAO gave requirements.
pub open spec fn guided_outro() -> Seq<char> {
    "\n\nDecide based on the information you receive and the details provided by the organization."@
}

/// The system message when the DAO gave no requirements.
pub open spec fn unguided_message() -> Seq<char> {
    "You are a bouncer deciding who is allowed to join an organization. Converse with the applicant, and make a decision using the make_decision tool only once you are confident you have enough information. Do not make a decision too early. If you cannot make a decision, ask follow up questions. The members of the organization have not provided any guidelines, so use your best judgement."@
}

/// The sampling seed of every new session.
pub open spec fn new_session_seed() -> u64 {
    42
}

/// Whether the role of `m` is `user`.
fn is_user(m: &SessionMessage) -> (r: bool)
    ensures
        r == (m.role@ == "user"@),
{
    let a = str_chars(m.role.as_str());
    let u = str_chars("user");
    chars_eq(&a, &u)
}

/// A message with a copy of `m`'s texts.
fn copy_message(m: &SessionMessage) -> (r: SessionMessage)
    ensures
        r.role@ == m.role@,
        r.content@ == m.content@,
        r.decision == m.decision,
{
    SessionMessage {
        role: String::from_str(m.role.as_str()),
        content: String::from_str(m.content.as_str()),
        decision: m.decision,
    }
}

impl Session {
    /// The file that stores a session (see [`session_path`]).
    pub fn path(dao: &str, address: &str) -> (r: String)
        ensures
            r@ == session_path(dao@, address@),
    {
        let mut p = String::from_str("./sessions/");
        p.append(dao);
        p.append("_");
        p.append(address);
        p.append(".json");
        p
    }

    /// A new session of `address` with `dao`: it starts with the system
    /// message built from the DAO's requirements, and has no decision.
    pub fn new(dao: &str, address: &str, model: &str, requirements: Option<&str>) -> (s: Session)
        ensures
            s.dao@ == dao@,
            s.address@ == address@,
            s.model@ == model@,
            s.decision is None,
            s.seed == new_session_seed(),
            s.messages@.len() == 1,
            s.messages@[0].role@ == "system"@,
            s.messages@[0].content@ == system_message(
                match requirements {
                    Some(r) => Some(r@),
                    None => None,
                },
            ),
            s.messages@[0].decision is None,
    {
        let content = match requirements {
            Some(r) => {
                let mut c = String::from_str(
                    "You are a helpful bouncer deciding who is allowed to join an organization. Converse with the applicant, and make a decision using the make_decision tool only once you are confident you have enough information. Do not make a decision too early. If you cannot make a decision, ask follow up questions. The members of the organization provided the following requirements/guidelines for assessing applicants:\n\n",
                );
                c.append(r);
                c.append(
                    "\n\nDecide based on the information you receive and the details provided by the organization.",
                );
                c
            },
            None => String::from_str(
                "You are a bouncer deciding who is allowed to join an organization. Converse with the applicant, and make a decision using the make_decision tool only once you are confident you have enough information. Do not make a decision too early. If you cannot make a decision, ask follow up questions. The members of the organization have not provided any guidelines, so use your best judgement.",
            ),
        };
        let mut messages = Vec::new();
        messages.push(
            SessionMessage { role: String::from_str("system"), content, decision: None },
        );
        Session {
            dao: String::from_str(dao),
            address: String::from_str(address),
            decision: None,
            model: String::from_str(model),
            messages,
            seed: 42,
        }
    }

    /// A loaded session may go on only while no decision was made.
    pub fn ensure_undecided(self) -> (r: Result<Session, String>)
        ensures
            self.decision is None ==> r == Ok::<Session, String>(self),
            self.decision is Some ==> (r matches Err(m) && m@ == already_decided_message()),
    {
        if self.decision.is_some() {
            return Err(String::from_str("a decision has already been made"));
        }
        Ok(self)
    }

    /// The session to go on with: the stored one, or else a new one built
    /// from the DAO's requirements; refused once a decision was made.
    pub fn resume_or_start(
        stored: Option<Session>,
        dao: &str,
        address: &str,
        model_if_new: &str,
        requirements: Option<&str>,
    ) -> (r: Result<Session, String>)
        ensures
            match stored {
                Some(s) => if s.decision is None {
                    r == Ok::<Session, String>(s)
                } else {
                    r matches Err(m) && m@ == already_decided_message()
                },
                None => r matches Ok(n) && n.dao@ == dao@ && n.address@ == address@ && n.model@
                    == model_if_new@ && n.decision is None && n.seed == new_session_seed()
                    && n.messages@.len() == 1 && n.messages@[0].role@ == "system"@
                    && n.messages@[0].content@ == system_message(
                    match requirements {
                        Some(q) => Some(q@),
                        None => None,
                    },
                ) && n.messages@[0].decision is None,
            },
    {
        let session = match stored {
            Some(s) => s,
            None => Session::new(dao, address, model_if_new, requirements),
        };
        session.ensure_undecided()
    }

    /// The number of messages from the applicant.
    pub fn user_message_count(&self) -> (n: usize)
        ensures
            n == user_message_count(self.messages@),
    {
        let mut n: usize = 0;
        let mut i: usize = 0;
        while i < self.messages.len()
            invariant
                i <= self.messages@.len(),
                n == user_message_count(self.messages@.take(i as int)),
                n <= i,
            decreases self.messages@.len() - i,
        {
            let ghost pre = self.messages@.take(i as int);
            assert(self.messages@.take(i + 1 as int).drop_last() =~= pre);
            if is_user(&self.messages[i]) {
                n = n + 1;
            }
            i = i + 1;
        }
        assert(self.messages@.take(self.messages@.len() as int) =~= self.messages@);
        n
    }

    /// Accepts `message_id` only when it is the index of the next message of
    /// the applicant (the count of their messages, modulo 2¹⁶).
    pub fn validate_message_id(&self, message_id: u16) -> (r: Result<(), String>)
        ensures
            r is Ok <==> message_id as nat == user_message_count(self.messages@) % 65536,
            r matches Err(m) ==> m@ == message_id_mismatch(
                user_message_count(self.messages@),
                message_id,
            ),
    {
        let user_messages = self.user_message_count();
        if message_id != (user_messages % 65536) as u16 {
            let mut m = String::from_str("message_id mismatch: expected ");
            push_decimal(&mut m, user_messages as u128);
            m.append(" but got ");
            push_decimal(&mut m, message_id as u128);
            return Err(m);
        }
        Ok(())
    }

    /// Appends a message of the applicant.
    pub fn add_user_message(&mut self, content: &str)
        ensures
            final(self).dao == old(self).dao,
            final(self).address == old(self).address,
            final(self).decision == old(self).decision,
            final(self).model == old(self).model,
            final(self).seed == old(self).seed,
            final(self).messages@.len() == old(self).messages@.len() + 1,
            final(self).messages@.drop_last() == old(self).messages@,
            final(self).messages@.last().role@ == "user"@,
            final(self).messages@.last().content@ == content@,
            final(self).messages@.last().decision is None,
    {
        self.messages.push(
            SessionMessage {
                role: String::from_str("user"),
                content: String::from_str(content),
                decision: None,
            },
        );
        assert(self.messages@.drop_last() =~= old(self).messages@);
    }

    /// Appends a reply of the bouncer; a decision it carries becomes the
    /// session's decision.
    pub fn add_ai_message(&mut self, content: &str, decision: Option<bool>)
        ensures
            final(self).dao == old(self).dao,
            final(self).address == old(self).address,
            final(self).model == old(self).model,
            final(self).seed == old(self).seed,
            final(self).decision == (match decision {
                Some(d) => Some(d),
                None => old(self).decision,
            }),
            final(self).messages@.len() == old(self).messages@.len() + 1,
            final(self).messages@.drop_last() == old(self).messages@,
            final(self).messages@.last().role@ == "assistant"@,
            final(self).messages@.last().content@ == content@,
            final(self).messages@.last().decision == decision,
    {
        if let Some(d) = decision {
            self.decision = Some(d);
        }
        self.messages.push(
            SessionMessage {
                role: String::from_str("assistant"),
                content: String::from_str(content),
                decision,
            },
        );
        assert(self.messages@.drop_last() =~= old(self).messages@);
    }

    /// The last message of the conversation, copied.
    pub fn last_message(&self) -> (r: SessionMessage)
        requires
            self.messages@.len() > 0,
        ensures
            r.role@ == self.messages@.last().role@,
            r.content@ == self.messages@.last().content@,
            r.decision == self.messages@.last().decision,
    {
        copy_message(&self.messages[self.messages.len() - 1])
    }
}

/// An applicant's message raises the count of applicant messages by one; a
/// reply of the bouncer leaves it unchanged.
pub proof fn lemma_user_count_push(msgs: Seq<SessionMessage>, m: SessionMessage)
    ensures
        user_message_count(msgs.push(m)) == user_message_count(msgs) + if m.role@ == "user"@ {
            1nat
        } else {
            0nat
        },
{
    assert(msgs.push(m).drop_last() =~= msgs);
}

/// A turn of the conversation, the applicant's message and the bouncer's
/// reply, moves the expected message id on by one.
pub proof fn lemma_turn_advances_message_id(
    msgs: Seq<SessionMessage>,
    message: SessionMessage,
    reply: SessionMessage,
)
    requires
        message.role@ == "user"@,
        reply.role@ == "assistant"@,
    ensures
        user_message_count(msgs.push(message).push(reply)) == user_message_count(msgs) + 1,
{
    lemma_user_count_push(msgs, message);
    lemma_user_count_push(msgs.push(message), reply);
    assert(reply.role@ != "user"@) by {
        reveal_strlit("user");
        reveal_strlit("assistant");
        assert(reply.role@[0] != "user"@[0]);
    }
}

/// The name of what the DAO query returns: the base64 decoding (standard
/// alphabet, padded) of `text`, or `None` when `text` is not valid base64.
pub uninterp spec fn base64_standard_decode(text: Seq<char>) -> Option<Seq<u8>>;

/// `BASE64_STANDARD.decode` from the `base64` crate; a refusal is given as
/// the error's display text, which is not described here.
#[verifier::external_body]
fn base64_decode(text: &str) -> (r: Result<Vec<u8>, String>)
    ensures
        r is Ok <==> base64_standard_decode(text@) is Some,
        r matches Ok(v) ==> base64_standard_decode(text@) == Some(v@),
{
    base64::engine::general_purpose::STANDARD.decode(text).map_err(|e| e.to_string())
}

/// The message of data that is not base64 starts with this.
pub open spec fn base64_failure_prefix() -> Seq<char> {
    "failed to decode base64: "@
}

impl GetItemQueryResponse {
    /// The bytes that `data` holds in base64.
    pub fn decode_data(&self) -> (r: Result<Vec<u8>, String>)
        ensures
            r is Ok <==> base64_standard_decode(self.data@) is Some,
            r matches Ok(v) ==> base64_standard_decode(self.data@) == Some(v@),
            r matches Err(m) ==> base64_failure_prefix().is_prefix_of(m@),
    {
        match base64_decode(self.data.as_str()) {
            Ok(v) => Ok(v),
            Err(e) => {
                let mut m = String::from_str("failed to decode base64: ");
                m.append(e.as_str());
                Err(m)
            },
        }
    }
}

} // verus!
