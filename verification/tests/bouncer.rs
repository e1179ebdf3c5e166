use avs_toolkit::bouncer::groq::{
    GroqChatChoice, GroqChatErrorResponse, GroqChatMessage, GroqChatResponse,
    GroqChatSuccessResponse, GroqProvider,
};
use avs_toolkit::bouncer::json::JsonValue;
use avs_toolkit::bouncer::legacy::{reply_decision, tool_call_decision, AiBouncerSession, OllamaChatMessage as LegacyMessage};
use avs_toolkit::bouncer::ollama::{
    OllamaChatErrorResponse, OllamaChatMessage, OllamaChatResponse, OllamaChatSuccessResponse,
};
use avs_toolkit::bouncer::session::{GetItemQueryResponse, Session, SessionMessage};
use avs_toolkit::bouncer::{select_provider, ProviderKind, TaskOutput};

fn obj(members: Vec<(&str, JsonValue)>) -> JsonValue {
    JsonValue::Object(members.into_iter().map(|(k, v)| (k.to_string(), v)).collect())
}

#[test]
fn session_path_names_dao_and_address() {
    assert_eq!(Session::path("dao1", "addr2"), "./sessions/dao1_addr2.json");
}

#[test]
fn new_session_starts_with_the_system_message() {
    let s = Session::new("dao", "me", "model-x", Some("be kind"));
    assert_eq!(s.messages.len(), 1);
    assert_eq!(s.messages[0].role, "system");
    assert!(s.messages[0].content.starts_with("You are a helpful bouncer"));
    assert!(s.messages[0].content.contains("assessing applicants:\n\nbe kind\n\nDecide based"));
    assert_eq!(s.seed, 42);
    assert_eq!(s.decision, None);
    assert_eq!(s.model, "model-x");
    let u = Session::new("dao", "me", "m", None);
    assert!(u.messages[0].content.starts_with("You are a bouncer deciding"));
    assert!(u.messages[0].content.ends_with("use your best judgement."));
}

#[test]
fn message_ids_count_the_applicant_messages() {
    let mut s = Session::new("dao", "me", "m", None);
    assert_eq!(s.validate_message_id(0), Ok(()));
    assert_eq!(
        s.validate_message_id(1),
        Err("message_id mismatch: expected 0 but got 1".to_string())
    );
    s.add_user_message("hello");
    s.add_ai_message("hi", None);
    assert_eq!(s.user_message_count(), 1);
    assert_eq!(s.validate_message_id(1), Ok(()));
    assert_eq!(s.decision, None);
    s.add_user_message("let me in");
    s.add_ai_message("welcome", Some(true));
    assert_eq!(s.decision, Some(true));
    assert_eq!(s.user_message_count(), 2);
    let last = s.last_message();
    assert_eq!(last.content, "welcome");
    assert_eq!(last.decision, Some(true));
    assert_eq!(last.role, "assistant");
}

#[test]
fn decided_session_is_closed() {
    let mut s = Session::new("dao", "me", "m", None);
    assert!(s.clone().ensure_undecided().is_ok());
    s.add_ai_message("no", Some(false));
    assert_eq!(s.ensure_undecided().unwrap_err(), "a decision has already been made");
}

#[test]
fn widget_data_is_base64() {
    let r = GetItemQueryResponse { data: "eyJpdGVtIjpudWxsfQ==".to_string() };
    assert_eq!(r.decode_data().unwrap(), b"{\"item\":null}".to_vec());
    let bad = GetItemQueryResponse { data: "%%%".to_string() };
    assert!(bad.decode_data().unwrap_err().starts_with("failed to decode base64: "));
}

#[test]
fn providers_are_chosen_by_name() {
    assert_eq!(select_provider("ollama"), Ok(ProviderKind::Ollama));
    assert_eq!(select_provider("groq"), Ok(ProviderKind::Groq));
    assert_eq!(select_provider("other"), Err("unknown provider: other".to_string()));
}

#[test]
fn task_output_reports_the_last_reply() {
    let mut s = Session::new("dao", "me", "m", None);
    s.add_user_message("hi");
    s.add_ai_message("yes", Some(true));
    match TaskOutput::from_processed(Ok(s), 3) {
        TaskOutput::Success(o) => {
            assert_eq!(o.dao, "dao");
            assert_eq!(o.address, "me");
            assert_eq!(o.message_id, 3);
            assert_eq!(o.response, "yes");
            assert_eq!(o.decision, Some(true));
        }
        TaskOutput::Error(e) => panic!("unexpected error {e}"),
    }
    assert_eq!(TaskOutput::from_processed(Err("boom".to_string()), 0), TaskOutput::Error("boom".to_string()));
}

#[test]
fn groq_messages_carry_decisions_as_tool_calls() {
    let m = SessionMessage { role: "assistant".to_string(), content: "ok".to_string(), decision: Some(true) };
    let g = GroqChatMessage::from(&m);
    assert_eq!(g.role, "assistant");
    assert_eq!(g.content, Some("ok".to_string()));
    let calls = g.tool_calls.clone().unwrap();
    assert_eq!(calls.len(), 1);
    assert_eq!(calls[0].function.name, "make_decision");
    assert_eq!(calls[0].function.arguments, "{\"decision\": true}");
    let args = obj(vec![("decision", JsonValue::Bool(true))]);
    assert_eq!(g.decision(&args), Some(true));
    let no = GroqChatMessage::from(&SessionMessage { role: "user".to_string(), content: "x".to_string(), decision: None });
    assert!(no.tool_calls.is_none());
    assert_eq!(no.decision(&JsonValue::Null), None);
    assert_eq!(no.content_text(), "x");
    let f = GroqChatMessage::from(&SessionMessage { role: "assistant".to_string(), content: String::new(), decision: Some(false) });
    assert_eq!(f.tool_calls.unwrap()[0].function.arguments, "{\"decision\": false}");
}

#[test]
fn groq_reply_needs_a_choice() {
    let err = GroqChatResponse::Error(GroqChatErrorResponse { error: "quota".to_string() });
    assert_eq!(err.first_message().unwrap_err(), "quota");
    let empty = GroqChatResponse::Success(GroqChatSuccessResponse { choices: vec![] });
    assert_eq!(empty.first_message().unwrap_err(), "expected at least one choice");
    let msg = GroqChatMessage { role: "assistant".to_string(), content: None, tool_calls: None };
    let one = GroqChatResponse::Success(GroqChatSuccessResponse { choices: vec![GroqChatChoice { message: msg.clone() }] });
    assert_eq!(one.first_message().unwrap(), &msg);
    assert_eq!(msg.content_text(), "");
    assert_eq!(GroqProvider::new("k3y".to_string()).authorization(), "Bearer k3y");
}

#[test]
fn ollama_messages_carry_decisions_as_arguments() {
    let m = SessionMessage { role: "assistant".to_string(), content: "no".to_string(), decision: Some(false) };
    let o = OllamaChatMessage::from(&m);
    assert_eq!(o.content, "no");
    assert_eq!(o.decision(), Some(false));
    let yes = OllamaChatMessage::from(&SessionMessage { decision: Some(true), ..m.clone() });
    assert_eq!(yes.decision(), Some(true));
    let none = OllamaChatMessage::from(&SessionMessage { decision: None, ..m });
    assert_eq!(none.decision(), None);
    let r = OllamaChatResponse::Error(OllamaChatErrorResponse { error: "down".to_string() });
    assert_eq!(r.into_message().unwrap_err(), "down");
    let ok = OllamaChatResponse::Success(OllamaChatSuccessResponse { message: yes });
    assert_eq!(ok.into_message().unwrap().content, "no");
}

fn decision_call(name: &str, d: JsonValue) -> JsonValue {
    obj(vec![(
        "function",
        obj(vec![("name", JsonValue::String(name.to_string())), ("arguments", obj(vec![("decision", d)]))]),
    )])
}

#[test]
fn legacy_tool_calls_are_read_loosely() {
    assert_eq!(tool_call_decision(&vec![decision_call("make_decision", JsonValue::Bool(true))]), Some(true));
    assert_eq!(tool_call_decision(&vec![decision_call("make_decision", JsonValue::Bool(false))]), Some(false));
    assert_eq!(tool_call_decision(&vec![decision_call("other", JsonValue::Bool(true))]), None);
    assert_eq!(tool_call_decision(&vec![decision_call("make_decision", JsonValue::Null)]), None);
    assert_eq!(tool_call_decision(&vec![]), None);
    assert_eq!(
        tool_call_decision(&vec![
            decision_call("make_decision", JsonValue::Bool(true)),
            decision_call("make_decision", JsonValue::Bool(true)),
        ]),
        None
    );
}

#[test]
fn legacy_session_runs_a_conversation() {
    assert_eq!(
        AiBouncerSession::start("s1", None).unwrap_err(),
        "address is required on first message"
    );
    let mut s = AiBouncerSession::start("s1", Some("addr")).unwrap();
    assert_eq!(s.messages.len(), 1);
    assert_eq!(s.model, "llama3-groq-tool-use");
    assert_eq!(
        s.accept_user_message(1, "hi"),
        Err("message_id mismatch: expected 0 but got 1".to_string())
    );
    assert_eq!(s.messages.len(), 1);
    assert_eq!(s.accept_user_message(0, "hi"), Ok(()));
    let reply = LegacyMessage {
        role: "assistant".to_string(),
        content: "fine".to_string(),
        tool_calls: Some(vec![decision_call("make_decision", JsonValue::Bool(true))]),
    };
    assert_eq!(s.record_reply(reply), Some(true));
    assert_eq!(s.decision, Some(true));
    assert_eq!(s.messages.len(), 3);
    assert_eq!(s.accept_user_message(1, "again"), Err("a decision has already been made".to_string()));
}

#[test]
fn json_members_are_looked_up_by_name() {
    let v = obj(vec![("a", JsonValue::Bool(false)), ("a", JsonValue::Bool(true)), ("s", JsonValue::String("t".to_string()))]);
    assert_eq!(v.get("a").and_then(|x| x.as_bool()), Some(false));
    assert!(v.get("missing").is_none());
    assert!(v.is_object());
    assert!(v.get("s").unwrap().is_str("t"));
    assert!(!v.get("s").unwrap().is_str("u"));
    assert!(JsonValue::Null.get("a").is_none());
}

#[test]
fn stored_sessions_resume_and_new_ones_start() {
    let started = Session::resume_or_start(None, "dao", "me", "m", Some("x")).unwrap();
    assert_eq!(started.messages.len(), 1);
    assert_eq!(started.model, "m");
    let mut stored = started.clone();
    stored.add_user_message("hi");
    let resumed = Session::resume_or_start(Some(stored.clone()), "other", "other", "other", None).unwrap();
    assert_eq!(resumed, stored);
    stored.add_ai_message("no", Some(false));
    assert_eq!(
        Session::resume_or_start(Some(stored), "dao", "me", "m", None).unwrap_err(),
        "a decision has already been made"
    );
}

#[test]
fn reported_decision_backs_up_the_tool_call() {
    assert_eq!(reply_decision(Some(false), Some(true)), Some(false));
    assert_eq!(reply_decision(None, Some(true)), Some(true));
    assert_eq!(reply_decision(None, None), None);
}
