use hermes_agent_wizard::agent::{reply_content, Agent, ChatError, ChatResponse, Choice, Message};

fn reply_with(contents: &[&str]) -> ChatResponse {
    ChatResponse {
        choices: contents
            .iter()
            .map(|c| Choice { message: Message::new("assistant", c) })
            .collect(),
    }
}

#[test]
fn new_agent_has_no_history() {
    let a = Agent::new("http://localhost:11434/v1", "qwen3.5:4b");
    assert_eq!(a.base_url, "http://localhost:11434/v1");
    assert_eq!(a.model, "qwen3.5:4b");
    assert!(a.history.is_empty());
}

#[test]
fn chat_url_appends_completions_path() {
    let a = Agent::new("http://host:1/v1", "m");
    assert_eq!(a.chat_url(), "http://host:1/v1/chat/completions");
}

#[test]
fn chat_request_carries_history_and_input() {
    let mut a = Agent::new("u", "m");
    a.history.push(Message::new("user", "hi"));
    a.history.push(Message::new("assistant", "hello"));
    let r = a.chat_request("how are you");
    assert_eq!(r.model, "m");
    assert_eq!(r.messages.len(), 3);
    assert_eq!(r.messages[2].role, "user");
    assert_eq!(r.messages[2].content, "how are you");
    assert_eq!(r.messages[0].content, "hi");
    // the agent itself is not changed by building the request
    assert_eq!(a.history.len(), 2);
}

#[test]
fn chat_records_question_and_first_answer() {
    let mut a = Agent::new("u", "m");
    let out = a.chat("ping", Ok(reply_with(&["pong", "other"])));
    assert_eq!(out.unwrap(), "pong");
    assert_eq!(a.history.len(), 2);
    assert_eq!(a.history[0].role, "user");
    assert_eq!(a.history[0].content, "ping");
    assert_eq!(a.history[1].role, "assistant");
    assert_eq!(a.history[1].content, "pong");
}

#[test]
fn chat_without_choices_is_no_response() {
    let mut a = Agent::new("u", "m");
    let out = a.chat("ping", Ok(reply_with(&[])));
    match out {
        Err(e) => assert_eq!(e.describe(), "No response from model"),
        Ok(_) => panic!("expected an error"),
    }
    assert_eq!(a.history.len(), 1);
    assert_eq!(a.history[0].content, "ping");
}

#[test]
fn chat_transport_failure_keeps_question() {
    let mut a = Agent::new("u", "m");
    let out = a.chat("ping", Err(ChatError::Transport("connection refused".to_string())));
    match out {
        Err(e) => assert_eq!(e.describe(), "connection refused"),
        Ok(_) => panic!("expected an error"),
    }
    assert_eq!(a.history.len(), 1);
}

#[test]
fn clear_history_forgets_conversation() {
    let mut a = Agent::new("u", "m");
    let _ = a.chat("ping", Ok(reply_with(&["pong"])));
    a.clear_history();
    assert!(a.history.is_empty());
    assert_eq!(a.model, "m");
}

#[test]
fn duplicate_copies_conversation() {
    let mut a = Agent::new("u", "m");
    let _ = a.chat("ping", Ok(reply_with(&["pong"])));
    let b = a.duplicate();
    assert_eq!(b.base_url, "u");
    assert_eq!(b.history.len(), 2);
    assert_eq!(b.history[1].content, "pong");
}

#[test]
fn reply_content_takes_first_choice() {
    let c = vec![Some("first".to_string()), Some("second".to_string())];
    assert_eq!(reply_content(&c).unwrap(), "first");
}

#[test]
fn reply_content_without_text_is_no_content() {
    let c: Vec<Option<String>> = vec![None, Some("second".to_string())];
    match reply_content(&c) {
        Err(e) => assert_eq!(e.describe(), "No content"),
        Ok(_) => panic!("expected an error"),
    }
    match reply_content(&vec![]) {
        Err(ChatError::NoContent) => {}
        _ => panic!("expected NoContent"),
    }
}
