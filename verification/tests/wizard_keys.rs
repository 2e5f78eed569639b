use hermes_agent_wizard::agent::ChatError;
use hermes_agent_wizard::config::{HermesConfig, LoggingConfig, ModelConfig};
use hermes_agent_wizard::wizard::{Action, App, Key, Tab};

fn app() -> App {
    App::new("/home/u/.hermes".to_string(), None)
}

fn in_tab(t: Tab) -> App {
    let mut a = app();
    while a.current_tab != t {
        a.next_tab();
    }
    a
}

#[test]
fn new_app_starts_on_dashboard_with_defaults() {
    let a = app();
    assert_eq!(a.current_tab, Tab::Dashboard);
    assert_eq!(a.launcher_selected, Some(0));
    assert!(a.log_content.is_empty());
    assert_eq!(a.agent.base_url, "http://localhost:11434/v1");
    assert_eq!(a.agent.model, "qwen3.5:4b");
    assert!(!a.is_loading);
    assert!(a.input.is_empty());
}

#[test]
fn new_app_takes_configured_model_and_url() {
    let cfg = HermesConfig {
        model: Some(ModelConfig {
            default: Some("llama3".to_string()),
            base_url: Some("http://gpu:8000/v1".to_string()),
            provider: None,
        }),
        logging: Some(LoggingConfig { level: None }),
        toolsets: None,
    };
    let a = App::new("/h".to_string(), Some(cfg));
    assert_eq!(a.agent.base_url, "http://gpu:8000/v1");
    assert_eq!(a.agent.model, "llama3");
}

#[test]
fn tab_cycles_through_four_views() {
    let mut a = app();
    assert!(!a.next_tab());
    assert_eq!(a.current_tab, Tab::Chat);
    assert!(!a.next_tab());
    assert_eq!(a.current_tab, Tab::Launcher);
    assert!(a.next_tab());
    assert_eq!(a.current_tab, Tab::Logs);
    assert!(!a.next_tab());
    assert_eq!(a.current_tab, Tab::Dashboard);
}

#[test]
fn tab_key_into_logs_asks_for_refresh() {
    let mut a = in_tab(Tab::Launcher);
    assert!(matches!(a.handle_key(Key::Tab), Action::RefreshLogs));
    assert!(matches!(a.handle_key(Key::Tab), Action::Idle));
    assert_eq!(a.current_tab, Tab::Dashboard);
}

#[test]
fn launcher_wraps_both_ways() {
    let mut a = app();
    a.launcher_prev();
    assert_eq!(a.launcher_selected, Some(3));
    a.launcher_next();
    assert_eq!(a.launcher_selected, Some(0));
    a.launcher_next();
    a.launcher_next();
    a.launcher_next();
    assert_eq!(a.launcher_selected, Some(3));
    a.launcher_next();
    assert_eq!(a.launcher_selected, Some(0));
    a.launcher_selected = None;
    a.launcher_prev();
    assert_eq!(a.launcher_selected, Some(0));
}

#[test]
fn arrows_move_only_in_launcher() {
    let mut a = app();
    a.handle_key(Key::Down);
    assert_eq!(a.launcher_selected, Some(0));
    let mut b = in_tab(Tab::Launcher);
    b.handle_key(Key::Down);
    b.handle_key(Key::Down);
    assert_eq!(b.launcher_selected, Some(2));
    b.handle_key(Key::Up);
    assert_eq!(b.launcher_selected, Some(1));
}

#[test]
fn q_quits_even_in_chat() {
    let mut a = in_tab(Tab::Chat);
    assert!(matches!(a.handle_key(Key::Char('q')), Action::Quit));
    assert!(a.input.is_empty());
}

#[test]
fn typing_and_backspace_in_chat() {
    let mut a = in_tab(Tab::Chat);
    a.handle_key(Key::Char('h'));
    a.handle_key(Key::Char('é'));
    assert_eq!(a.input, "hé");
    a.handle_key(Key::Backspace);
    assert_eq!(a.input, "h");
    a.handle_key(Key::Backspace);
    a.handle_key(Key::Backspace);
    assert_eq!(a.input, "");
}

#[test]
fn typing_outside_chat_is_ignored() {
    let mut a = app();
    assert!(matches!(a.handle_key(Key::Char('x')), Action::Idle));
    assert!(a.input.is_empty());
}

#[test]
fn enter_with_empty_input_sends_nothing() {
    let mut a = in_tab(Tab::Chat);
    assert!(matches!(a.handle_key(Key::Enter), Action::Idle));
    assert!(!a.is_loading);
    assert!(a.agent.history.is_empty());
}

#[test]
fn enter_in_chat_sends_conversation() {
    let mut a = in_tab(Tab::Chat);
    a.handle_key(Key::Char('h'));
    a.handle_key(Key::Char('i'));
    match a.handle_key(Key::Enter) {
        Action::SendChat { url, request } => {
            assert_eq!(url, "http://localhost:11434/v1/chat/completions");
            assert_eq!(request.model, "qwen3.5:4b");
            assert_eq!(request.messages.len(), 1);
            assert_eq!(request.messages[0].role, "user");
            assert_eq!(request.messages[0].content, "hi");
        }
        other => panic!("unexpected {:?}", other),
    }
    assert!(a.is_loading);
    assert!(a.input.is_empty());
    assert_eq!(a.agent.history.len(), 1);
}

#[test]
fn keys_ignored_while_waiting() {
    let mut a = in_tab(Tab::Chat);
    a.handle_key(Key::Char('h'));
    a.handle_key(Key::Enter);
    assert!(matches!(a.handle_key(Key::Char('q')), Action::Idle));
    assert!(matches!(a.handle_key(Key::Tab), Action::Idle));
    assert_eq!(a.current_tab, Tab::Chat);
    assert!(a.input.is_empty());
}

#[test]
fn reply_ends_wait_and_joins_chat() {
    let mut a = in_tab(Tab::Chat);
    a.handle_key(Key::Char('h'));
    a.handle_key(Key::Enter);
    a.receive_reply(Ok("hello there".to_string()));
    assert!(!a.is_loading);
    assert_eq!(a.agent.history.len(), 2);
    assert_eq!(a.agent.history[1].role, "assistant");
    assert_eq!(a.agent.history[1].content, "hello there");
}

#[test]
fn failed_reply_shows_error_text() {
    let mut a = in_tab(Tab::Chat);
    a.handle_key(Key::Char('h'));
    a.handle_key(Key::Enter);
    a.receive_reply(Err(ChatError::NoContent));
    assert!(!a.is_loading);
    assert_eq!(a.agent.history[1].role, "assistant");
    assert_eq!(a.agent.history[1].content, "Error: No content");
    a.receive_reply(Err(ChatError::Transport("timed out".to_string())));
    assert_eq!(a.agent.history[2].content, "Error: timed out");
}

#[test]
fn launcher_enter_runs_selected_command() {
    let mut a = in_tab(Tab::Launcher);
    match a.handle_key(Key::Enter) {
        Action::Launch(c) => {
            assert_eq!(
                c.program,
                "/home/jeb/programs/hermes-agent-commissioning-20260401_175500/hermes-agent/venv/bin/python3"
            );
            assert_eq!(
                c.args,
                vec!["/home/jeb/programs/hermes-agent-commissioning-20260401_175500/hermes-agent/cli.py".to_string()]
            );
        }
        other => panic!("unexpected {:?}", other),
    }
    a.handle_key(Key::Down);
    match a.handle_key(Key::Enter) {
        Action::Launch(c) => {
            assert_eq!(c.program, "/home/u/.hermes/bin/tirith");
            assert_eq!(c.args, vec!["doctor".to_string()]);
        }
        other => panic!("unexpected {:?}", other),
    }
    a.handle_key(Key::Down);
    match a.handle_key(Key::Enter) {
        Action::Launch(c) => {
            assert_eq!(c.program, "nano");
            assert_eq!(c.args, vec!["/home/u/.hermes/config.yaml".to_string()]);
        }
        other => panic!("unexpected {:?}", other),
    }
    a.handle_key(Key::Down);
    match a.handle_key(Key::Enter) {
        Action::Launch(c) => {
            assert_eq!(c.program, "tail");
            assert_eq!(c.args, vec!["-f".to_string(), "/home/u/.hermes/logs/agent.log".to_string()]);
        }
        other => panic!("unexpected {:?}", other),
    }
}

#[test]
fn launcher_enter_past_last_entry_does_nothing() {
    let mut a = in_tab(Tab::Launcher);
    a.launcher_selected = Some(7);
    assert!(matches!(a.handle_key(Key::Enter), Action::Idle));
    a.launcher_selected = None;
    assert!(matches!(a.handle_key(Key::Enter), Action::Idle));
}

#[test]
fn enter_on_dashboard_does_nothing() {
    let mut a = app();
    assert!(matches!(a.handle_key(Key::Enter), Action::Idle));
    assert!(matches!(a.handle_key(Key::Other), Action::Idle));
}

#[test]
fn log_keeps_last_hundred_lines() {
    let mut a = app();
    let lines: Vec<String> = (0..150).map(|i| format!("line {}", i)).collect();
    a.set_log_lines(lines);
    assert_eq!(a.log_content.len(), 100);
    assert_eq!(a.log_content[0], "line 50");
    assert_eq!(a.log_content[99], "line 149");
    let few: Vec<String> = (0..3).map(|i| format!("l{}", i)).collect();
    a.set_log_lines(few);
    assert_eq!(a.log_content, vec!["l0".to_string(), "l1".to_string(), "l2".to_string()]);
    let exact: Vec<String> = (0..100).map(|i| format!("e{}", i)).collect();
    a.set_log_lines(exact);
    assert_eq!(a.log_content.len(), 100);
    assert_eq!(a.log_content[0], "e0");
}
