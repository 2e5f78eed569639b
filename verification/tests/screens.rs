use hermes_agent_wizard::agent::Message;
use hermes_agent_wizard::launch::{command_for, hermes_files, HermesFiles};
use hermes_agent_wizard::screen::chat_entry;
use hermes_agent_wizard::cli::wants_help;
use hermes_agent_wizard::config::{base_url_of, model_of, HermesConfig, LoggingConfig, ModelConfig};
use hermes_agent_wizard::launch::{config_file, hermes_dir, launch_command, log_file};
use hermes_agent_wizard::screen::{
    chat_entries, dashboard_lines, help_text, input_display, join_names, launcher_labels, panel_title, tab_index,
    tab_titles, toolsets_shown, Panel, Tone,
};
use hermes_agent_wizard::wizard::{App, Key, Tab};

#[test]
fn tab_indices_and_titles() {
    assert_eq!(tab_index(Tab::Dashboard), 0);
    assert_eq!(tab_index(Tab::Chat), 1);
    assert_eq!(tab_index(Tab::Launcher), 2);
    assert_eq!(tab_index(Tab::Logs), 3);
    assert_eq!(tab_titles(), vec![" Dashboard ", " Chat (BETA) ", " Launcher ", " Logs "]);
}

#[test]
fn help_per_tab() {
    assert_eq!(help_text(Tab::Dashboard), "Tab: Switch | q: Quit");
    assert_eq!(help_text(Tab::Chat), "Enter: Send | Backspace: Delete | Tab: Switch | q: Quit");
    assert_eq!(help_text(Tab::Launcher), "↑/↓: Select | Enter: Execute | Tab: Switch | q: Quit");
    assert_eq!(help_text(Tab::Logs), "Tab: Switch | q: Quit");
}

#[test]
fn launcher_has_four_entries() {
    let l = launcher_labels();
    assert_eq!(l.len(), 4);
    assert!(l[2].contains("nano"));
}

#[test]
fn dashboard_without_config_warns() {
    let a = App::new("/h/.hermes".to_string(), None);
    let d = dashboard_lines(&a, true);
    assert_eq!(d.len(), 4);
    assert_eq!(d[0].label, "Hermes Path: ");
    assert_eq!(d[0].value, "/h/.hermes");
    assert_eq!(d[0].tone, Tone::Location);
    assert_eq!(d[1].label, "Status:        ");
    assert_eq!(d[1].value, "Hermes directory present");
    assert_eq!(d[1].tone, Tone::Location);
    assert_eq!(d[2].label, "");
    assert_eq!(d[2].value, "");
    assert_eq!(d[3].value, "Failed to load config.yaml");
    assert_eq!(d[3].tone, Tone::Alert);
}

#[test]
fn dashboard_reports_missing_directory() {
    let a = App::new("/h/.hermes".to_string(), None);
    let d = dashboard_lines(&a, false);
    assert_eq!(d[1].value, "Hermes directory missing");
    assert_eq!(d[1].tone, Tone::Alert);
}

#[test]
fn dashboard_with_config_fills_defaults() {
    let cfg = HermesConfig {
        model: Some(ModelConfig { default: Some("qwen".to_string()), base_url: None, provider: None }),
        logging: Some(LoggingConfig { level: None }),
        toolsets: Some(vec!["web".to_string(), "terminal".to_string()]),
    };
    let a = App::new("/h".to_string(), Some(cfg));
    let d = dashboard_lines(&a, true);
    assert_eq!(d.len(), 7);
    assert_eq!(d[3].label, "Default Model: ");
    assert_eq!(d[3].value, "qwen");
    assert_eq!(d[4].label, "Provider:      ");
    assert_eq!(d[4].value, "N/A");
    assert_eq!(d[5].label, "Toolsets:      ");
    assert_eq!(d[5].value, "web, terminal");
    assert_eq!(d[6].label, "Log Level:      ");
    assert_eq!(d[6].value, "INFO");
    assert_eq!(d[6].tone, Tone::Level);
}

#[test]
fn dashboard_lists_toolsets_alone() {
    let cfg = HermesConfig { model: None, logging: None, toolsets: Some(vec!["web".to_string()]) };
    let a = App::new("/h".to_string(), Some(cfg));
    let d = dashboard_lines(&a, true);
    assert_eq!(d.len(), 4);
    assert_eq!(d[3].label, "Toolsets:      ");
    assert_eq!(d[3].value, "web");
    let none = HermesConfig { model: None, logging: None, toolsets: Some(vec![]) };
    let b = App::new("/h".to_string(), Some(none));
    assert_eq!(dashboard_lines(&b, true)[3].value, "none");
}

#[test]
fn toolset_names_joined_by_commas() {
    assert_eq!(join_names(&vec![], ", "), "");
    assert_eq!(join_names(&vec!["a".to_string()], ", "), "a");
    assert_eq!(join_names(&vec!["a".to_string(), "b".to_string(), "c".to_string()], "/"), "a/b/c");
    assert_eq!(toolsets_shown(&vec![]), "none");
}

#[test]
fn panel_titles() {
    assert_eq!(panel_title(Panel::Header), " Hermes Agent Wizard ");
    assert_eq!(panel_title(Panel::Help), " Help ");
    assert_eq!(panel_title(Panel::History), " Conversation History ");
    assert_eq!(panel_title(Panel::Input), " Send Message ");
    assert_eq!(panel_title(Panel::Logs), " Recent Logs (Last 100 lines) ");
}

#[test]
fn dashboard_with_empty_config_has_only_path() {
    let cfg = HermesConfig { model: None, logging: None, toolsets: None };
    let a = App::new("/h".to_string(), Some(cfg));
    assert_eq!(dashboard_lines(&a, true).len(), 3);
}

#[test]
fn chat_entries_name_speaker() {
    let mut a = App::new("/h".to_string(), None);
    a.next_tab();
    a.handle_key(Key::Char('h'));
    a.handle_key(Key::Enter);
    a.receive_reply(Ok("yo".to_string()));
    let e = chat_entries(&a);
    assert_eq!(e.len(), 2);
    assert_eq!(e[0].header, "USER: ");
    assert_eq!(e[0].content, "h");
    assert!(e[0].from_user);
    assert_eq!(e[1].header, "ASSISTANT: ");
    assert!(!e[1].from_user);
}

#[test]
fn input_box_shows_sending_while_waiting() {
    let mut a = App::new("/h".to_string(), None);
    a.next_tab();
    a.handle_key(Key::Char('h'));
    assert_eq!(input_display(&a), "h");
    a.handle_key(Key::Enter);
    assert_eq!(input_display(&a), "Sending...");
}

#[test]
fn paths_under_hermes_dir() {
    assert_eq!(hermes_dir(Some("/home/ann".to_string())), "/home/ann/.hermes");
    assert_eq!(hermes_dir(Some("/home/ann/".to_string())), "/home/ann/.hermes");
    assert_eq!(hermes_dir(None), "/home/jeb/.hermes");
    assert_eq!(config_file("/x/.hermes"), "/x/.hermes/config.yaml");
    assert_eq!(log_file("/x/.hermes"), "/x/.hermes/logs/agent.log");
    assert!(launch_command(4, "/x").is_none());
}

#[test]
fn config_defaults() {
    assert_eq!(base_url_of(&None), "http://localhost:11434/v1");
    assert_eq!(model_of(&None), "qwen3.5:4b");
    let cfg = Some(HermesConfig {
        model: Some(ModelConfig { default: None, base_url: Some("http://b".to_string()), provider: None }),
        logging: None,
        toolsets: None,
    });
    assert_eq!(base_url_of(&cfg), "http://b");
    assert_eq!(model_of(&cfg), "qwen3.5:4b");
}

#[test]
fn help_flags_are_found_anywhere() {
    assert!(wants_help(&vec!["wizard".to_string(), "--help".to_string()]));
    assert!(wants_help(&vec!["wizard".to_string(), "x".to_string(), "-h".to_string()]));
    assert!(!wants_help(&vec!["wizard".to_string(), "--helpme".to_string()]));
    assert!(!wants_help(&vec![]));
}

#[test]
fn commands_from_given_files() {
    let files = HermesFiles { tirith: "/t".to_string(), config: "/c".to_string(), log: "/l".to_string() };
    let c = command_for(1, &files).unwrap();
    assert_eq!(c.program, "/t");
    assert_eq!(c.args, vec!["doctor".to_string()]);
    let c = command_for(3, &files).unwrap();
    assert_eq!(c.args, vec!["-f".to_string(), "/l".to_string()]);
    assert!(command_for(4, &files).is_none());
    let f = hermes_files("/r/.hermes");
    assert_eq!(f.tirith, "/r/.hermes/bin/tirith");
    assert_eq!(f.config, "/r/.hermes/config.yaml");
    assert_eq!(f.log, "/r/.hermes/logs/agent.log");
}

#[test]
fn chat_entry_uses_given_upper_role() {
    let e = chat_entry("USER", &Message::new("user", "hey"));
    assert_eq!(e.header, "USER: ");
    assert_eq!(e.content, "hey");
    assert!(e.from_user);
    let e = chat_entry("SYSTEM", &Message::new("User", "x"));
    assert_eq!(e.header, "SYSTEM: ");
    assert!(!e.from_user);
}
