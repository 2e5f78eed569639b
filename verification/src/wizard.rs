//! The wizard's state and how it answers each key, each reply of the model and each
//! reading of the log file. Drawing, reading files, running programs and talking to the
//! model are left to the caller, which the returned `Action` tells what to do.
use vstd::prelude::*;
use crate::agent::{
    answer_view, asked, assistant_message, completions_url, error_text, history_view, request_for,
    user_message, Agent, AgentView, ChatError, ChatErrorView, ChatRequest, ChatRequestView, Message,
};
use crate::config::{
    base_url_of, configured_base_url, configured_model, fallback_base_url, fallback_model, model_of,
    or_else, HermesConfig,
};
use crate::launch::{launch_command, launch_for, launcher_last, LaunchCommand, LaunchCommandView};
use crate::text::joined_text;

verus! {

/// The views of the wizard.
#[derive(PartialEq, Eq, Structural, Clone, Copy, Debug)]
pub enum Tab {
    Dashboard,
    Chat,
    Launcher,
    Logs,
}

/// The view that follows `t` in the cycle Dashboard, Chat, Launcher, Logs.
pub open spec fn tab_after(t: Tab) -> Tab {
    match t {
        Tab::Dashboard => Tab::Chat,
        Tab::Chat => Tab::Launcher,
        Tab::Launcher => Tab::Logs,
        Tab::Logs => Tab::Dashboard,
    }
}

/// The launcher's selection after a step down: the next entry, from the last back to
/// the first, and the first where nothing was selected.
pub open spec fn selection_after_next(sel: Option<usize>) -> Option<usize> {
    match sel {
        Some(i) => Some(if i >= launcher_last() { 0 } else { (i + 1) as usize }),
        None => Some(0),
    }
}

/// The launcher's selection after a step up: the previous entry, from the first round
/// to the last, and the first where nothing was selected.
pub open spec fn selection_after_prev(sel: Option<usize>) -> Option<usize> {
    match sel {
        Some(i) => Some(if i == 0 { launcher_last() } else { (i - 1) as usize }),
        None => Some(0),
    }
}

/// The most lines of the log that are kept.
pub open spec fn log_keep() -> nat {
    100
}

/// The last `log_keep()` lines of `lines`, or all of them where there are fewer.
pub open spec fn log_tail(lines: Seq<Seq<char>>) -> Seq<Seq<char>> {
    if lines.len() > log_keep() {
        lines.subrange(lines.len() - log_keep(), lines.len() as int)
    } else {
        lines
    }
}

/// A key as the wizard reads it.
#[derive(PartialEq, Eq, Structural, Clone, Copy, Debug)]
pub enum Key {
    Char(char),
    Tab,
    Backspace,
    Enter,
    Up,
    Down,
    Other,
}

/// What the caller is to do after a key.
#[derive(Debug)]
pub enum Action {
    /// Nothing beyond drawing the next frame.
    Idle,
    /// Leave the wizard.
    Quit,
    /// Read the log file again and hand its lines to `App::set_log_lines`.
    RefreshLogs,
    /// Post `request` to `url` and hand the answer to `App::receive_reply`.
    SendChat { url: String, request: ChatRequest },
    /// Run the command, with the terminal handed over to it.
    Launch(LaunchCommand),
}

pub enum ActionView {
    Idle,
    Quit,
    RefreshLogs,
    SendChat { url: Seq<char>, request: ChatRequestView },
    Launch(LaunchCommandView),
}

impl View for Action {
    type V = ActionView;

    open spec fn view(&self) -> ActionView {
        match self {
            Action::Idle => ActionView::Idle,
            Action::Quit => ActionView::Quit,
            Action::RefreshLogs => ActionView::RefreshLogs,
            Action::SendChat { url, request } => ActionView::SendChat { url: url@, request: request@ },
            Action::Launch(c) => ActionView::Launch(c@),
        }
    }
}

/// The wizard's state as text and numbers.
pub struct AppView {
    pub tab: Tab,
    pub selected: Option<usize>,
    pub logs: Seq<Seq<char>>,
    pub hermes_path: Seq<char>,
    pub agent: AgentView,
    pub input: Seq<char>,
    pub loading: bool,
}

/// What holds of every state the wizard is in: a launcher entry is selected, and no
/// more than `log_keep()` lines of the log are kept.
pub open spec fn app_wf(s: AppView) -> bool {
    &&& s.selected matches Some(i) && i <= launcher_last()
    &&& s.logs.len() <= log_keep()
}

/// The state after a key, and what the caller is to do.
pub open spec fn key_step(s: AppView, key: Key) -> (AppView, ActionView) {
    if s.loading {
        (s, ActionView::Idle)
    } else {
        match key {
            Key::Char(c) => if c == 'q' {
                (s, ActionView::Quit)
            } else if s.tab == Tab::Chat {
                (AppView { input: s.input.push(c), ..s }, ActionView::Idle)
            } else {
                (s, ActionView::Idle)
            },
            Key::Tab => {
                let t = tab_after(s.tab);
                (AppView { tab: t, ..s }, if t == Tab::Logs { ActionView::RefreshLogs } else { ActionView::Idle })
            },
            Key::Backspace => if s.tab == Tab::Chat && s.input.len() > 0 {
                (AppView { input: s.input.drop_last(), ..s }, ActionView::Idle)
            } else {
                (s, ActionView::Idle)
            },
            Key::Enter => if s.tab == Tab::Chat {
                if s.input.len() > 0 {
                    (
                        AppView {
                            agent: AgentView { history: asked(s.agent, s.input), ..s.agent },
                            input: Seq::empty(),
                            loading: true,
                            ..s
                        },
                        ActionView::SendChat {
                            url: completions_url(s.agent.base_url),
                            request: request_for(s.agent, s.input),
                        },
                    )
                } else {
                    (s, ActionView::Idle)
                }
            } else if s.tab == Tab::Launcher {
                match s.selected {
                    Some(i) => match launch_for(i, s.hermes_path) {
                        Some(c) => (s, ActionView::Launch(c)),
                        None => (s, ActionView::Idle),
                    },
                    None => (s, ActionView::Idle),
                }
            } else {
                (s, ActionView::Idle)
            },
            Key::Down => if s.tab == Tab::Launcher {
                (AppView { selected: selection_after_next(s.selected), ..s }, ActionView::Idle)
            } else {
                (s, ActionView::Idle)
            },
            Key::Up => if s.tab == Tab::Launcher {
                (AppView { selected: selection_after_prev(s.selected), ..s }, ActionView::Idle)
            } else {
                (s, ActionView::Idle)
            },
            Key::Other => (s, ActionView::Idle),
        }
    }
}

/// The message that a reply of the model, or the failure to get one, adds to the chat.
pub open spec fn reply_message(reply: Result<Seq<char>, ChatErrorView>) -> crate::agent::MessageView {
    match reply {
        Ok(content) => assistant_message(content),
        Err(e) => assistant_message("Error: "@ + error_text(e)),
    }
}

/// The state once a reply of the model, or the failure to get one, has come back.
pub open spec fn reply_step(s: AppView, reply: Result<Seq<char>, ChatErrorView>) -> AppView {
    AppView {
        agent: AgentView { history: s.agent.history.push(reply_message(reply)), ..s.agent },
        loading: false,
        ..s
    }
}

/// The state of the wizard.
#[derive(Debug)]
pub struct App {
    pub current_tab: Tab,
    pub config: Option<HermesConfig>,
    pub launcher_selected: Option<usize>,
    pub log_content: Vec<String>,
    pub hermes_path: String,
    pub agent: Agent,
    pub input: String,
    pub is_loading: bool,
}

impl View for App {
    type V = AppView;

    open spec fn view(&self) -> AppView {
        AppView {
            tab: self.current_tab,
            selected: self.launcher_selected,
            logs: self.log_content@.map_values(|s: String| s@),
            hermes_path: self.hermes_path@,
            agent: self.agent@,
            input: self.input@,
            loading: self.is_loading,
        }
    }
}

impl App {
    /// The wizard as it starts: on the dashboard, with the first launcher entry selected,
    /// no log lines yet, and an agent for the configured service and model.
    pub fn new(hermes_path: String, config: Option<HermesConfig>) -> (a: App)
        ensures
            a@ == (AppView {
                tab: Tab::Dashboard,
                selected: Some(0),
                logs: Seq::empty(),
                hermes_path: hermes_path@,
                agent: AgentView {
                    base_url: or_else(configured_base_url(config), fallback_base_url()),
                    model: or_else(configured_model(config), fallback_model()),
                    history: Seq::empty(),
                },
                input: Seq::empty(),
                loading: false,
            }),
            a.config == config,
            app_wf(a@),
    {
        let base_url = base_url_of(&config);
        let model = model_of(&config);
        let agent = Agent::new(base_url.as_str(), model.as_str());
        let a = App {
            current_tab: Tab::Dashboard,
            config,
            launcher_selected: Some(0),
            log_content: Vec::new(),
            hermes_path,
            agent,
            input: String::new(),
            is_loading: false,
        };
        assert(a@.logs =~= Seq::empty());
        a
    }

    /// Moves to the next view; says whether that view is the log, whose lines are then
    /// to be read again.
    pub fn next_tab(&mut self) -> (refresh: bool)
        ensures
            final(self)@ == (AppView { tab: tab_after(old(self)@.tab), ..old(self)@ }),
            refresh == (tab_after(old(self)@.tab) == Tab::Logs),
            final(self).config == old(self).config,
    {
        self.current_tab = match self.current_tab {
            Tab::Dashboard => Tab::Chat,
            Tab::Chat => Tab::Launcher,
            Tab::Launcher => Tab::Logs,
            Tab::Logs => Tab::Dashboard,
        };
        match self.current_tab {
            Tab::Logs => true,
            _ => false,
        }
    }

    /// Selects the next launcher entry, wrapping round after the last.
    pub fn launcher_next(&mut self)
        ensures
            final(self)@ == (AppView { selected: selection_after_next(old(self)@.selected), ..old(self)@ }),
            final(self).config == old(self).config,
    {
        let i: usize = match self.launcher_selected {
            Some(i) => if i >= 3 { 0 } else { i + 1 },
            None => 0,
        };
        self.launcher_selected = Some(i);
    }

    /// Selects the previous launcher entry, wrapping round before the first.
    pub fn launcher_prev(&mut self)
        ensures
            final(self)@ == (AppView { selected: selection_after_prev(old(self)@.selected), ..old(self)@ }),
            final(self).config == old(self).config,
    {
        let i: usize = match self.launcher_selected {
            Some(i) => if i == 0 { 3 } else { i - 1 },
            None => 0,
        };
        self.launcher_selected = Some(i);
    }

    /// Keeps the last lines of the log that was read, at most `log_keep()` of them.
    pub fn set_log_lines(&mut self, lines: Vec<String>)
        ensures
            final(self)@ == (AppView { logs: log_tail(lines@.map_values(|s: String| s@)), ..old(self)@ }),
            final(self).config == old(self).config,
    {
        let mut lines = lines;
        let ghost all = lines@;
        if lines.len() > 100 {
            let at = lines.len() - 100;
            let kept = lines.split_off(at);
            self.log_content = kept;
            assert(self.log_content@.map_values(|s: String| s@) =~= log_tail(all.map_values(|s: String| s@)));
        } else {
            self.log_content = lines;
        }
    }

    /// Answers a key, and says what the caller is to do.
    pub fn handle_key(&mut self, key: Key) -> (a: Action)
        ensures
            (final(self)@, a@) == key_step(old(self)@, key),
            final(self).config == old(self).config,
    {
        if self.is_loading {
            return Action::Idle;
        }
        let in_chat = match self.current_tab {
            Tab::Chat => true,
            _ => false,
        };
        let in_launcher = match self.current_tab {
            Tab::Launcher => true,
            _ => false,
        };
        match key {
            Key::Char(c) => {
                if c == 'q' {
                    Action::Quit
                } else if in_chat {
                    self.input.push(c);
                    Action::Idle
                } else {
                    Action::Idle
                }
            },
            Key::Tab => {
                if self.next_tab() {
                    Action::RefreshLogs
                } else {
                    Action::Idle
                }
            },
            Key::Backspace => {
                if in_chat {
                    self.input.pop();
                }
                Action::Idle
            },
            Key::Enter => {
                if in_chat {
                    if !self.input.as_str().is_empty() {
                        self.send_input()
                    } else {
                        Action::Idle
                    }
                } else if in_launcher {
                    match self.launcher_selected {
                        Some(i) => match launch_command(i, self.hermes_path.as_str()) {
                            Some(c) => Action::Launch(c),
                            None => Action::Idle,
                        },
                        None => Action::Idle,
                    }
                } else {
                    Action::Idle
                }
            },
            Key::Down => {
                if in_launcher {
                    self.launcher_next();
                }
                Action::Idle
            },
            Key::Up => {
                if in_launcher {
                    self.launcher_prev();
                }
                Action::Idle
            },
            Key::Other => Action::Idle,
        }
    }

    /// Sends what was typed: it joins the conversation, the input is emptied, and the
    /// wizard waits for the reply.
    fn send_input(&mut self) -> (a: Action)
        requires
            old(self).input@.len() > 0,
        ensures
            final(self)@ == (AppView {
                agent: AgentView { history: asked(old(self)@.agent, old(self)@.input), ..old(self)@.agent },
                input: Seq::empty(),
                loading: true,
                ..old(self)@
            }),
            a@ == (ActionView::SendChat {
                url: completions_url(old(self)@.agent.base_url),
                request: request_for(old(self)@.agent, old(self)@.input),
            }),
            final(self).config == old(self).config,
    {
        let input = self.input.clone();
        self.input = String::new();
        self.is_loading = true;
        let request = self.agent.chat_request(input.as_str());
        let ghost before = self.agent.history@;
        self.agent.history.push(Message::from_user(input.as_str()));
        assert(history_view(self.agent.history@) =~= history_view(before).push(user_message(input@)));
        let url = self.agent.chat_url();
        Action::SendChat { url, request }
    }

    /// Takes in the model's reply, or the failure to get one: it joins the conversation
    /// as the assistant's message, an error as its text after `Error: `, and the wizard
    /// stops waiting.
    pub fn receive_reply(&mut self, reply: Result<String, ChatError>)
        ensures
            final(self)@ == reply_step(old(self)@, answer_view(reply)),
            final(self).config == old(self).config,
    {
        self.is_loading = false;
        let content = match &reply {
            Ok(c) => c.clone(),
            Err(e) => {
                let d = e.describe();
                joined_text("Error: ", d.as_str())
            },
        };
        let ghost before = self.agent.history@;
        self.agent.history.push(Message::from_assistant(content.as_str()));
        assert(history_view(self.agent.history@) =~= history_view(before).push(reply_message(answer_view(reply))));
    }
}

} // verus!
