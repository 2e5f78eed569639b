//! What holds of the wizard across calls: the cycles of the tabs and of the launcher,
//! what every step keeps, and how a chat turn ends.
use vstd::prelude::*;
use crate::agent::{
    asked, chat_outcome, error_text, first_content, request_for, user_message, AgentView,
    ChatErrorView, MessageView,
};
use crate::config::{configured_base_url, configured_model, HermesConfig};
use crate::launch::{
    agent_checkout, command_for_files, config_path, files_under, launch_for, launcher_last, log_path,
    HermesFilesView,
};
use crate::screen::{
    dashboard_view, entry_of, entry_with, input_shown, launcher_labels_view, seq_join, tab_position,
    toolsets_text, DashLineView, Tone,
};
use crate::text::uppercased;
use crate::wizard::{
    app_wf, key_step, log_keep, log_tail, reply_message, reply_step, selection_after_next,
    selection_after_prev, tab_after, ActionView, AppView, Key, Tab,
};

verus! {

/// Four presses of Tab come back to the view one started from, and no press stays put.
pub proof fn tab_cycle(t: Tab)
    ensures
        tab_after(tab_after(tab_after(tab_after(t)))) == t,
        tab_after(t) != t,
        tab_after(tab_after(t)) != t,
        tab_after(tab_after(tab_after(t))) != t,
{
}

/// Up undoes Down and Down undoes Up, on every entry of the launcher.
pub proof fn launcher_steps_undo(i: usize)
    requires
        i <= launcher_last(),
    ensures
        selection_after_prev(selection_after_next(Some(i))) == Some(i),
        selection_after_next(selection_after_prev(Some(i))) == Some(i),
{
}

/// Four steps down, or four steps up, come back to the entry one started from.
pub proof fn launcher_cycle(i: usize)
    requires
        i <= launcher_last(),
    ensures
        selection_after_next(selection_after_next(selection_after_next(selection_after_next(Some(i)))))
            == Some(i),
        selection_after_prev(selection_after_prev(selection_after_prev(selection_after_prev(Some(i)))))
            == Some(i),
{
}

/// A step down always lands on an entry of the launcher, and so does a step up from one.
pub proof fn launcher_stays_on_entries(sel: Option<usize>)
    ensures
        selection_after_next(sel) matches Some(j) && j <= launcher_last(),
        (sel matches Some(i) && i <= launcher_last()) ==> (selection_after_prev(sel) matches Some(j)
            && j <= launcher_last()),
{
}

/// The kept log is the end of what was read, and no longer than `log_keep()` lines.
pub proof fn log_tail_is_suffix(lines: Seq<Seq<char>>)
    ensures
        log_tail(lines).len() <= log_keep(),
        log_tail(lines).len() == if lines.len() > log_keep() { log_keep() as int } else { lines.len() as int },
        log_tail(lines) == lines.subrange(lines.len() - log_tail(lines).len(), lines.len() as int),
{
    if lines.len() <= log_keep() {
        assert(lines.subrange(0, lines.len() as int) =~= lines);
    }
}

/// Every key keeps what holds of every state of the wizard.
pub proof fn key_step_keeps_wf(s: AppView, key: Key)
    requires
        app_wf(s),
    ensures
        app_wf(key_step(s, key).0),
{
}

/// A reply keeps what holds of every state of the wizard.
pub proof fn reply_step_keeps_wf(s: AppView, reply: Result<Seq<char>, ChatErrorView>)
    requires
        app_wf(s),
    ensures
        app_wf(reply_step(s, reply)),
{
}

/// Reading the log keeps what holds of every state of the wizard.
pub proof fn log_refresh_keeps_wf(s: AppView, lines: Seq<Seq<char>>)
    requires
        app_wf(s),
    ensures
        app_wf(AppView { logs: log_tail(lines), ..s }),
{
}

/// While a reply is awaited, keys change nothing and ask for nothing.
pub proof fn keys_ignored_while_waiting(s: AppView, key: Key)
    requires
        s.loading,
    ensures
        key_step(s, key) == (s, ActionView::Idle),
{
}

/// When no reply is awaited, `q` quits from every view, the chat included, and changes nothing.
pub proof fn q_quits(s: AppView)
    requires
        !s.loading,
    ensures
        key_step(s, Key::Char('q')) == (s, ActionView::Quit),
{
}

/// In the chat, a typed character followed by Backspace leaves the wizard as it was.
pub proof fn backspace_undoes_typing(s: AppView, c: char)
    requires
        !s.loading,
        s.tab == Tab::Chat,
        c != 'q',
    ensures
        key_step(key_step(s, Key::Char(c)).0, Key::Backspace).0 == s,
{
    assert(s.input.push(c).drop_last() =~= s.input);
}

/// Sending in the chat posts the conversation with the typed text as its last message,
/// waits, and empties the input; the reply then ends the wait, and the conversation
/// holds what it held before, the typed text, and the reply, in that order.
pub proof fn send_then_reply(s: AppView, reply: Result<Seq<char>, ChatErrorView>)
    requires
        !s.loading,
        s.tab == Tab::Chat,
        s.input.len() > 0,
    ensures
        ({
            let (s1, a) = key_step(s, Key::Enter);
            &&& s1.loading
            &&& s1.input.len() == 0
            &&& a matches ActionView::SendChat { url, request } && request.messages == s1.agent.history
                && request.model == s.agent.model
            &&& !reply_step(s1, reply).loading
            &&& reply_step(s1, reply).agent.history == s.agent.history + seq![
                user_message(s.input),
                reply_message(reply),
            ]
        }),
{
    assert(s.agent.history.push(user_message(s.input)).push(reply_message(reply)) =~= s.agent.history
        + seq![user_message(s.input), reply_message(reply)]);
}

/// A turn of the agent keeps the conversation it had, adds what the user said, then the
/// first choice of a reply that offers one; and the request it sends holds exactly the
/// conversation up to what the user said.
pub proof fn chat_turn_extends_history(
    a: AgentView,
    input: Seq<char>,
    reply: Result<Seq<MessageView>, ChatErrorView>,
)
    ensures
        ({
            let (a1, r) = chat_outcome(a, input, reply);
            let n: int = a.history.len() as int;
            &&& a1.base_url == a.base_url && a1.model == a.model
            &&& a1.history.subrange(0, n + 1) == request_for(a, input).messages
            &&& a1.history.subrange(0, n) == a.history
            &&& r is Ok ==> a1.history.len() == n + 2 && a1.history[n + 1].content == r->Ok_0
            &&& r is Err ==> a1.history.len() == n + 1
        }),
{
    let h = asked(a, input);
    assert(h.subrange(0, a.history.len() as int) =~= a.history);
    assert(h.subrange(0, a.history.len() as int + 1) =~= h);
    match reply {
        Ok(cs) => if cs.len() > 0 {
            assert(h.push(cs[0]).subrange(0, a.history.len() as int + 1) =~= h);
            assert(h.push(cs[0]).subrange(0, a.history.len() as int) =~= a.history);
        },
        Err(_) => {},
    }
}

/// Outside the chat, a typed character other than `q` changes nothing and asks for nothing.
pub proof fn typing_outside_chat_changes_nothing(s: AppView, c: char)
    requires
        s.tab != Tab::Chat,
        c != 'q',
    ensures
        key_step(s, Key::Char(c)) == (s, ActionView::Idle),
{
}

/// In the chat, a typed character other than `q` is added at the end of the input, and
/// nothing else changes.
pub proof fn typing_in_chat_appends(s: AppView, c: char)
    requires
        !s.loading,
        s.tab == Tab::Chat,
        c != 'q',
    ensures
        key_step(s, Key::Char(c)).0.input == s.input.push(c),
        key_step(s, Key::Char(c)).0 == (AppView { input: s.input.push(c), ..s }),
        key_step(s, Key::Char(c)).1 == ActionView::Idle,
{
}

/// Outside the chat no key touches the input, the conversation or the wait for a reply.
pub proof fn keys_outside_chat_keep_conversation(s: AppView, key: Key)
    requires
        s.tab != Tab::Chat,
    ensures
        key_step(s, key).0.input == s.input,
        key_step(s, key).0.agent == s.agent,
        key_step(s, key).0.loading == s.loading,
{
}

/// Outside the launcher no key moves the launcher's selection.
pub proof fn keys_outside_launcher_keep_selection(s: AppView, key: Key)
    requires
        s.tab != Tab::Launcher,
    ensures
        key_step(s, key).0.selected == s.selected,
{
}

/// No key changes the kept log lines or the Hermes directory, and only Tab changes the view.
pub proof fn keys_keep_logs_path_and_view(s: AppView, key: Key)
    ensures
        key_step(s, key).0.logs == s.logs,
        key_step(s, key).0.hermes_path == s.hermes_path,
        key != Key::Tab ==> key_step(s, key).0.tab == s.tab,
{
}

/// In the launcher, Down selects the next entry and Up the previous one, wrapping round at
/// the ends, and nothing else changes.
pub proof fn arrows_in_launcher_move_selection(s: AppView, i: usize)
    requires
        !s.loading,
        s.tab == Tab::Launcher,
        s.selected == Some(i),
        i <= launcher_last(),
    ensures
        key_step(s, Key::Down).0 == (AppView {
            selected: Some(if i == launcher_last() { 0 } else { (i + 1) as usize }),
            ..s
        }),
        key_step(s, Key::Up).0 == (AppView {
            selected: Some(if i == 0 { launcher_last() } else { (i - 1) as usize }),
            ..s
        }),
        key_step(s, Key::Down).1 == ActionView::Idle,
        key_step(s, Key::Up).1 == ActionView::Idle,
{
}

/// Tab moves to the next view and changes nothing else; it asks for the log to be read
/// again exactly when it arrives at the log view.
pub proof fn tab_key_moves_view(s: AppView)
    requires
        !s.loading,
    ensures
        key_step(s, Key::Tab).0 == (AppView { tab: tab_after(s.tab), ..s }),
        (key_step(s, Key::Tab).1 == ActionView::RefreshLogs) == (tab_after(s.tab) == Tab::Logs),
        key_step(s, Key::Tab).1 == ActionView::RefreshLogs || key_step(s, Key::Tab).1 == ActionView::Idle,
{
}

/// In the chat, Backspace removes the last typed character, if any, and nothing else;
/// Enter with nothing typed does nothing.
pub proof fn chat_editing(s: AppView)
    requires
        !s.loading,
        s.tab == Tab::Chat,
    ensures
        s.input.len() > 0 ==> key_step(s, Key::Backspace).0 == (AppView { input: s.input.drop_last(), ..s }),
        s.input.len() == 0 ==> key_step(s, Key::Backspace).0 == s,
        s.input.len() == 0 ==> key_step(s, Key::Enter) == (s, ActionView::Idle),
        key_step(s, Key::Backspace).1 == ActionView::Idle,
{
}

/// Enter in the launcher runs the command of the selected entry and changes nothing.
pub proof fn launcher_enter_runs_selected(s: AppView, i: usize)
    requires
        !s.loading,
        s.tab == Tab::Launcher,
        s.selected == Some(i),
        i <= launcher_last(),
    ensures
        launch_for(i, s.hermes_path) is Some,
        key_step(s, Key::Enter) == (s, ActionView::Launch(launch_for(i, s.hermes_path)->Some_0)),
{
}

/// Each press of Tab moves one place to the right along the row of tabs, from the last
/// back to the first.
pub proof fn tab_moves_along_row(t: Tab)
    ensures
        tab_position(t) < 4,
        tab_position(tab_after(t)) == (tab_position(t) + 1) % 4,
{
}

/// Whether `word` occurs in `text`.
pub open spec fn mentions(text: Seq<char>, word: Seq<char>) -> bool {
    exists|i: int|
        0 <= i && i + word.len() <= text.len() && #[trigger] text.subrange(i, i + word.len()) == word
}

/// `word` occurs in `text` where `text` holds it from position `i` on.
pub proof fn mentions_at(text: Seq<char>, word: Seq<char>, i: int)
    requires
        0 <= i,
        i + word.len() <= text.len(),
        text.subrange(i, i + word.len()) =~= word,
    ensures
        mentions(text, word),
{
}

/// Each launcher entry's label names what Enter runs at its position: the agent's command
/// line, tirith's doctor, nano on the configuration file, tail -f on the log; and nothing
/// runs past the last entry. The file that nano edits is the configuration file the wizard
/// reads, and the file that tail follows is the log the wizard shows.
pub proof fn launcher_labels_name_their_commands(files: HermesFilesView, hermes: Seq<char>)
    ensures
        launcher_labels_view().len() == launcher_last() + 1,
        mentions(launcher_labels_view()[0], "CLI"@),
        command_for_files(0, files) matches Some(c) && c.args.len() == 1 && mentions(c.args[0], "cli.py"@),
        mentions(launcher_labels_view()[1], "doctor"@),
        command_for_files(1, files) matches Some(c) && c.program == files.tirith && c.args == seq!["doctor"@],
        mentions(launcher_labels_view()[2], "nano"@),
        command_for_files(2, files) matches Some(c) && c.program == "nano"@ && c.args == seq![files.config],
        mentions(launcher_labels_view()[3], "tail -f"@),
        command_for_files(3, files) matches Some(c) && c.program == "tail"@ && c.args == seq!["-f"@, files.log],
        forall|i: usize| i > launcher_last() ==> command_for_files(i, files) is None,
        launch_for(2, hermes) matches Some(c) && c.args == seq![config_path(hermes)],
        launch_for(3, hermes) matches Some(c) && c.args == seq!["-f"@, log_path(hermes)],
{
    let l0 = "🚀 Launch Hermes Interactive CLI (Python Fallback)";
    let l1 = "⚕️  Run Tirith Security Diagnosis (doctor)";
    let l2 = "⚙️  Edit Configuration (nano ~/.hermes/config.yaml)";
    let l3 = "📋 View Live Logs (tail -f ~/.hermes/logs/agent.log)";
    reveal_strlit("🚀 Launch Hermes Interactive CLI (Python Fallback)");
    reveal_strlit("⚕️  Run Tirith Security Diagnosis (doctor)");
    reveal_strlit("⚙️  Edit Configuration (nano ~/.hermes/config.yaml)");
    reveal_strlit("📋 View Live Logs (tail -f ~/.hermes/logs/agent.log)");
    reveal_strlit("CLI");
    reveal_strlit("doctor");
    reveal_strlit("nano");
    reveal_strlit("tail -f");
    reveal_strlit("cli.py");
    reveal_strlit("/cli.py");
    reveal_strlit("/home/jeb/programs/hermes-agent-commissioning-20260401_175500/hermes-agent");
    let labels = launcher_labels_view();
    mentions_at(labels[0], "CLI"@, 28);
    mentions_at(labels[1], "doctor"@, 35);
    mentions_at(labels[2], "nano"@, 24);
    mentions_at(labels[3], "tail -f"@, 18);
    let a = agent_checkout() + "/cli.py"@;
    mentions_at(a, "cli.py"@, 75);
}

/// A shown message carries the text of its message, whatever its role; its header is the
/// role in upper case and a colon; it is marked as the user's exactly when the role is `user`.
pub proof fn shown_messages_carry_their_text(upper: Seq<char>, m: MessageView)
    ensures
        entry_with(upper, m).content == m.content,
        entry_with(upper, m).header == upper + ": "@,
        entry_with(upper, m).from_user == (m.role == "user"@),
        entry_of(m).content == m.content,
        entry_of(m).header == uppercased(m.role) + ": "@,
        entry_of(m).from_user == (m.role == "user"@),
{
}

/// The input box shows `Sending...` while a reply is awaited and what was typed otherwise.
pub proof fn input_box_text(input: Seq<char>)
    ensures
        input_shown(true, input) == "Sending..."@,
        input_shown(false, input) == input,
{
}

/// Joining no names gives nothing, one name gives that name, and one more name adds the
/// separator and that name at the end.
pub proof fn join_extends(list: Seq<Seq<char>>, sep: Seq<char>, x: Seq<char>)
    ensures
        seq_join(Seq::empty(), sep) == Seq::<char>::empty(),
        seq_join(seq![x], sep) == x,
        list.len() > 0 ==> seq_join(list.push(x), sep) == seq_join(list, sep) + sep + x,
{
    assert(list.push(x).drop_last() =~= list);
}

/// Every name occurs in the joined text.
pub proof fn join_mentions_every_name(list: Seq<Seq<char>>, sep: Seq<char>, i: int)
    requires
        0 <= i < list.len(),
    ensures
        mentions(seq_join(list, sep), list[i]),
    decreases list.len(),
{
    let j = seq_join(list, sep);
    if list.len() == 1 {
        mentions_at(j, list[0], 0);
    } else if i == list.len() - 1 {
        let k: int = (seq_join(list.drop_last(), sep).len() + sep.len()) as int;
        mentions_at(j, list[i], k);
    } else {
        let front = seq_join(list.drop_last(), sep);
        join_mentions_every_name(list.drop_last(), sep, i);
        assert(list.drop_last()[i] == list[i]);
        let w = choose|w: int|
            0 <= w && w + list[i].len() <= front.len() && #[trigger] front.subrange(w, w + list[i].len()) == list[i];
        assert(j.subrange(w, w + list[i].len()) =~= front.subrange(w, w + list[i].len()));
        mentions_at(j, list[i], w);
    }
}

/// The toolsets line reads `none` for an empty list, and otherwise mentions every toolset.
pub proof fn toolsets_text_names_all(names: Seq<Seq<char>>, i: int)
    requires
        0 <= i < names.len(),
    ensures
        toolsets_text(Seq::empty()) == "none"@,
        mentions(toolsets_text(names), names[i]),
{
    join_mentions_every_name(names, ", "@, i);
}

/// The dashboard shows the Hermes directory and whether it is present, then each configured
/// setting as configured: the default model and provider (or `N/A`), the toolsets, and the
/// log level (or `INFO`), the log level last; without a configuration it warns instead.
pub proof fn dashboard_shows_settings(hermes: Seq<char>, present: bool, c: HermesConfig)
    ensures
        ({
            let d = dashboard_view(hermes, present, Some(c));
            let t: int = if c.model is Some { 5 } else { 3 };
            &&& d[0].label == "Hermes Path: "@ && d[0].value == hermes
            &&& d[1].value == (if present { "Hermes directory present"@ } else { "Hermes directory missing"@ })
            &&& d.len() == t + (if c.toolsets is Some { 1int } else { 0 }) + (if c.logging is Some { 1int } else { 0 })
            &&& c.model matches Some(m) ==> {
                &&& d[3].label == "Default Model: "@
                &&& (m.default matches Some(v) ==> d[3].value == v@)
                &&& (m.default is None ==> d[3].value == "N/A"@)
                &&& d[4].label == "Provider:      "@
                &&& (m.provider matches Some(v) ==> d[4].value == v@)
                &&& (m.provider is None ==> d[4].value == "N/A"@)
            }
            &&& c.toolsets matches Some(ts) ==> d[t].label == "Toolsets:      "@
                && d[t].value == toolsets_text(ts@.map_values(|s: String| s@))
            &&& c.logging matches Some(l) ==> {
                &&& d.last().label == "Log Level:      "@
                &&& d.last().tone == Tone::Level
                &&& (l.level matches Some(v) ==> d.last().value == v@)
                &&& (l.level is None ==> d.last().value == "INFO"@)
            }
        }),
        ({
            let d = dashboard_view(hermes, present, None);
            &&& d.len() == 4
            &&& d[3].value == "Failed to load config.yaml"@ && d[3].tone == Tone::Alert
        }),
{
}

/// The model and the service address come from the configuration's model section, each
/// from its own setting, independently of the other.
pub proof fn configured_settings_are_independent(cfg: HermesConfig)
    ensures
        cfg.model matches Some(m) ==> {
            &&& (m.default matches Some(d) ==> configured_model(Some(cfg)) == Some(d@))
            &&& (m.default is None ==> configured_model(Some(cfg)) is None)
            &&& (m.base_url matches Some(u) ==> configured_base_url(Some(cfg)) == Some(u@))
            &&& (m.base_url is None ==> configured_base_url(Some(cfg)) is None)
        },
        cfg.model is None ==> configured_model(Some(cfg)) is None && configured_base_url(Some(cfg)) is None,
        configured_model(None) is None && configured_base_url(None) is None,
{
}

/// A reply joins the chat as the assistant's: its text when it came, `Error: ` and the
/// reason when it did not.
pub proof fn reply_joins_as_assistant(r: Result<Seq<char>, ChatErrorView>)
    ensures
        reply_message(r).role == "assistant"@,
        r matches Ok(t) ==> reply_message(r).content == t,
        r matches Err(e) ==> reply_message(r).content == "Error: "@ + error_text(e),
        error_text(ChatErrorView::NoResponse) == "No response from model"@,
        error_text(ChatErrorView::NoContent) == "No content"@,
        forall|t: Seq<char>| error_text(ChatErrorView::Transport(t)) == t,
{
}

/// The text of a reply is that of its first choice when that choice has text, and
/// otherwise there is none.
pub proof fn reply_text_is_first_choice(contents: Seq<Option<Seq<char>>>)
    ensures
        contents.len() > 0 && contents[0] is Some ==> first_content(contents) == Ok::<Seq<char>, ChatErrorView>(
            contents[0]->0,
        ),
        (contents.len() == 0 || contents[0] is None) ==> first_content(contents) is Err,
{
}

/// A turn answered with choices records the first and returns its text; a turn answered
/// with none fails with `NoResponse`; a failed exchange passes its error on.
pub proof fn chat_turn_answers(a: AgentView, input: Seq<char>, reply: Result<Seq<MessageView>, ChatErrorView>)
    ensures
        reply matches Ok(cs) ==> (cs.len() > 0 ==> chat_outcome(a, input, reply).1
            == Ok::<Seq<char>, ChatErrorView>(cs[0].content) && chat_outcome(a, input, reply).0.history.last()
            == cs[0]),
        reply matches Ok(cs) ==> (cs.len() == 0 ==> chat_outcome(a, input, reply).1
            == Err::<Seq<char>, ChatErrorView>(ChatErrorView::NoResponse)),
        reply matches Err(e) ==> chat_outcome(a, input, reply).1 == Err::<Seq<char>, ChatErrorView>(e),
        chat_outcome(a, input, reply).0.history[a.history.len() as int] == user_message(input),
        user_message(input).role == "user"@ && user_message(input).content == input,
{
}

} // verus!
