//! What each view of the wizard shows, as text; the caller draws it.
use vstd::prelude::*;
use vstd::string::StringExecFns;
use crate::agent::{history_view, user_role, Message, MessageView};
use crate::config::{or_else, HermesConfig, LoggingConfig, ModelConfig};
use crate::text::{joined_text, opt_view, same_text, text_of, to_upper, uppercased};
use crate::wizard::{App, Tab};

verus! {

/// The position of a view in the row of tabs.
pub open spec fn tab_position(t: Tab) -> usize {
    match t {
        Tab::Dashboard => 0,
        Tab::Chat => 1,
        Tab::Launcher => 2,
        Tab::Logs => 3,
    }
}

/// The position of the view `t` in the row of tabs.
pub fn tab_index(t: Tab) -> (i: usize)
    ensures
        i == tab_position(t),
{
    match t {
        Tab::Dashboard => 0,
        Tab::Chat => 1,
        Tab::Launcher => 2,
        Tab::Logs => 3,
    }
}

/// The titles of the tabs, in their order.
pub open spec fn tab_titles_view() -> Seq<Seq<char>> {
    seq![" Dashboard "@, " Chat (BETA) "@, " Launcher "@, " Logs "@]
}

/// The titles of the tabs, in their order.
pub fn tab_titles() -> (t: Vec<String>)
    ensures
        t@.map_values(|s: String| s@) == tab_titles_view(),
{
    let mut t: Vec<String> = Vec::new();
    t.push(text_of(" Dashboard "));
    t.push(text_of(" Chat (BETA) "));
    t.push(text_of(" Launcher "));
    t.push(text_of(" Logs "));
    assert(t@.map_values(|s: String| s@) =~= tab_titles_view());
    t
}

/// The framed areas of the screen.
#[derive(PartialEq, Eq, Structural, Clone, Copy, Debug)]
pub enum Panel {
    /// The row of tabs.
    Header,
    /// The key help under every view.
    Help,
    Dashboard,
    /// The conversation in the chat view.
    History,
    /// The input box in the chat view.
    Input,
    Launcher,
    Logs,
}

/// The title on the frame of a panel.
pub open spec fn panel_title_text(p: Panel) -> Seq<char> {
    match p {
        Panel::Header => " Hermes Agent Wizard "@,
        Panel::Help => " Help "@,
        Panel::Dashboard => " Dashboard "@,
        Panel::History => " Conversation History "@,
        Panel::Input => " Send Message "@,
        Panel::Launcher => " Launcher "@,
        Panel::Logs => " Recent Logs (Last 100 lines) "@,
    }
}

/// The title on the frame of the panel `p`.
pub fn panel_title(p: Panel) -> (t: String)
    ensures
        t@ == panel_title_text(p),
{
    match p {
        Panel::Header => text_of(" Hermes Agent Wizard "),
        Panel::Help => text_of(" Help "),
        Panel::Dashboard => text_of(" Dashboard "),
        Panel::History => text_of(" Conversation History "),
        Panel::Input => text_of(" Send Message "),
        Panel::Launcher => text_of(" Launcher "),
        Panel::Logs => text_of(" Recent Logs (Last 100 lines) "),
    }
}

/// The key help shown under the view `t`.
pub open spec fn help_for(t: Tab) -> Seq<char> {
    match t {
        Tab::Dashboard => "Tab: Switch | q: Quit"@,
        Tab::Chat => "Enter: Send | Backspace: Delete | Tab: Switch | q: Quit"@,
        Tab::Launcher => "↑/↓: Select | Enter: Execute | Tab: Switch | q: Quit"@,
        Tab::Logs => "Tab: Switch | q: Quit"@,
    }
}

/// The key help shown under the view `t`.
pub fn help_text(t: Tab) -> (h: String)
    ensures
        h@ == help_for(t),
{
    match t {
        Tab::Dashboard => text_of("Tab: Switch | q: Quit"),
        Tab::Chat => text_of("Enter: Send | Backspace: Delete | Tab: Switch | q: Quit"),
        Tab::Launcher => text_of("↑/↓: Select | Enter: Execute | Tab: Switch | q: Quit"),
        Tab::Logs => text_of("Tab: Switch | q: Quit"),
    }
}

/// The entries of the launcher, in their order.
pub open spec fn launcher_labels_view() -> Seq<Seq<char>> {
    seq![
        "🚀 Launch Hermes Interactive CLI (Python Fallback)"@,
        "⚕️  Run Tirith Security Diagnosis (doctor)"@,
        "⚙️  Edit Configuration (nano ~/.hermes/config.yaml)"@,
        "📋 View Live Logs (tail -f ~/.hermes/logs/agent.log)"@,
    ]
}

/// The entries of the launcher, in their order.
pub fn launcher_labels() -> (l: Vec<String>)
    ensures
        l@.map_values(|s: String| s@) == launcher_labels_view(),
{
    let mut l: Vec<String> = Vec::new();
    l.push(text_of("🚀 Launch Hermes Interactive CLI (Python Fallback)"));
    l.push(text_of("⚕️  Run Tirith Security Diagnosis (doctor)"));
    l.push(text_of("⚙️  Edit Configuration (nano ~/.hermes/config.yaml)"));
    l.push(text_of("📋 View Live Logs (tail -f ~/.hermes/logs/agent.log)"));
    assert(l@.map_values(|s: String| s@) =~= launcher_labels_view());
    l
}

/// How a line of the dashboard is coloured.
#[derive(PartialEq, Eq, Structural, Clone, Copy, Debug)]
pub enum Tone {
    /// No colour.
    Plain,
    /// The Hermes directory.
    Location,
    /// A model setting.
    Setting,
    /// The log level.
    Level,
    /// Something went wrong.
    Alert,
}

/// A line of the dashboard: a label, then a coloured value.
#[derive(Debug)]
pub struct DashLine {
    pub label: String,
    pub value: String,
    pub tone: Tone,
}

pub struct DashLineView {
    pub label: Seq<char>,
    pub value: Seq<char>,
    pub tone: Tone,
}

impl View for DashLine {
    type V = DashLineView;

    open spec fn view(&self) -> DashLineView {
        DashLineView { label: self.label@, value: self.value@, tone: self.tone }
    }
}

pub open spec fn dash_line(label: Seq<char>, value: Seq<char>, tone: Tone) -> DashLineView {
    DashLineView { label, value, tone }
}

/// The dashboard's lines about the model section, if there is one.
pub open spec fn model_lines(m: Option<ModelConfig>) -> Seq<DashLineView> {
    match m {
        Some(m) => seq![
            dash_line("Default Model: "@, or_else(opt_view(m.default), "N/A"@), Tone::Setting),
            dash_line("Provider:      "@, or_else(opt_view(m.provider), "N/A"@), Tone::Setting),
        ],
        None => Seq::empty(),
    }
}

/// The dashboard's line about the logging section, if there is one.
pub open spec fn logging_lines(l: Option<LoggingConfig>) -> Seq<DashLineView> {
    match l {
        Some(l) => seq![dash_line("Log Level:      "@, or_else(opt_view(l.level), "INFO"@), Tone::Level)],
        None => Seq::empty(),
    }
}

/// The names of a list joined by `sep`: the first, then `sep` and the next, and so on.
pub open spec fn seq_join(list: Seq<Seq<char>>, sep: Seq<char>) -> Seq<char>
    decreases list.len(),
{
    if list.len() == 0 {
        Seq::empty()
    } else if list.len() == 1 {
        list[0]
    } else {
        seq_join(list.drop_last(), sep) + sep + list.last()
    }
}

/// How the active toolsets are shown: their names joined by commas, or `none`.
pub open spec fn toolsets_text(names: Seq<Seq<char>>) -> Seq<char> {
    if names.len() == 0 {
        "none"@
    } else {
        seq_join(names, ", "@)
    }
}

/// The dashboard's line about the active toolsets, if the configuration lists them.
pub open spec fn toolset_lines(t: Option<Vec<String>>) -> Seq<DashLineView> {
    match t {
        Some(ts) => seq![
            dash_line("Toolsets:      "@, toolsets_text(ts@.map_values(|s: String| s@)), Tone::Setting),
        ],
        None => Seq::empty(),
    }
}

/// The dashboard's status line: whether the Hermes directory is present.
pub open spec fn status_line(present: bool) -> DashLineView {
    if present {
        dash_line("Status:        "@, "Hermes directory present"@, Tone::Location)
    } else {
        dash_line("Status:        "@, "Hermes directory missing"@, Tone::Alert)
    }
}

/// The lines of the dashboard: where Hermes lives and whether that directory is present,
/// then the model settings, the active toolsets and the logging settings, or a warning
/// where the configuration could not be read.
pub open spec fn dashboard_view(hermes: Seq<char>, present: bool, config: Option<HermesConfig>) -> Seq<
    DashLineView,
> {
    seq![
        dash_line("Hermes Path: "@, hermes, Tone::Location),
        status_line(present),
        dash_line(Seq::empty(), Seq::empty(), Tone::Plain),
    ] + match config {
        Some(c) => model_lines(c.model) + toolset_lines(c.toolsets) + logging_lines(c.logging),
        None => seq![dash_line(Seq::empty(), "Failed to load config.yaml"@, Tone::Alert)],
    }
}

/// The names of `list` joined by `sep`.
pub fn join_names(list: &Vec<String>, sep: &str) -> (r: String)
    ensures
        r@ == seq_join(list@.map_values(|s: String| s@), sep@),
{
    let ghost v = list@.map_values(|s: String| s@);
    let mut res = String::new();
    let n = list.len();
    for i in 0..n
        invariant
            n == list@.len(),
            v.len() == n,
            forall|j: int| 0 <= j < n ==> #[trigger] v[j] == list@[j]@,
            res@ == seq_join(v.take(i as int), sep@),
    {
        assert(v.take(i + 1).drop_last() =~= v.take(i as int));
        if i != 0 {
            res.append(sep);
            res.append(list[i].as_str());
        } else {
            res.append(list[i].as_str());
            assert(res@ =~= v.take(1)[0]);
        }
    }
    assert(v.take(n as int) =~= v);
    res
}

/// How the active toolsets are shown.
pub fn toolsets_shown(names: &Vec<String>) -> (r: String)
    ensures
        r@ == toolsets_text(names@.map_values(|s: String| s@)),
{
    if names.len() == 0 {
        text_of("none")
    } else {
        join_names(names, ", ")
    }
}

/// The value of an optional setting, or `d` where it has none.
fn setting_or(o: &Option<String>, d: &str) -> (s: String)
    ensures
        s@ == or_else(opt_view(*o), d@),
{
    match o {
        Some(v) => v.clone(),
        None => text_of(d),
    }
}

fn line(label: &str, value: String, tone: Tone) -> (l: DashLine)
    ensures
        l@ == dash_line(label@, value@, tone),
{
    DashLine { label: text_of(label), value, tone }
}

/// The lines of the dashboard; `present` says whether the Hermes directory exists.
pub fn dashboard_lines(app: &App, present: bool) -> (lines: Vec<DashLine>)
    ensures
        lines@.map_values(|l: DashLine| l@) == dashboard_view(app.hermes_path@, present, app.config),
{
    let mut lines: Vec<DashLine> = Vec::new();
    lines.push(line("Hermes Path: ", app.hermes_path.clone(), Tone::Location));
    if present {
        lines.push(line("Status:        ", text_of("Hermes directory present"), Tone::Location));
    } else {
        lines.push(line("Status:        ", text_of("Hermes directory missing"), Tone::Alert));
    }
    lines.push(line("", String::new(), Tone::Plain));
    let ghost head = lines@.map_values(|l: DashLine| l@);
    proof {
        reveal_strlit("");
    }
    assert(lines@.len() == 3);
    assert(lines@[0]@ == dash_line("Hermes Path: "@, app.hermes_path@, Tone::Location));
    assert(lines@[1]@ == status_line(present));
    assert(lines@[2]@.label == Seq::<char>::empty());
    assert(lines@[2]@.value == Seq::<char>::empty());
    assert(head =~= seq![
        dash_line("Hermes Path: "@, app.hermes_path@, Tone::Location),
        status_line(present),
        dash_line(Seq::empty(), Seq::empty(), Tone::Plain),
    ]);
    match &app.config {
        Some(c) => {
            match &c.model {
                Some(m) => {
                    lines.push(line("Default Model: ", setting_or(&m.default, "N/A"), Tone::Setting));
                    lines.push(line("Provider:      ", setting_or(&m.provider, "N/A"), Tone::Setting));
                },
                None => {},
            }
            let ghost mid = lines@.map_values(|l: DashLine| l@);
            assert(mid =~= head + model_lines(c.model));
            match &c.toolsets {
                Some(ts) => {
                    lines.push(line("Toolsets:      ", toolsets_shown(ts), Tone::Setting));
                },
                None => {},
            }
            let ghost mid2 = lines@.map_values(|l: DashLine| l@);
            assert(mid2 =~= mid + toolset_lines(c.toolsets));
            match &c.logging {
                Some(l) => {
                    lines.push(line("Log Level:      ", setting_or(&l.level, "INFO"), Tone::Level));
                },
                None => {},
            }
            assert(lines@.map_values(|l: DashLine| l@) =~= mid2 + logging_lines(c.logging));
        },
        None => {
            lines.push(line("", text_of("Failed to load config.yaml"), Tone::Alert));
            assert(lines@.map_values(|l: DashLine| l@) =~= head + seq![
                dash_line(Seq::empty(), "Failed to load config.yaml"@, Tone::Alert),
            ]);
        },
    }
    assert(lines@.map_values(|l: DashLine| l@) =~= dashboard_view(app.hermes_path@, present, app.config));
    lines
}

/// A message of the conversation as it is shown: a header naming who spoke, the text,
/// and whether the user spoke it (shown in another colour).
#[derive(Debug)]
pub struct ChatEntry {
    pub header: String,
    pub content: String,
    pub from_user: bool,
}

pub struct ChatEntryView {
    pub header: Seq<char>,
    pub content: Seq<char>,
    pub from_user: bool,
}

impl View for ChatEntry {
    type V = ChatEntryView;

    open spec fn view(&self) -> ChatEntryView {
        ChatEntryView { header: self.header@, content: self.content@, from_user: self.from_user }
    }
}

/// How a message is shown.
pub open spec fn entry_of(m: MessageView) -> ChatEntryView {
    entry_with(uppercased(m.role), m)
}

/// How a message is shown, given its role in upper case.
pub open spec fn entry_with(upper_role: Seq<char>, m: MessageView) -> ChatEntryView {
    ChatEntryView { header: upper_role + ": "@, content: m.content, from_user: m.role == user_role() }
}

/// How the message `m` is shown, given its role in upper case.
pub fn chat_entry(upper_role: &str, m: &Message) -> (e: ChatEntry)
    ensures
        e@ == entry_with(upper_role@, m@),
{
    let header = joined_text(upper_role, ": ");
    let from_user = same_text(m.role.as_str(), "user");
    ChatEntry { header, content: m.content.clone(), from_user }
}

/// The conversation as it is shown, message by message.
pub fn chat_entries(app: &App) -> (e: Vec<ChatEntry>)
    ensures
        e@.map_values(|x: ChatEntry| x@) == history_view(app.agent.history@).map_values(|m: MessageView| entry_of(m)),
{
    let h = &app.agent.history;
    let n = h.len();
    let mut e: Vec<ChatEntry> = Vec::new();
    for i in 0..n
        invariant
            n == h@.len(),
            e@.len() == i,
            forall|j: int| 0 <= j < i ==> #[trigger] e@[j]@ == entry_of(h@[j]@),
    {
        let m = &h[i];
        let upper = to_upper(m.role.as_str());
        e.push(chat_entry(upper.as_str(), m));
    }
    assert(e@.map_values(|x: ChatEntry| x@) =~= history_view(h@).map_values(|m: MessageView| entry_of(m)));
    e
}

/// What the input box shows: `Sending...` while a reply is awaited, else what was typed.
pub open spec fn input_shown(loading: bool, input: Seq<char>) -> Seq<char> {
    if loading {
        "Sending..."@
    } else {
        input
    }
}

/// What the input box shows.
pub fn input_display(app: &App) -> (s: String)
    ensures
        s@ == input_shown(app.is_loading, app.input@),
{
    if app.is_loading {
        text_of("Sending...")
    } else {
        app.input.clone()
    }
}

} // verus!
