//! The chat agent: the conversation it keeps and the exchange of one turn with a model.
use vstd::prelude::*;
use crate::text::{joined_text, opt_view, text_of};

verus! {

/// One message of a conversation: who said it and what was said.
#[derive(Debug)]
pub struct Message {
    pub role: String,
    pub content: String,
}

/// A message as text.
pub struct MessageView {
    pub role: Seq<char>,
    pub content: Seq<char>,
}

impl View for Message {
    type V = MessageView;

    open spec fn view(&self) -> MessageView {
        MessageView { role: self.role@, content: self.content@ }
    }
}

/// The role of the person at the keyboard.
pub open spec fn user_role() -> Seq<char> {
    "user"@
}

/// The role of the model.
pub open spec fn assistant_role() -> Seq<char> {
    "assistant"@
}

/// What the user said, as a message.
pub open spec fn user_message(content: Seq<char>) -> MessageView {
    MessageView { role: user_role(), content }
}

/// What the model said, as a message.
pub open spec fn assistant_message(content: Seq<char>) -> MessageView {
    MessageView { role: assistant_role(), content }
}

/// A conversation as a sequence of message views.
pub open spec fn history_view(h: Seq<Message>) -> Seq<MessageView> {
    h.map_values(|m: Message| m@)
}

impl Message {
    /// A message with the given role and content.
    pub fn new(role: &str, content: &str) -> (m: Message)
        ensures
            m@ == (MessageView { role: role@, content: content@ }),
    {
        Message { role: text_of(role), content: text_of(content) }
    }

    /// A message of the user.
    pub fn from_user(content: &str) -> (m: Message)
        ensures
            m@ == user_message(content@),
    {
        Message::new("user", content)
    }

    /// A message of the model.
    pub fn from_assistant(content: &str) -> (m: Message)
        ensures
            m@ == assistant_message(content@),
    {
        Message::new("assistant", content)
    }

    /// A copy of this message.
    pub fn duplicate(&self) -> (m: Message)
        ensures
            m@ == self@,
    {
        Message { role: self.role.clone(), content: self.content.clone() }
    }
}

/// A copy of a conversation, message by message.
pub fn copy_history(h: &Vec<Message>) -> (r: Vec<Message>)
    ensures
        history_view(r@) == history_view(h@),
{
    let mut r: Vec<Message> = Vec::new();
    let n = h.len();
    for i in 0..n
        invariant
            n == h@.len(),
            r@.len() == i,
            forall|j: int| 0 <= j < i ==> #[trigger] r@[j]@ == h@[j]@,
    {
        r.push(h[i].duplicate());
    }
    assert(history_view(r@) =~= history_view(h@));
    r
}

/// Why a turn of the conversation gave no answer.
#[derive(Debug)]
pub enum ChatError {
    /// The request could not be sent or its reply could not be read; the text says why.
    Transport(String),
    /// The reply held no choice at all.
    NoResponse,
    /// The reply's first choice held no text.
    NoContent,
}

pub enum ChatErrorView {
    Transport(Seq<char>),
    NoResponse,
    NoContent,
}

impl View for ChatError {
    type V = ChatErrorView;

    open spec fn view(&self) -> ChatErrorView {
        match self {
            ChatError::Transport(s) => ChatErrorView::Transport(s@),
            ChatError::NoResponse => ChatErrorView::NoResponse,
            ChatError::NoContent => ChatErrorView::NoContent,
        }
    }
}

/// The text by which an error is shown.
pub open spec fn error_text(e: ChatErrorView) -> Seq<char> {
    match e {
        ChatErrorView::Transport(s) => s,
        ChatErrorView::NoResponse => "No response from model"@,
        ChatErrorView::NoContent => "No content"@,
    }
}

impl ChatError {
    /// The text by which this error is shown.
    pub fn describe(&self) -> (s: String)
        ensures
            s@ == error_text(self@),
    {
        match self {
            ChatError::Transport(s) => s.clone(),
            ChatError::NoResponse => text_of("No response from model"),
            ChatError::NoContent => text_of("No content"),
        }
    }
}

/// What a reply offers, read as the text of each choice's message where it has text:
/// the text of the first choice, or `NoContent`.
pub open spec fn first_content(contents: Seq<Option<Seq<char>>>) -> Result<Seq<char>, ChatErrorView> {
    if contents.len() > 0 && contents[0] is Some {
        Ok(contents[0]->0)
    } else {
        Err(ChatErrorView::NoContent)
    }
}

/// The text of the first choice of a reply, given the text of each choice's message.
pub fn reply_content(contents: &Vec<Option<String>>) -> (r: Result<String, ChatError>)
    ensures
        answer_view(r) == first_content(contents@.map_values(|o: Option<String>| opt_view(o))),
{
    if contents.len() > 0 {
        match &contents[0] {
            Some(s) => Ok(s.clone()),
            None => Err(ChatError::NoContent),
        }
    } else {
        Err(ChatError::NoContent)
    }
}

/// What is sent to the model: which model, and the whole conversation so far.
#[derive(Debug)]
pub struct ChatRequest {
    pub model: String,
    pub messages: Vec<Message>,
}

pub struct ChatRequestView {
    pub model: Seq<char>,
    pub messages: Seq<MessageView>,
}

impl View for ChatRequest {
    type V = ChatRequestView;

    open spec fn view(&self) -> ChatRequestView {
        ChatRequestView { model: self.model@, messages: history_view(self.messages@) }
    }
}

/// One of the answers that the model offers.
#[derive(Debug)]
pub struct Choice {
    pub message: Message,
}

/// The model's reply: the answers it offers, best first.
#[derive(Debug)]
pub struct ChatResponse {
    pub choices: Vec<Choice>,
}

impl View for ChatResponse {
    type V = Seq<MessageView>;

    open spec fn view(&self) -> Seq<MessageView> {
        self.choices@.map_values(|c: Choice| c.message@)
    }
}

/// The state of an agent as text.
pub struct AgentView {
    pub base_url: Seq<char>,
    pub model: Seq<char>,
    pub history: Seq<MessageView>,
}

/// A client of a chat-completions service: where it is, which model to ask, and the
/// conversation so far.
#[derive(Debug)]
pub struct Agent {
    pub base_url: String,
    pub model: String,
    pub history: Vec<Message>,
}

impl View for Agent {
    type V = AgentView;

    open spec fn view(&self) -> AgentView {
        AgentView { base_url: self.base_url@, model: self.model@, history: history_view(self.history@) }
    }
}

/// The address of the chat-completions endpoint under `base_url`.
pub open spec fn completions_url(base_url: Seq<char>) -> Seq<char> {
    base_url + "/chat/completions"@
}

/// The conversation once the user has said `input`.
pub open spec fn asked(a: AgentView, input: Seq<char>) -> Seq<MessageView> {
    a.history.push(user_message(input))
}

/// What is sent to the model when the user says `input`.
pub open spec fn request_for(a: AgentView, input: Seq<char>) -> ChatRequestView {
    ChatRequestView { model: a.model, messages: asked(a, input) }
}

/// The agent after a turn in which the user said `input` and `reply` came back, and
/// what the turn gives back: the text of the first choice, or why there is none.
pub open spec fn chat_outcome(
    a: AgentView,
    input: Seq<char>,
    reply: Result<Seq<MessageView>, ChatErrorView>,
) -> (AgentView, Result<Seq<char>, ChatErrorView>) {
    let h = asked(a, input);
    match reply {
        Err(e) => (AgentView { history: h, ..a }, Err(e)),
        Ok(choices) => if choices.len() > 0 {
            (AgentView { history: h.push(choices[0]), ..a }, Ok(choices[0].content))
        } else {
            (AgentView { history: h, ..a }, Err(ChatErrorView::NoResponse))
        },
    }
}

pub open spec fn reply_view(r: Result<ChatResponse, ChatError>) -> Result<Seq<MessageView>, ChatErrorView> {
    match r {
        Ok(resp) => Ok(resp@),
        Err(e) => Err(e@),
    }
}

pub open spec fn answer_view(r: Result<String, ChatError>) -> Result<Seq<char>, ChatErrorView> {
    match r {
        Ok(s) => Ok(s@),
        Err(e) => Err(e@),
    }
}

impl Agent {
    /// An agent for the service at `base_url` and the given model, with no conversation yet.
    pub fn new(base_url: &str, model: &str) -> (a: Agent)
        ensures
            a@ == (AgentView { base_url: base_url@, model: model@, history: Seq::empty() }),
    {
        let a = Agent { base_url: text_of(base_url), model: text_of(model), history: Vec::new() };
        assert(history_view(a.history@) =~= Seq::empty());
        a
    }

    /// A copy of this agent: the same service, model and conversation.
    pub fn duplicate(&self) -> (a: Agent)
        ensures
            a@ == self@,
    {
        Agent { base_url: self.base_url.clone(), model: self.model.clone(), history: copy_history(&self.history) }
    }

    /// The address to which requests are posted.
    pub fn chat_url(&self) -> (u: String)
        ensures
            u@ == completions_url(self.base_url@),
    {
        joined_text(self.base_url.as_str(), "/chat/completions")
    }

    /// The request that a turn in which the user says `user_input` sends.
    pub fn chat_request(&self, user_input: &str) -> (r: ChatRequest)
        ensures
            r@ == request_for(self@, user_input@),
    {
        let mut messages = copy_history(&self.history);
        messages.push(Message::from_user(user_input));
        assert(history_view(messages@) =~= asked(self@, user_input@));
        ChatRequest { model: self.model.clone(), messages }
    }

    /// One turn of the conversation: the user's `user_input` joins the history, and
    /// `reply` is what the service answered to `chat_request(user_input)`. The first
    /// choice of a reply joins the history and its text is returned.
    pub fn chat(&mut self, user_input: &str, reply: Result<ChatResponse, ChatError>) -> (r: Result<String, ChatError>)
        ensures
            (final(self)@, answer_view(r)) == chat_outcome(old(self)@, user_input@, reply_view(reply)),
    {
        self.history.push(Message::from_user(user_input));
        assert(history_view(self.history@) =~= asked(old(self)@, user_input@));
        match reply {
            Err(e) => Err(e),
            Ok(resp) => {
                if resp.choices.len() > 0 {
                    let bot = resp.choices[0].message.duplicate();
                    let content = bot.content.clone();
                    let ghost before = self.history@;
                    self.history.push(bot);
                    assert(history_view(self.history@) =~= history_view(before).push(resp@[0]));
                    Ok(content)
                } else {
                    Err(ChatError::NoResponse)
                }
            },
        }
    }

    /// Forgets the conversation.
    pub fn clear_history(&mut self)
        ensures
            final(self)@ == (AgentView { history: Seq::empty(), ..old(self)@ }),
    {
        self.history.clear();
        assert(history_view(self.history@) =~= Seq::empty());
    }
}

} // verus!
