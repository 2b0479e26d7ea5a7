use vstd::prelude::*;


verus! {

broadcast use vstd::string::group_string_axioms;

/// Role of a chat message.
#[derive(Debug, Clone, Copy, PartialEq, Eq, Structural)]
pub enum MessageRole {
    System,
    User,
    Assistant,
    Tool,
}

/// Function part of a tool call.
#[derive(Debug, Clone)]
pub struct ToolCallFunction {
    pub name: String,
    /// JSON text of the arguments.
    pub arguments: String,
}

/// A tool call requested by the assistant.
#[derive(Debug, Clone)]
pub struct ToolCall {
    pub id: String,
    /// Usually "function".
    pub call_type: String,
    pub function: ToolCallFunction,
}

/// Mathematical value of a tool call.
pub struct ToolCallView {
    pub id: Seq<char>,
    pub call_type: Seq<char>,
    pub name: Seq<char>,
    pub arguments: Seq<char>,
}

impl View for ToolCall {
    type V = ToolCallView;

    open spec fn view(&self) -> ToolCallView {
        ToolCallView {
            id: self.id@,
            call_type: self.call_type@,
            name: self.function.name@,
            arguments: self.function.arguments@,
        }
    }
}

impl ToolCall {
    /// A copy with the same value.
    pub fn duplicate(&self) -> (r: ToolCall)
        ensures
            r@ == self@,
    {
        ToolCall {
            id: self.id.clone(),
            call_type: self.call_type.clone(),
            function: ToolCallFunction {
                name: self.function.name.clone(),
                arguments: self.function.arguments.clone(),
            },
        }
    }
}

/// The value of an optional string.
pub open spec fn opt_str_view(o: Option<String>) -> Option<Seq<char>> {
    match o {
        Some(s) => Some(s@),
        None => None,
    }
}

/// The value of a list of tool calls.
pub open spec fn tool_calls_view(v: Seq<ToolCall>) -> Seq<ToolCallView> {
    v.map_values(|t: ToolCall| t@)
}

/// The value of an optional list of tool calls.
pub open spec fn opt_tool_calls_view(o: Option<Vec<ToolCall>>) -> Option<Seq<ToolCallView>> {
    match o {
        Some(v) => Some(tool_calls_view(v@)),
        None => None,
    }
}

/// A copy of an optional string.
pub fn copy_opt_string(o: &Option<String>) -> (r: Option<String>)
    ensures
        opt_str_view(r) == opt_str_view(*o),
{
    match o {
        Some(s) => Some(s.clone()),
        None => None,
    }
}

/// A copy of a list of tool calls.
pub fn copy_tool_calls(v: &Vec<ToolCall>) -> (r: Vec<ToolCall>)
    ensures
        tool_calls_view(r@) == tool_calls_view(v@),
{
    let mut r: Vec<ToolCall> = Vec::new();
    let mut i: usize = 0;
    while i < v.len()
        invariant
            i <= v.len(),
            r@.len() == i,
            forall|j: int| 0 <= j < i ==> r@[j]@ == v@[j]@,
        decreases v.len() - i,
    {
        r.push(v[i].duplicate());
        i = i + 1;
    }
    assert(tool_calls_view(r@) =~= tool_calls_view(v@));
    r
}

/// A chat message.
#[derive(Debug, Clone)]
pub struct Message {
    pub role: MessageRole,
    pub content: String,
    pub name: Option<String>,
    pub tool_calls: Option<Vec<ToolCall>>,
    pub tool_call_id: Option<String>,
}

/// Mathematical value of a chat message.
pub struct MessageView {
    pub role: MessageRole,
    pub content: Seq<char>,
    pub name: Option<Seq<char>>,
    pub tool_calls: Option<Seq<ToolCallView>>,
    pub tool_call_id: Option<Seq<char>>,
}

impl View for Message {
    type V = MessageView;

    open spec fn view(&self) -> MessageView {
        MessageView {
            role: self.role,
            content: self.content@,
            name: opt_str_view(self.name),
            tool_calls: opt_tool_calls_view(self.tool_calls),
            tool_call_id: opt_str_view(self.tool_call_id),
        }
    }
}

/// The value of a list of messages.
pub open spec fn messages_view(v: Seq<Message>) -> Seq<MessageView> {
    v.map_values(|m: Message| m@)
}

impl Message {
    /// A message with the given role and content and no optional parts.
    pub fn new(role: MessageRole, content: String) -> (m: Message)
        ensures
            m@ == (MessageView {
                role,
                content: content@,
                name: None,
                tool_calls: None,
                tool_call_id: None,
            }),
    {
        Message { role, content, name: None, tool_calls: None, tool_call_id: None }
    }

    /// The same message with `name` set.
    pub fn with_name(self, name: String) -> (m: Message)
        ensures
            m@ == (MessageView { name: Some(name@), ..self@ }),
    {
        let mut m = self;
        m.name = Some(name);
        m
    }

    /// The same message with `tool_calls` set.
    pub fn with_tool_calls(self, tool_calls: Vec<ToolCall>) -> (m: Message)
        ensures
            m@ == (MessageView { tool_calls: Some(tool_calls_view(tool_calls@)), ..self@ }),
    {
        let mut m = self;
        m.tool_calls = Some(tool_calls);
        m
    }

    /// The same message with `tool_call_id` set.
    pub fn with_tool_call_id(self, tool_call_id: String) -> (m: Message)
        ensures
            m@ == (MessageView { tool_call_id: Some(tool_call_id@), ..self@ }),
    {
        let mut m = self;
        m.tool_call_id = Some(tool_call_id);
        m
    }

    /// A copy with the same value.
    pub fn duplicate(&self) -> (r: Message)
        ensures
            r@ == self@,
    {
        let tool_calls = match &self.tool_calls {
            Some(v) => Some(copy_tool_calls(v)),
            None => None,
        };
        Message {
            role: self.role,
            content: self.content.clone(),
            name: copy_opt_string(&self.name),
            tool_calls,
            tool_call_id: copy_opt_string(&self.tool_call_id),
        }
    }
}

/// A copy of a list of messages.
pub fn copy_messages(v: &Vec<Message>) -> (r: Vec<Message>)
    ensures
        messages_view(r@) == messages_view(v@),
{
    let mut r: Vec<Message> = Vec::new();
    let mut i: usize = 0;
    while i < v.len()
        invariant
            i <= v.len(),
            r@.len() == i,
            forall|j: int| 0 <= j < i ==> r@[j]@ == v@[j]@,
        decreases v.len() - i,
    {
        r.push(v[i].duplicate());
        i = i + 1;
    }
    assert(messages_view(r@) =~= messages_view(v@));
    r
}

/// Limits that a session manager applies to its sessions.
#[derive(Debug, Clone)]
pub struct SessionConfig {
    /// Most messages a session keeps; older ones are dropped first.
    pub max_history_length: usize,
    /// Seconds of inactivity after which a session expires; `None` never expires.
    pub session_ttl: Option<i64>,
}

impl SessionConfig {
    /// Keeps up to 100 messages and never expires sessions.
    pub fn default_config() -> (c: SessionConfig)
        ensures
            c.max_history_length == 100,
            c.session_ttl is None,
    {
        SessionConfig { max_history_length: 100, session_ttl: None }
    }
}

impl Default for SessionConfig {
    fn default() -> (c: SessionConfig)
        ensures
            c.max_history_length == 100,
            c.session_ttl is None,
    {
        SessionConfig::default_config()
    }
}

/// A conversation: its id, its messages and when it was created and last changed
/// (milliseconds since the Unix epoch).
#[derive(Debug, Clone)]
pub struct Session {
    pub id: String,
    pub messages: Vec<Message>,
    pub created_at: i64,
    pub updated_at: i64,
}

/// Mathematical value of a session.
pub struct SessionView {
    pub id: Seq<char>,
    pub messages: Seq<MessageView>,
    pub created_at: int,
    pub updated_at: int,
}

impl View for Session {
    type V = SessionView;

    open spec fn view(&self) -> SessionView {
        SessionView {
            id: self.id@,
            messages: messages_view(self.messages@),
            created_at: self.created_at as int,
            updated_at: self.updated_at as int,
        }
    }
}

/// Whole seconds in `d` milliseconds, rounded toward zero.
pub open spec fn whole_seconds(d: int) -> int {
    if d >= 0 {
        d / 1000
    } else {
        -((-d) / 1000)
    }
}

/// A session last changed at `updated_at` has expired at time `now` when more
/// than `ttl_seconds` whole seconds have passed.
pub open spec fn expired_at(updated_at: int, ttl_seconds: int, now: int) -> bool {
    whole_seconds(now - updated_at) > ttl_seconds
}

/// An empty session `id` created at time `now`.
pub open spec fn new_session_view(id: Seq<char>, now: int) -> SessionView {
    SessionView { id, messages: Seq::empty(), created_at: now, updated_at: now }
}

/// Session `s` with `m` appended, changed at time `now`.
pub open spec fn with_added_message(s: SessionView, m: MessageView, now: int) -> SessionView {
    SessionView { messages: s.messages.push(m), updated_at: now, ..s }
}

/// Session `s` with no messages, changed at time `now`.
pub open spec fn without_messages(s: SessionView, now: int) -> SessionView {
    SessionView { messages: Seq::empty(), updated_at: now, ..s }
}

impl Session {
    /// A new empty session created at time `now`.
    pub fn new_at(id: String, now: i64) -> (s: Session)
        ensures
            s@ == new_session_view(id@, now as int),
    {
        let s = Session { id, messages: Vec::new(), created_at: now, updated_at: now };
        assert(messages_view(s.messages@) =~= Seq::empty());
        s
    }

    /// A new empty session created now.
    pub fn new(id: String) -> (s: Session)
        ensures
            exists|t: int| s@ == #[trigger] new_session_view(id@, t),
    {
        let now = crate::clock::current_time_millis();
        Session::new_at(id, now)
    }

    /// Appends a message; the session counts as changed at time `now`.
    pub fn add_message_at(&mut self, message: Message, now: i64)
        ensures
            final(self)@ == with_added_message(old(self)@, message@, now as int),
    {
        self.messages.push(message);
        self.updated_at = now;
        assert(messages_view(self.messages@) =~= messages_view(old(self).messages@).push(message@));
    }

    /// Appends a message; the session counts as changed now.
    pub fn add_message(&mut self, message: Message)
        ensures
            exists|t: int| final(self)@ == #[trigger] with_added_message(old(self)@, message@, t),
    {
        let now = crate::clock::current_time_millis();
        self.add_message_at(message, now);
    }

    /// Removes every message; the session counts as changed at time `now`.
    pub fn clear_messages_at(&mut self, now: i64)
        ensures
            final(self)@ == without_messages(old(self)@, now as int),
    {
        self.messages = Vec::new();
        self.updated_at = now;
        assert(messages_view(self.messages@) =~= Seq::empty());
    }

    /// Removes every message; the session counts as changed now.
    pub fn clear_messages(&mut self)
        ensures
            exists|t: int| final(self)@ == #[trigger] without_messages(old(self)@, t),
    {
        let now = crate::clock::current_time_millis();
        self.clear_messages_at(now);
    }

    /// Whether the session has expired at time `now` under a time-to-live of
    /// `ttl_seconds`.
    pub fn is_expired_at(&self, ttl_seconds: i64, now: i64) -> (b: bool)
        ensures
            b == expired_at(self.updated_at as int, ttl_seconds as int, now as int),
    {
        let d: i128 = now as i128 - self.updated_at as i128;
        let age: i128 = if d >= 0 {
            d / 1000
        } else {
            -((-d) / 1000)
        };
        age > ttl_seconds as i128
    }

    /// Whether the session has expired now under a time-to-live of `ttl_seconds`.
    pub fn is_expired(&self, ttl_seconds: i64) -> (b: bool)
        ensures
            exists|t: int| b == #[trigger] expired_at(self.updated_at as int, ttl_seconds as int, t),
    {
        let now = crate::clock::current_time_millis();
        self.is_expired_at(ttl_seconds, now)
    }

    /// A copy with the same value.
    pub fn duplicate(&self) -> (r: Session)
        ensures
            r@ == self@,
    {
        Session {
            id: self.id.clone(),
            messages: copy_messages(&self.messages),
            created_at: self.created_at,
            updated_at: self.updated_at,
        }
    }
}

} // verus!
