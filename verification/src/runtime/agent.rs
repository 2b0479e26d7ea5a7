//! What the agent runtime decides when it starts and when it answers: which
//! agent-config files it reads and how it combines them, when the combined
//! text is summarised, and the conversation it sends to the model.

use vstd::prelude::*;

use crate::json::{JsonValue, JsonView, json_get};
use crate::llm::types::{ChatMessage, FunctionCall, MessageRole as LlmRole, ToolCall as LlmToolCall};
use crate::session::types::{Message, MessageRole, ToolCall, ToolCallView, copy_opt_string, opt_str_view, opt_tool_calls_view};
use crate::text::{concat2, owned};
use crate::api::turn::{finish_turn_at, is_system_text, start_turn_at, system_count, turn_finished, turn_started};
use crate::runtime::chat::{
    chat_finished, chat_note, chat_started, first_triggered, lemma_first_triggered, lemma_none_triggered,
    open_chat_at, record_chat_answer_at, shows, skill_note_text,
};
use crate::api::types::{ApiError, RunRequest, RunResponse};
use crate::mcp::types::MCPTool;
use crate::session::manager::{PersistenceAction, PersistenceActionView, SessionManager, actions_view};
use crate::session::persistence::SessionPersistenceManager;
use crate::session::types::SessionConfig;
use crate::skill::types::SkillManager;
use crate::tools::builtin::mcp_tool_executor::{mcp_tool_metadata, MCPToolExecutor};
use crate::tools::builtin::{builtin_catalog, is_builtin_name, register_builtin_tools, BuiltinTool};
use crate::tools::manager::ToolManager;
use crate::tools::types::ToolMetadata;

verus! {

broadcast use vstd::string::group_string_axioms;

/// The summary threshold used when the configuration names none, in bytes.
pub const DEFAULT_SUMMARY_THRESHOLD: usize = 5000;

/// The agent-config files read at start, in order.
pub open spec fn agent_config_paths() -> Seq<Seq<char>> {
    seq![
        "agent-config/SOUL.md"@,
        "agent-config/IDENTITY.md"@,
        "agent-config/AGENTS.md"@,
        "agent-config/MEMORY.md"@,
        "agent-config/USER.md"@,
        "agent-config/TOOLS.md"@,
        "agent-config/HEARTBEAT.md"@,
    ]
}

/// The agent-config files read at start, in order.
pub fn agent_config_files() -> (files: Vec<&'static str>)
    ensures
        files@.len() == agent_config_paths().len(),
        forall|i: int| 0 <= i < files@.len() ==> (#[trigger] files@[i])@ == agent_config_paths()[i],
{
    let mut files: Vec<&'static str> = Vec::new();
    files.push("agent-config/SOUL.md");
    files.push("agent-config/IDENTITY.md");
    files.push("agent-config/AGENTS.md");
    files.push("agent-config/MEMORY.md");
    files.push("agent-config/USER.md");
    files.push("agent-config/TOOLS.md");
    files.push("agent-config/HEARTBEAT.md");
    files
}

/// The values of a list of (path, content if read) pairs.
pub open spec fn loaded_view(v: Seq<(String, Option<String>)>) -> Seq<(Seq<char>, Option<Seq<char>>)> {
    v.map_values(|e: (String, Option<String>)| (e.0@, opt_str_view(e.1)))
}

/// The sections of the files that were read: each a "---" rule, the path as a
/// heading and the content.
pub open spec fn config_sections(files: Seq<(Seq<char>, Option<Seq<char>>)>) -> Seq<char>
    decreases files.len(),
{
    if files.len() == 0 {
        Seq::empty()
    } else {
        let rest = config_sections(files.subrange(0, files.len() - 1));
        let f = files[files.len() - 1];
        match f.1 {
            Some(c) => rest + "\n---\n\n## "@ + f.0 + "\n\n"@ + c,
            None => rest,
        }
    }
}

/// The agent configuration text: a title and the sections of the files read;
/// files that could not be read are left out.
pub fn combine_agent_config(files: &Vec<(String, Option<String>)>) -> (text: String)
    ensures
        text@ == "# Agent Configuration\n\n"@ + config_sections(loaded_view(files@)),
{
    let ghost fv = loaded_view(files@);
    let mut text = owned("# Agent Configuration\n\n");
    let ghost head = text@;
    let mut i: usize = 0;
    assert(fv.subrange(0, 0) =~= Seq::<(Seq<char>, Option<Seq<char>>)>::empty());
    assert(text@ =~= head + config_sections(fv.subrange(0, 0)));
    while i < files.len()
        invariant
            fv == loaded_view(files@),
            head == "# Agent Configuration\n\n"@,
            i <= files@.len(),
            text@ == head + config_sections(fv.subrange(0, i as int)),
        decreases files.len() - i,
    {
        assert(fv.subrange(0, i + 1).subrange(0, i as int) =~= fv.subrange(0, i as int));
        match &files[i].1 {
            Some(c) => {
                text.append("\n---\n\n## ");
                text.append(files[i].0.as_str());
                text.append("\n\n");
                text.append(c.as_str());
            },
            None => {},
        }
        assert(text@ =~= head + config_sections(fv.subrange(0, i + 1)));
        i = i + 1;
    }
    assert(fv.subrange(0, i as int) =~= fv);
    text
}

/// Whether `d` is a non-empty run of decimal digits.
pub open spec fn all_digits(d: Seq<char>) -> bool {
    d.len() > 0 && forall|i: int| 0 <= i < d.len() ==> '0' <= #[trigger] d[i] && d[i] <= '9'
}

/// The value of a run of decimal digits.
pub open spec fn digits_value(d: Seq<char>) -> int
    decreases d.len(),
{
    if d.len() == 0 {
        0
    } else {
        digits_value(d.drop_last()) * 10 + (d.last() as int - 48)
    }
}

/// The threshold an agent configuration sets in `configSummaryThreshold`:
/// an unsigned 64-bit integer (one above `i64::MAX` arrives as its digits).
pub open spec fn threshold_of(config: JsonView) -> Option<u64> {
    match json_get(config, "configSummaryThreshold"@) {
        Some(JsonView::Number(n)) => if n >= 0 { Some(n as u64) } else { None },
        Some(JsonView::Decimal(d)) => if all_digits(d) && digits_value(d) <= u64::MAX {
            Some(digits_value(d) as u64)
        } else {
            None
        },
        _ => None,
    }
}

/// A prefix of a run of digits is worth no more than the whole.
proof fn lemma_digits_prefix(d: Seq<char>, i: int)
    requires
        all_digits(d),
        0 <= i <= d.len(),
    ensures
        0 <= digits_value(d.subrange(0, i)) <= digits_value(d),
    decreases d.len() - i,
{
    if i < d.len() {
        lemma_digits_prefix(d, i + 1);
        let t = d.subrange(0, i + 1);
        assert(t.drop_last() =~= d.subrange(0, i));
        lemma_digits_nonneg(d.subrange(0, i));
    } else {
        assert(d.subrange(0, i) =~= d);
        lemma_digits_nonneg(d);
    }
}

/// A run of digits is worth at least 0.
proof fn lemma_digits_nonneg(d: Seq<char>)
    requires
        forall|i: int| 0 <= i < d.len() ==> '0' <= #[trigger] d[i] && d[i] <= '9',
    ensures
        digits_value(d) >= 0,
    decreases d.len(),
{
    if d.len() > 0 {
        lemma_digits_nonneg(d.drop_last());
    }
}

/// The value of a run of decimal digits when it fits in a `u64`.
fn parse_u64_digits(d: &str) -> (r: Option<u64>)
    ensures
        r matches Some(v) ==> all_digits(d@) && v == digits_value(d@),
        r is None ==> !(all_digits(d@) && digits_value(d@) <= u64::MAX),
{
    let cs = crate::text::chars_of(d);
    if cs.len() == 0 {
        return None;
    }
    let mut v: u64 = 0;
    let mut i: usize = 0;
    while i < cs.len()
        invariant
            i <= cs@.len(),
            cs@ == d@,
            cs@.len() > 0,
            forall|j: int| 0 <= j < i ==> '0' <= #[trigger] cs@[j] && cs@[j] <= '9',
            v == digits_value(cs@.subrange(0, i as int)),
        decreases cs.len() - i,
    {
        let c = cs[i];
        if !('0' <= c && c <= '9') {
            return None;
        }
        let digit: u64 = (c as u32 - 48) as u64;
        proof {
            let t = cs@.subrange(0, i + 1);
            assert(t.drop_last() =~= cs@.subrange(0, i as int));
            assert(t.last() == c);
        }
        let next = match v.checked_mul(10) {
            Some(w) => w.checked_add(digit),
            None => None,
        };
        match next {
            Some(w) => {
                v = w;
            },
            None => {
                proof {
                    assert(forall|j: int| 0 <= j < i + 1 ==> '0' <= #[trigger] cs@[j] && cs@[j] <= '9');
                    if all_digits(d@) {
                        lemma_digits_prefix(cs@, i + 1);
                    }
                }
                return None;
            },
        }
        i = i + 1;
    }
    assert(cs@.subrange(0, cs@.len() as int) =~= cs@);
    Some(v)
}

/// The summary threshold the agent configuration sets in
/// `configSummaryThreshold`, when it is an unsigned 64-bit integer.
pub fn summary_threshold(config: &JsonValue) -> (t: Option<u64>)
    ensures
        t == threshold_of(config@),
{
    match config.get("configSummaryThreshold") {
        Some(JsonValue::Number(n)) => {
            if *n >= 0 {
                Some(*n as u64)
            } else {
                None
            }
        },
        Some(JsonValue::Decimal(d)) => parse_u64_digits(d.as_str()),
        _ => None,
    }
}

/// The configuration text is summarised when it is longer than a threshold
/// that is not 0.
pub fn needs_summary(content_len: usize, threshold: usize) -> (b: bool)
    ensures
        b == (content_len > threshold && threshold > 0),
{
    content_len > threshold && threshold > 0
}

/// Whether a configuration text of `len` bytes is summarised under `threshold`.
pub open spec fn needs_summary_spec(len: int, threshold: int) -> bool {
    len > threshold && threshold > 0
}

/// The text of the request that asks for a summary of `content`.
pub open spec fn summary_prompt_text(content: Seq<char>) -> Seq<char> {
    "Please summarize the following agent configuration in 500-1000 words. Focus on the key aspects: personality, identity, workspace, and behavior guidelines. Keep the summary concise but informative.\n\nConfig content:\n\n"@ + content
}

/// The request that asks the model to summarise the configuration.
pub fn summary_prompt(config_content: &str) -> (p: String)
    ensures
        p@ == "Please summarize the following agent configuration in 500-1000 words. Focus on the key aspects: personality, identity, workspace, and behavior guidelines. Keep the summary concise but informative.\n\nConfig content:\n\n"@ + config_content@,
{
    concat2("Please summarize the following agent configuration in 500-1000 words. Focus on the key aspects: personality, identity, workspace, and behavior guidelines. Keep the summary concise but informative.\n\nConfig content:\n\n", config_content)
}

/// The model's role for a conversation role.
pub open spec fn llm_role(r: MessageRole) -> LlmRole {
    match r {
        MessageRole::System => LlmRole::System,
        MessageRole::User => LlmRole::User,
        MessageRole::Assistant => LlmRole::Assistant,
        MessageRole::Tool => LlmRole::Tool,
    }
}

/// The model's role for a conversation role.
pub fn to_llm_role(r: MessageRole) -> (l: LlmRole)
    ensures
        l == llm_role(r),
{
    match r {
        MessageRole::System => LlmRole::System,
        MessageRole::User => LlmRole::User,
        MessageRole::Assistant => LlmRole::Assistant,
        MessageRole::Tool => LlmRole::Tool,
    }
}

/// The value of a model tool call, in the conversation's terms.
pub open spec fn llm_call_view(c: LlmToolCall) -> ToolCallView {
    ToolCallView { id: c.id@, call_type: c.call_type@, name: c.function.name@, arguments: c.function.arguments@ }
}

/// A conversation tool call as the model's.
pub fn to_llm_tool_calls(calls: &Vec<ToolCall>) -> (r: Vec<LlmToolCall>)
    ensures
        r@.map_values(|c: LlmToolCall| llm_call_view(c)) == crate::session::types::tool_calls_view(calls@),
{
    let mut r: Vec<LlmToolCall> = Vec::new();
    let mut i: usize = 0;
    while i < calls.len()
        invariant
            i <= calls@.len(),
            r@.len() == i,
            forall|j: int| 0 <= j < i ==> llm_call_view(#[trigger] r@[j]) == calls@[j]@,
        decreases calls.len() - i,
    {
        let c = &calls[i];
        r.push(LlmToolCall {
            id: c.id.clone(),
            call_type: c.call_type.clone(),
            function: FunctionCall { name: c.function.name.clone(), arguments: c.function.arguments.clone() },
        });
        i = i + 1;
    }
    assert(r@.map_values(|c: LlmToolCall| llm_call_view(c)) =~= crate::session::types::tool_calls_view(calls@));
    r
}

/// A chat message stands for a conversation message: same role, content,
/// name, tool calls and tool call id.
pub open spec fn stands_for(c: ChatMessage, m: Message) -> bool {
    &&& c.role == llm_role(m.role)
    &&& c.content@ == m.content@
    &&& opt_str_view(c.name) == opt_str_view(m.name)
    &&& (match c.tool_calls {
        Some(tc) => opt_tool_calls_view(m.tool_calls) == Some(tc@.map_values(|x: LlmToolCall| llm_call_view(x))),
        None => m.tool_calls is None,
    })
    &&& opt_str_view(c.tool_call_id) == opt_str_view(m.tool_call_id)
}

/// The conversation sent to the model: the agent configuration as a system
/// message when there is one, then the history in order.
pub fn conversation(system: Option<&str>, history: &Vec<Message>) -> (ms: Vec<ChatMessage>)
    ensures
        system is Some ==> ms@.len() == history@.len() + 1 && ms@[0].role == LlmRole::System
            && ms@[0].content@ == system->0@ && ms@[0].name is None && ms@[0].tool_calls is None
            && ms@[0].tool_call_id is None,
        system is None ==> ms@.len() == history@.len(),
        forall|i: int| 0 <= i < history@.len() ==> stands_for(ms@[i + (if system is Some { 1int } else { 0int })], #[trigger] history@[i]),
{
    let mut ms: Vec<ChatMessage> = Vec::new();
    let k: usize = match system {
        Some(s) => {
            ms.push(ChatMessage::new(LlmRole::System, owned(s)));
            1
        },
        None => 0,
    };
    let mut i: usize = 0;
    while i < history.len()
        invariant
            k == (if system is Some { 1int } else { 0int }),
            i <= history@.len(),
            ms@.len() == i + k,
            system is Some ==> ms@[0].role == LlmRole::System && ms@[0].content@ == system->0@
                && ms@[0].name is None && ms@[0].tool_calls is None && ms@[0].tool_call_id is None,
            forall|j: int| 0 <= j < i ==> stands_for(ms@[j + k], #[trigger] history@[j]),
        decreases history.len() - i,
    {
        let m = &history[i];
        let tool_calls = match &m.tool_calls {
            Some(tc) => Some(to_llm_tool_calls(tc)),
            None => None,
        };
        ms.push(ChatMessage {
            role: to_llm_role(m.role),
            content: m.content.clone(),
            name: copy_opt_string(&m.name),
            tool_calls,
            tool_call_id: copy_opt_string(&m.tool_call_id),
        });
        assert(stands_for(ms@[i + k], history@[i as int]));
        i = i + 1;
    }
    ms
}

/// The model's base URL from the agent configuration, which start-up needs.
pub fn required_base_url(base_url: Option<String>) -> (r: Result<String, crate::runtime::types::RuntimeError>)
    ensures
        base_url matches Some(u) ==> (r matches Ok(v) && v@ == u@),
        base_url is None ==> (r matches Err(crate::runtime::types::RuntimeError::ConfigError(m))
            && m@ == "base_url is required in LLM config"@),
{
    match base_url {
        Some(u) => Ok(u),
        None => Err(crate::runtime::types::RuntimeError::ConfigError(owned("base_url is required in LLM config"))),
    }
}

/// A tool an MCP server offers, with the position of that server among the
/// runtime's servers.
pub struct ServerTool {
    pub server: usize,
    pub executor: MCPToolExecutor,
}

/// The agent runtime's state: the tools, the sessions, the skills, the agent
/// configuration text and whether start-up has completed. The connection to
/// the model and the MCP servers' processes are held beside it by the caller,
/// which reports whether a model connection exists.
pub struct AgentRuntime {
    tool_manager: ToolManager<BuiltinTool>,
    server_tools: ToolManager<ServerTool>,
    session_manager: SessionManager,
    skill_manager: Option<SkillManager>,
    initialized: bool,
    has_llm: bool,
    agent_config_content: Option<String>,
    config_summary_threshold: usize,
}

impl AgentRuntime {
    /// The consistency of the parts.
    pub closed spec fn wf(&self) -> bool {
        &&& self.tool_manager.wf()
        &&& self.server_tools.wf()
        &&& self.session_manager.wf()
        &&& self.skill_manager matches Some(m) ==> m.wf()
    }

    /// The builtin tools.
    pub closed spec fn tools(&self) -> ToolManager<BuiltinTool> {
        self.tool_manager
    }

    /// The tools the MCP servers offer.
    pub closed spec fn server_tools(&self) -> ToolManager<ServerTool> {
        self.server_tools
    }

    /// The sessions.
    pub closed spec fn sessions(&self) -> SessionManager {
        self.session_manager
    }

    /// The skills, once loaded.
    pub closed spec fn skills(&self) -> Option<SkillManager> {
        self.skill_manager
    }

    /// Whether start-up has completed.
    pub closed spec fn initialized(&self) -> bool {
        self.initialized
    }

    /// Whether a model connection exists.
    pub closed spec fn has_llm(&self) -> bool {
        self.has_llm
    }

    /// The agent configuration text, once read.
    pub closed spec fn agent_config(&self) -> Option<Seq<char>> {
        opt_str_view(self.agent_config_content)
    }

    /// The length in bytes above which the configuration text is summarised.
    pub closed spec fn threshold(&self) -> usize {
        self.config_summary_threshold
    }

    /// A runtime before start-up: no tools, no sessions (at most 100 messages
    /// each, no expiry), no skills, no configuration text, the default summary
    /// threshold, and no model.
    pub fn new() -> (r: AgentRuntime)
        ensures
            r.wf(),
            r.tools().registry() == Map::<Seq<char>, (ToolMetadata, BuiltinTool)>::empty(),
            r.server_tools().registry() == Map::<Seq<char>, (ToolMetadata, ServerTool)>::empty(),
            r.sessions()@ == Map::<Seq<char>, crate::session::types::SessionView>::empty(),
            r.sessions().max_history() == 100,
            r.sessions().ttl() is None,
            !r.sessions().persists(),
            r.skills() is None,
            !r.initialized(),
            !r.has_llm(),
            r.agent_config() is None,
            r.threshold() == DEFAULT_SUMMARY_THRESHOLD,
    {
        AgentRuntime {
            tool_manager: ToolManager::new(),
            server_tools: ToolManager::new(),
            session_manager: SessionManager::new(SessionConfig { max_history_length: 100, session_ttl: None }),
            skill_manager: None,
            initialized: false,
            has_llm: false,
            agent_config_content: None,
            config_summary_threshold: DEFAULT_SUMMARY_THRESHOLD,
        }
    }

    /// Whether start-up has completed.
    pub fn is_initialized(&self) -> (b: bool)
        ensures
            b == self.initialized(),
    {
        self.initialized
    }

    /// The builtin tools.
    pub fn get_tool_manager(&self) -> (m: &ToolManager<BuiltinTool>)
        requires
            self.wf(),
        ensures
            *m == self.tools(),
            m.wf(),
    {
        &self.tool_manager
    }

    /// The tools the MCP servers offer.
    pub fn get_server_tools(&self) -> (m: &ToolManager<ServerTool>)
        requires
            self.wf(),
        ensures
            *m == self.server_tools(),
            m.wf(),
    {
        &self.server_tools
    }

    /// The sessions.
    pub fn get_session_manager(&self) -> (m: &SessionManager)
        requires
            self.wf(),
        ensures
            *m == self.sessions(),
            m.wf(),
    {
        &self.session_manager
    }

    /// The skills, once loaded.
    pub fn get_skill_manager(&self) -> (m: Option<&SkillManager>)
        ensures
            match m {
                Some(x) => self.skills() == Some(*x),
                None => self.skills() is None,
            },
    {
        match &self.skill_manager {
            Some(x) => Some(x),
            None => None,
        }
    }

    /// The agent configuration text, once read.
    pub fn get_agent_config_content(&self) -> (c: Option<&str>)
        ensures
            match c {
                Some(x) => self.agent_config() == Some(x@),
                None => self.agent_config() is None,
            },
    {
        match &self.agent_config_content {
            Some(x) => Some(x.as_str()),
            None => None,
        }
    }
}

impl AgentRuntime {
    /// Records that the caller holds a connection to the model.
    pub fn connect_llm(&mut self)
        requires
            old(self).wf(),
        ensures
            final(self).wf(),
            final(self).has_llm(),
            final(self).tools() == old(self).tools(),
            final(self).server_tools() == old(self).server_tools(),
            final(self).sessions() == old(self).sessions(),
            final(self).skills() == old(self).skills(),
            final(self).initialized() == old(self).initialized(),
            final(self).agent_config() == old(self).agent_config(),
            final(self).threshold() == old(self).threshold(),
    {
        self.has_llm = true;
    }

    /// Registers the eight builtin tools (see [`register_builtin_tools`]).
    pub fn register_builtin_tools(&mut self)
        requires
            old(self).wf(),
        ensures
            final(self).wf(),
            forall|k: Seq<char>| #[trigger] final(self).tools().registry().contains_key(k)
                <==> (old(self).tools().registry().contains_key(k) || is_builtin_name(k)),
            forall|i: int| 0 <= i < builtin_catalog().len() ==> {
                let e = #[trigger] final(self).tools().registry()[builtin_catalog()[i].name];
                e.0@ == builtin_catalog()[i] && e.1.meta()@ == builtin_catalog()[i]
            },
            forall|k: Seq<char>| !is_builtin_name(k) && old(self).tools().registry().contains_key(k)
                ==> #[trigger] final(self).tools().registry()[k] == old(self).tools().registry()[k],
            final(self).has_llm() == old(self).has_llm(),
            final(self).server_tools() == old(self).server_tools(),
            final(self).sessions() == old(self).sessions(),
            final(self).skills() == old(self).skills(),
            final(self).initialized() == old(self).initialized(),
            final(self).agent_config() == old(self).agent_config(),
            final(self).threshold() == old(self).threshold(),
    {
        register_builtin_tools(&mut self.tool_manager);
    }

    /// Registers a tool the MCP server at position `server` offers, under its
    /// name, replacing a server tool of that name.
    pub fn register_server_tool(&mut self, server: usize, tool: MCPTool)
        requires
            old(self).wf(),
        ensures
            final(self).wf(),
            final(self).server_tools().registry().dom() == old(self).server_tools().registry().dom().insert(tool.name@),
            final(self).server_tools().registry()[tool.name@].0@ == mcp_tool_metadata(tool),
            final(self).server_tools().registry()[tool.name@].1.server == server,
            final(self).server_tools().registry()[tool.name@].1.executor.meta()@ == mcp_tool_metadata(tool),
            forall|k: Seq<char>| k != tool.name@ && old(self).server_tools().registry().contains_key(k)
                ==> #[trigger] final(self).server_tools().registry()[k] == old(self).server_tools().registry()[k],
            final(self).has_llm() == old(self).has_llm(),
            final(self).tools() == old(self).tools(),
            final(self).sessions() == old(self).sessions(),
            final(self).skills() == old(self).skills(),
            final(self).initialized() == old(self).initialized(),
            final(self).agent_config() == old(self).agent_config(),
            final(self).threshold() == old(self).threshold(),
    {
        let ghost t = tool;
        let executor = MCPToolExecutor::new(tool);
        let metadata = executor.metadata().duplicate();
        self.server_tools.register_tool(metadata, ServerTool { server, executor });
        assert(self.server_tools.registry().dom() =~= old(self).server_tools.registry().dom().insert(t.name@));
    }

    /// Takes the summary threshold from the agent configuration's
    /// `configSummaryThreshold` when it holds a non-negative integer; keeps
    /// the current one otherwise, or when the configuration could not be read.
    pub fn set_summary_threshold(&mut self, config: Option<&JsonValue>)
        requires
            old(self).wf(),
        ensures
            final(self).wf(),
            final(self).threshold() == match config {
                Some(c) => match threshold_of(c@) {
                    Some(t) => t as usize,
                    None => old(self).threshold(),
                },
                None => old(self).threshold(),
            },
            final(self).has_llm() == old(self).has_llm(),
            final(self).tools() == old(self).tools(),
            final(self).server_tools() == old(self).server_tools(),
            final(self).sessions() == old(self).sessions(),
            final(self).skills() == old(self).skills(),
            final(self).initialized() == old(self).initialized(),
            final(self).agent_config() == old(self).agent_config(),
    {
        match config {
            Some(c) => match summary_threshold(c) {
                Some(t) => {
                    self.config_summary_threshold = t as usize;
                },
                None => {},
            },
            None => {},
        }
    }

    /// Sets the agent configuration text from the agent-config files as read
    /// (see [`combine_agent_config`]).
    pub fn load_agent_config_files(&mut self, files: &Vec<(String, Option<String>)>)
        requires
            old(self).wf(),
        ensures
            final(self).wf(),
            final(self).agent_config() == Some("# Agent Configuration\n\n"@ + config_sections(loaded_view(files@))),
            final(self).has_llm() == old(self).has_llm(),
            final(self).tools() == old(self).tools(),
            final(self).server_tools() == old(self).server_tools(),
            final(self).sessions() == old(self).sessions(),
            final(self).skills() == old(self).skills(),
            final(self).initialized() == old(self).initialized(),
            final(self).threshold() == old(self).threshold(),
    {
        self.agent_config_content = Some(combine_agent_config(files));
    }

    /// The request that asks the model to summarise the configuration text:
    /// only with a model, and for a text longer in bytes than a threshold
    /// that is not 0.
    pub fn summary_request(&self) -> (r: Option<Vec<ChatMessage>>)
        ensures
            match self.agent_config() {
                Some(c) => {
                    if self.has_llm() && needs_summary_spec((vstd::utf8::encode_utf8(c).len() as usize) as int, self.threshold() as int) {
                        r matches Some(ms) && ms@.len() == 1 && ms@[0].role == LlmRole::User
                            && ms@[0].content@ == summary_prompt_text(c)
                            && ms@[0].name is None && ms@[0].tool_calls is None && ms@[0].tool_call_id is None
                    } else {
                        r is None
                    }
                },
                None => r is None,
            },
    {
        match &self.agent_config_content {
            Some(c) => {
                if self.has_llm && needs_summary(c.as_str().len(), self.config_summary_threshold) {
                    let mut ms: Vec<ChatMessage> = Vec::new();
                    ms.push(ChatMessage::new(LlmRole::User, summary_prompt(c.as_str())));
                    Some(ms)
                } else {
                    None
                }
            },
            None => None,
        }
    }

    /// Replaces the configuration text by the model's summary when one came
    /// back; keeps the full text otherwise.
    pub fn apply_summary(&mut self, summary: Option<String>)
        requires
            old(self).wf(),
        ensures
            final(self).wf(),
            final(self).agent_config() == match summary {
                Some(s) => Some(s@),
                None => old(self).agent_config(),
            },
            final(self).has_llm() == old(self).has_llm(),
            final(self).tools() == old(self).tools(),
            final(self).server_tools() == old(self).server_tools(),
            final(self).sessions() == old(self).sessions(),
            final(self).skills() == old(self).skills(),
            final(self).initialized() == old(self).initialized(),
            final(self).threshold() == old(self).threshold(),
    {
        match summary {
            Some(s) => {
                self.agent_config_content = Some(s);
            },
            None => {},
        }
    }

    /// Keeps the loaded skills.
    pub fn set_skill_manager(&mut self, manager: SkillManager)
        requires
            old(self).wf(),
            manager.wf(),
        ensures
            final(self).wf(),
            final(self).skills() == Some(manager),
            final(self).has_llm() == old(self).has_llm(),
            final(self).tools() == old(self).tools(),
            final(self).server_tools() == old(self).server_tools(),
            final(self).sessions() == old(self).sessions(),
            final(self).initialized() == old(self).initialized(),
            final(self).agent_config() == old(self).agent_config(),
            final(self).threshold() == old(self).threshold(),
    {
        self.skill_manager = Some(manager);
    }

    /// Takes the session limits of the agent configuration: at most
    /// `max_history_length` messages per session, and sessions expiring after
    /// `session_ttl` idle seconds (a time-to-live beyond `i64::MAX` seconds
    /// is held as `i64::MAX`). The sessions themselves stay.
    pub fn configure_sessions(&mut self, config: &crate::config::types::SessionConfig)
        requires
            old(self).wf(),
        ensures
            final(self).wf(),
            final(self).sessions()@ == old(self).sessions()@,
            final(self).sessions().max_history() == config.max_history_length,
            final(self).sessions().ttl() == match config.session_ttl {
                Some(t) => Some(if t <= i64::MAX { t as i64 } else { i64::MAX }),
                None => None,
            },
            final(self).sessions().persists() == old(self).sessions().persists(),
            final(self).sessions().pending() == old(self).sessions().pending(),
            final(self).has_llm() == old(self).has_llm(),
            final(self).tools() == old(self).tools(),
            final(self).server_tools() == old(self).server_tools(),
            final(self).skills() == old(self).skills(),
            final(self).initialized() == old(self).initialized(),
            final(self).agent_config() == old(self).agent_config(),
            final(self).threshold() == old(self).threshold(),
    {
        let ttl: Option<i64> = match config.session_ttl {
            Some(t) => Some(if t <= 9223372036854775807u64 { t as i64 } else { i64::MAX }),
            None => None,
        };
        self.session_manager.set_config(SessionConfig { max_history_length: config.max_history_length, session_ttl: ttl });
    }

    /// Marks start-up complete.
    pub fn mark_initialized(&mut self)
        requires
            old(self).wf(),
        ensures
            final(self).wf(),
            final(self).initialized(),
            final(self).has_llm() == old(self).has_llm(),
            final(self).tools() == old(self).tools(),
            final(self).server_tools() == old(self).server_tools(),
            final(self).sessions() == old(self).sessions(),
            final(self).skills() == old(self).skills(),
            final(self).agent_config() == old(self).agent_config(),
            final(self).threshold() == old(self).threshold(),
    {
        self.initialized = true;
    }
}

impl AgentRuntime {
    /// The sessions, to change them.
    pub fn get_session_manager_mut(&mut self) -> (m: &mut SessionManager)
        requires
            old(self).wf(),
        ensures
            *m == old(self).sessions(),
            m.wf(),
            final(self).sessions() == *final(m),
            final(m).wf() ==> final(self).wf(),
            final(self).has_llm() == old(self).has_llm(),
            final(self).tools() == old(self).tools(),
            final(self).server_tools() == old(self).server_tools(),
            final(self).skills() == old(self).skills(),
            final(self).initialized() == old(self).initialized(),
            final(self).agent_config() == old(self).agent_config(),
            final(self).threshold() == old(self).threshold(),
    {
        &mut self.session_manager
    }

    /// The first half of a conversation turn at time `now`, on this
    /// runtime's sessions, start-up state and model; the conversation shown
    /// to the model opens with the agent configuration (see [`turn_started`]).
    pub fn start_run_at(&mut self, request: &RunRequest, fresh_id: String, now: i64) -> (r: Result<(String, Vec<ChatMessage>), ApiError>)
        requires
            old(self).wf(),
        ensures
            final(self).wf(),
            turn_started(old(self).sessions(), final(self).sessions(), *request, old(self).agent_config(), fresh_id@,
                old(self).initialized(), old(self).has_llm(), now as int, r),
            final(self).has_llm() == old(self).has_llm(),
            final(self).tools() == old(self).tools(),
            final(self).server_tools() == old(self).server_tools(),
            final(self).skills() == old(self).skills(),
            final(self).initialized() == old(self).initialized(),
            final(self).agent_config() == old(self).agent_config(),
            final(self).threshold() == old(self).threshold(),
    {
        let initialized = self.initialized;
        let has_llm = self.has_llm;
        let system = match &self.agent_config_content {
            Some(c) => Some(c.as_str()),
            None => None,
        };
        start_turn_at(&mut self.session_manager, request, system, fresh_id, initialized, has_llm, now)
    }

    /// The second half of a conversation turn at time `now`, on this
    /// runtime's sessions (see [`turn_finished`]).
    pub fn finish_run_at(&mut self, session_id: String, reply: String, records: Vec<JsonValue>, now: i64) -> (r: Result<RunResponse, ApiError>)
        requires
            old(self).wf(),
        ensures
            final(self).wf(),
            turn_finished(old(self).sessions(), final(self).sessions(), session_id@, reply@, records@, now as int, r),
            final(self).has_llm() == old(self).has_llm(),
            final(self).tools() == old(self).tools(),
            final(self).server_tools() == old(self).server_tools(),
            final(self).skills() == old(self).skills(),
            final(self).initialized() == old(self).initialized(),
            final(self).agent_config() == old(self).agent_config(),
            final(self).threshold() == old(self).threshold(),
    {
        finish_turn_at(&mut self.session_manager, session_id, reply, records, now)
    }

    /// The first half of a chat turn at time `now`, as the runtime's own
    /// chat takes it. Before start-up it fails with "AgentRuntime not
    /// initialized. Call initialize() first." and changes nothing. Then the
    /// session is opened and the user's message added (see
    /// [`chat_started`]); the conversation for the model is the agent
    /// configuration, the note of the skill the message calls for, and the
    /// history; without a model the turn fails after the session part.
    pub fn start_chat_at(&mut self, request: &RunRequest, fresh_id: String, now: i64) -> (r: Result<(String, Vec<ChatMessage>), ApiError>)
        requires
            old(self).wf(),
        ensures
            final(self).wf(),
            !old(self).initialized() ==> final(self).sessions() == old(self).sessions()
                && (r matches Err(ApiError::InternalServerError(m))
                    && m@ == "AgentRuntime not initialized. Call initialize() first."@),
            old(self).initialized() ==> chat_started(old(self).sessions(), final(self).sessions(), *request,
                fresh_id@, now as int, old(self).agent_config(), chat_note(old(self).skills(), request.message@),
                old(self).has_llm(), r),
            final(self).has_llm() == old(self).has_llm(),
            final(self).tools() == old(self).tools(),
            final(self).server_tools() == old(self).server_tools(),
            final(self).skills() == old(self).skills(),
            final(self).initialized() == old(self).initialized(),
            final(self).agent_config() == old(self).agent_config(),
            final(self).threshold() == old(self).threshold(),
    {
        if !self.initialized {
            return Err(ApiError::InternalServerError(owned("AgentRuntime not initialized. Call initialize() first.")));
        }
        let ghost before = self.session_manager;
        let opened = open_chat_at(&mut self.session_manager, request, fresh_id, now);
        match opened {
            Err(e) => Err(e),
            Ok((sid, history)) => {
                let system = match &self.agent_config_content {
                    Some(c) => Some(c.as_str()),
                    None => None,
                };
                let mut ms = conversation(system, &history);
                let k1: usize = match system {
                    Some(_) => 1,
                    None => 0,
                };
                let ghost conv = ms@;
                let note: Option<String> = match &self.skill_manager {
                    Some(m) => match m.find_skill_by_trigger(request.message.as_str()) {
                        Some(sk) => {
                            proof {
                                let i = choose|i: int| 0 <= i < m.order().len()
                                    && *sk == m.skills()[m.order()[i]]
                                    && crate::skill::types::triggered_by(*sk, request.message@)
                                    && forall|j: int| 0 <= j < i ==> !crate::skill::types::triggered_by(#[trigger] m.skills()[m.order()[j]], request.message@);
                                lemma_first_triggered(*m, request.message@, i);
                            }
                            Some(skill_note_text(sk))
                        },
                        None => {
                            proof {
                                lemma_none_triggered(*m, request.message@);
                            }
                            None
                        },
                    },
                    None => None,
                };
                let ghost nv: Option<Seq<char>> = opt_str_view(note);
                assert(nv == chat_note(self.skills(), request.message@));
                match note {
                    Some(t) => {
                        ms.insert(k1, ChatMessage::new(LlmRole::System, t));
                    },
                    None => {},
                }
                if !self.has_llm {
                    return Err(ApiError::InternalServerError(owned("LLM connector not initialized")));
                }
                proof {
                    let h = crate::session::types::messages_view(history@);
                    let k2 = system_count(nv);
                    assert forall|i: int| 0 <= i < h.len() implies shows(#[trigger] ms@[k1 + k2 + i], h[i]) by {
                        assert(ms@[k1 + k2 + i] == conv[k1 + i]);
                        assert(h[i] == history@[i]@);
                    }
                    if let Some(c) = self.agent_config() {
                        assert(ms@[0] == conv[0]);
                    }
                }
                Ok((sid, ms))
            },
        }
    }

    /// The second half of a chat turn at time `now`: the answer kept in the
    /// session and the chat's response (see [`chat_finished`]).
    pub fn finish_chat_at(&mut self, session_id: String, reply: String, now: i64) -> (r: Result<RunResponse, ApiError>)
        requires
            old(self).wf(),
        ensures
            final(self).wf(),
            chat_finished(old(self).sessions(), final(self).sessions(), session_id@, reply@, now as int, r),
            final(self).has_llm() == old(self).has_llm(),
            final(self).tools() == old(self).tools(),
            final(self).server_tools() == old(self).server_tools(),
            final(self).skills() == old(self).skills(),
            final(self).initialized() == old(self).initialized(),
            final(self).agent_config() == old(self).agent_config(),
            final(self).threshold() == old(self).threshold(),
    {
        record_chat_answer_at(&mut self.session_manager, session_id, reply, now)
    }

    /// The tools a chat offers the model: none when no tool is registered,
    /// otherwise every tool (see [`AgentRuntime::all_tool_metadata`]).
    pub fn chat_tools(&self) -> (r: Option<Vec<ToolMetadata>>)
        requires
            self.wf(),
        ensures
            self.tools().registry().dom().len() + self.server_tools().registry().dom().len() == 0 <==> r is None,
            r matches Some(ms) ==> ms@.len() == self.tools().order().len() + self.server_tools().order().len()
                && (forall|i: int| 0 <= i < self.tools().order().len()
                    ==> (#[trigger] ms@[i])@ == self.tools().registry()[self.tools().order()[i]].0@)
                && (forall|i: int| 0 <= i < self.server_tools().order().len()
                    ==> (#[trigger] ms@[self.tools().order().len() + i])@
                        == self.server_tools().registry()[self.server_tools().order()[i]].0@),
    {
        proof {
            self.tool_manager.lemma_order();
            self.server_tools.lemma_order();
        }
        if self.tool_manager.tool_count() == 0 && self.server_tools.tool_count() == 0 {
            None
        } else {
            Some(self.all_tool_metadata())
        }
    }

    /// The metadata of every tool offered to the model: the builtin tools in
    /// registration order, then the servers' tools in registration order.
    pub fn all_tool_metadata(&self) -> (ms: Vec<ToolMetadata>)
        requires
            self.wf(),
        ensures
            ms@.len() == self.tools().order().len() + self.server_tools().order().len(),
            forall|i: int| 0 <= i < self.tools().order().len()
                ==> (#[trigger] ms@[i])@ == self.tools().registry()[self.tools().order()[i]].0@,
            forall|i: int| 0 <= i < self.server_tools().order().len()
                ==> (#[trigger] ms@[self.tools().order().len() + i])@
                    == self.server_tools().registry()[self.server_tools().order()[i]].0@,
    {
        let mut ms = self.tool_manager.all_metadata();
        let mut more = self.server_tools.all_metadata();
        let ghost a = ms@;
        let ghost b = more@;
        ms.append(&mut more);
        assert(ms@ =~= a + b);
        ms
    }
}

} // verus!
