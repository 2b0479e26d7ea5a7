//! The state of an MCP client that speaks to its server over stdio, and the
//! decisions it takes; the child process and its pipes are the caller's.

use vstd::prelude::*;

use crate::json::{JsonValue, JsonView, lemma_json_members_view_ext};
use crate::mcp::client::{client_capabilities, default_client_capabilities};
use crate::mcp::types::{MCPContent, MCPError, MCPInitializeResult, MCPResponse, MCPServerCapabilities, MCPServerInfo, MCPTool, MCPToolResult, ResponsePayload, request_key, response_outcome};
use crate::text::{concat3, copy_pairs, copy_strings, owned, str_equal, string_pairs_view, strs_view};

verus! {

broadcast use vstd::string::group_string_axioms;

/// An MCP client for a server started as a command: what to start, and what
/// the server said of itself once initialized.
#[derive(Debug)]
pub struct MCPStdioClient {
    server_name: String,
    command: String,
    args: Vec<String>,
    env: Vec<(String, String)>,
    initialized: bool,
    server_capabilities: Option<MCPServerCapabilities>,
    server_info: Option<MCPServerInfo>,
}

/// The texts of the contents that have one, in order.
pub open spec fn content_texts(content: Seq<MCPContent>) -> Seq<Seq<char>>
    decreases content.len(),
{
    if content.len() == 0 {
        Seq::empty()
    } else {
        let rest = content_texts(content.subrange(0, content.len() - 1));
        match content[content.len() - 1].text {
            Some(t) => rest.push(t@),
            None => rest,
        }
    }
}

/// Texts joined with '\n' between them.
pub open spec fn join_lines(ts: Seq<Seq<char>>) -> Seq<char>
    decreases ts.len(),
{
    if ts.len() == 0 {
        Seq::empty()
    } else if ts.len() == 1 {
        ts[0]
    } else {
        join_lines(ts.subrange(0, ts.len() - 1)) + "\n"@ + ts[ts.len() - 1]
    }
}

/// The parameters of the `initialize` request: protocol version
/// "2024-11-05", the client's capabilities and who the client is.
pub open spec fn initialize_params() -> JsonView {
    JsonView::Object(seq![
        ("protocolVersion"@, JsonView::Str("2024-11-05"@)),
        ("capabilities"@, client_capabilities()),
        ("clientInfo"@, JsonView::Object(seq![
            ("name"@, JsonView::Str("agent-runtime-rs"@)),
            ("version"@, JsonView::Str(crate::VERSION@)),
        ])),
    ])
}

/// The parameters of a `tools/call` request.
pub open spec fn tool_call_params(tool_name: Seq<char>, arguments: JsonView) -> JsonView {
    JsonView::Object(seq![("name"@, JsonView::Str(tool_name)), ("arguments"@, arguments)])
}

impl MCPStdioClient {
    /// The server's name.
    pub closed spec fn name(&self) -> Seq<char> {
        self.server_name@
    }

    /// The command that starts the server.
    pub closed spec fn program(&self) -> Seq<char> {
        self.command@
    }

    /// The command's arguments.
    pub closed spec fn arguments(&self) -> Seq<Seq<char>> {
        strs_view(self.args@)
    }

    /// The environment given to the server.
    pub closed spec fn environment(&self) -> Seq<(Seq<char>, Seq<char>)> {
        string_pairs_view(self.env@)
    }

    /// Whether the handshake has completed.
    pub closed spec fn ready(&self) -> bool {
        self.initialized
    }

    /// A client that has not started its server.
    pub fn new(server_name: &str, command: &str, args: Vec<String>, env: Vec<(String, String)>) -> (c: MCPStdioClient)
        ensures
            c.name() == server_name@,
            c.program() == command@,
            c.arguments() == strs_view(args@),
            c.environment() == string_pairs_view(env@),
            !c.ready(),
            c.caps() is None,
            c.info() is None,
    {
        MCPStdioClient {
            server_name: owned(server_name),
            command: owned(command),
            args,
            env,
            initialized: false,
            server_capabilities: None,
            server_info: None,
        }
    }

    /// The server's name.
    pub fn server_name(&self) -> (n: &str)
        ensures
            n@ == self.name(),
    {
        self.server_name.as_str()
    }

    /// The command that starts the server.
    pub fn command(&self) -> (c: &str)
        ensures
            c@ == self.program(),
    {
        self.command.as_str()
    }

    /// A copy of the command's arguments.
    pub fn args(&self) -> (a: Vec<String>)
        ensures
            strs_view(a@) == self.arguments(),
    {
        copy_strings(&self.args)
    }

    /// A copy of the environment given to the server.
    pub fn env(&self) -> (e: Vec<(String, String)>)
        ensures
            string_pairs_view(e@) == self.environment(),
    {
        copy_pairs(&self.env)
    }

    /// Whether the handshake has completed.
    pub fn is_initialized(&self) -> (b: bool)
        ensures
            b == self.ready(),
    {
        self.initialized
    }

    /// What the server offers, once known.
    pub closed spec fn caps(&self) -> Option<MCPServerCapabilities> {
        self.server_capabilities
    }

    /// Who the server is, once known.
    pub closed spec fn info(&self) -> Option<MCPServerInfo> {
        self.server_info
    }

    /// What the server offers, once known.
    pub fn capabilities(&self) -> (r: Option<&MCPServerCapabilities>)
        ensures
            r matches Some(c) ==> self.caps() == Some(*c),
            r is None ==> self.caps() is None,
    {
        match &self.server_capabilities {
            Some(c) => Some(c),
            None => None,
        }
    }

    /// Who the server is, once known.
    pub fn server_info(&self) -> (r: Option<&MCPServerInfo>)
        ensures
            r matches Some(i) ==> self.info() == Some(*i),
            r is None ==> self.info() is None,
    {
        match &self.server_info {
            Some(i) => Some(i),
            None => None,
        }
    }

    /// Initializing starts only once: an initialized client refuses.
    pub fn begin_initialize(&self) -> (r: Result<(), MCPError>)
        ensures
            self.ready() ==> (r matches Err(MCPError::Connection(m)) && m@ == "Already initialized"@),
            !self.ready() ==> r is Ok,
    {
        if self.initialized {
            return Err(MCPError::Connection(owned("Already initialized")));
        }
        Ok(())
    }

    /// The error of a server that could not be started.
    pub fn start_failure(&self, error: &str) -> (e: MCPError)
        ensures
            e matches MCPError::Connection(m) && m@ == "Failed to start server '"@ + self.name() + "': "@ + error@,
    {
        let mut m = concat3("Failed to start server '", self.server_name.as_str(), "': ");
        m.append(error);
        MCPError::Connection(m)
    }

    /// Keeps what the server said of itself in its answer to `initialize`,
    /// and hands back the protocol version it named.
    pub fn record_server(&mut self, result: MCPInitializeResult) -> (version: Option<String>)
        ensures
            final(self).caps() == result.capabilities,
            final(self).info() == result.server_info,
            version == result.protocol_version,
            final(self).ready() == old(self).ready(),
            final(self).name() == old(self).name(),
            final(self).program() == old(self).program(),
            final(self).arguments() == old(self).arguments(),
            final(self).environment() == old(self).environment(),
    {
        self.server_capabilities = result.capabilities;
        self.server_info = result.server_info;
        result.protocol_version
    }

    /// Marks the handshake complete.
    pub fn mark_initialized(&mut self)
        ensures
            final(self).ready(),
            final(self).caps() == old(self).caps(),
            final(self).info() == old(self).info(),
            final(self).name() == old(self).name(),
            final(self).program() == old(self).program(),
            final(self).arguments() == old(self).arguments(),
            final(self).environment() == old(self).environment(),
    {
        self.initialized = true;
    }

    /// Requests need a completed handshake.
    pub fn require_initialized(&self) -> (r: Result<(), MCPError>)
        ensures
            !self.ready() ==> (r matches Err(MCPError::Connection(m)) && m@ == "Not initialized"@),
            self.ready() ==> r is Ok,
    {
        if !self.initialized {
            return Err(MCPError::Connection(owned("Not initialized")));
        }
        Ok(())
    }

    /// Whether shutting down has anything to do: only an initialized client
    /// sends `shutdown` and `exit` and stops its server.
    pub fn needs_shutdown(&self) -> (b: bool)
        ensures
            b == self.ready(),
    {
        self.initialized
    }

    /// Marks the client shut down.
    pub fn mark_shut_down(&mut self)
        ensures
            !final(self).ready(),
            final(self).caps() == old(self).caps(),
            final(self).info() == old(self).info(),
            final(self).name() == old(self).name(),
            final(self).program() == old(self).program(),
            final(self).arguments() == old(self).arguments(),
            final(self).environment() == old(self).environment(),
    {
        self.initialized = false;
    }
}

/// The parameters of the `initialize` request.
pub fn initialize_request_params() -> (v: JsonValue)
    ensures
        v@ == initialize_params(),
{
    let mut info: Vec<(String, JsonValue)> = Vec::new();
    info.push((owned("name"), JsonValue::Str(owned("agent-runtime-rs"))));
    info.push((owned("version"), JsonValue::Str(owned(crate::VERSION))));
    let mut members: Vec<(String, JsonValue)> = Vec::new();
    members.push((owned("protocolVersion"), JsonValue::Str(owned("2024-11-05"))));
    members.push((owned("capabilities"), default_client_capabilities()));
    members.push((owned("clientInfo"), JsonValue::Object(info)));
    proof {
        lemma_json_members_view_ext(info@, seq![
            ("name"@, JsonView::Str("agent-runtime-rs"@)),
            ("version"@, JsonView::Str(crate::VERSION@)),
        ]);
        lemma_json_members_view_ext(members@, seq![
            ("protocolVersion"@, JsonView::Str("2024-11-05"@)),
            ("capabilities"@, client_capabilities()),
            ("clientInfo"@, JsonView::Object(seq![
                ("name"@, JsonView::Str("agent-runtime-rs"@)),
                ("version"@, JsonView::Str(crate::VERSION@)),
            ])),
        ]);
    }
    JsonValue::Object(members)
}

/// The first tool of the list with this name; `ToolNotFound` when none has it.
pub fn find_tool<'a>(tools: &'a Vec<MCPTool>, tool_name: &str) -> (r: Result<&'a MCPTool, MCPError>)
    ensures
        r matches Ok(t) ==> exists|i: int| 0 <= i < tools@.len() && tools@[i] == *t && t.name@ == tool_name@
            && forall|j: int| 0 <= j < i ==> tools@[j].name@ != tool_name@,
        r is Err ==> (r matches Err(MCPError::ToolNotFound(n)) && n@ == tool_name@
            && forall|j: int| 0 <= j < tools@.len() ==> tools@[j].name@ != tool_name@),
{
    let mut i: usize = 0;
    while i < tools.len()
        invariant
            i <= tools@.len(),
            forall|j: int| 0 <= j < i ==> tools@[j].name@ != tool_name@,
        decreases tools.len() - i,
    {
        if str_equal(tools[i].name.as_str(), tool_name) {
            return Ok(&tools[i]);
        }
        i = i + 1;
    }
    Err(MCPError::ToolNotFound(owned(tool_name)))
}

/// The parameters of a `tools/call` request.
pub fn tool_call_request_params(tool_name: &str, arguments: JsonValue) -> (v: JsonValue)
    ensures
        v@ == tool_call_params(tool_name@, arguments@),
{
    let ghost a = arguments@;
    let mut members: Vec<(String, JsonValue)> = Vec::new();
    members.push((owned("name"), JsonValue::Str(owned(tool_name))));
    members.push((owned("arguments"), arguments));
    proof {
        lemma_json_members_view_ext(members@, seq![("name"@, JsonView::Str(tool_name@)), ("arguments"@, a)]);
    }
    JsonValue::Object(members)
}

/// A tool result the server flagged as an error becomes a tool-execution
/// error with its texts joined by '\n'; any other result is handed back.
pub fn tool_call_outcome(result: MCPToolResult) -> (r: Result<MCPToolResult, MCPError>)
    ensures
        result.is_error == Some(true) ==> (r matches Err(MCPError::ToolExecution(m))
            && m@ == join_lines(content_texts(result.content@))),
        result.is_error != Some(true) ==> r == Ok::<MCPToolResult, MCPError>(result),
{
    let flagged = match result.is_error {
        Some(b) => b,
        None => false,
    };
    if !flagged {
        return Ok(result);
    }
    let ghost cv = result.content@;
    let mut out = String::new();
    let mut count: usize = 0;
    let mut i: usize = 0;
    assert(cv.subrange(0, 0) =~= Seq::<MCPContent>::empty());
    while i < result.content.len()
        invariant
            cv == result.content@,
            i <= cv.len(),
            count <= i,
            count == content_texts(cv.subrange(0, i as int)).len(),
            out@ == join_lines(content_texts(cv.subrange(0, i as int))),
        decreases result.content.len() - i,
    {
        let ghost ts = content_texts(cv.subrange(0, i as int));
        assert(cv.subrange(0, i + 1).subrange(0, i as int) =~= cv.subrange(0, i as int));
        match &result.content[i].text {
            Some(t) => {
                let ghost ts2 = ts.push(t@);
                assert(ts2.subrange(0, ts2.len() - 1) =~= ts);
                if count > 0 {
                    out.append("\n");
                }
                out.append(t.as_str());
                if count == 0 {
                    assert(ts.len() == 0);
                    assert(out@ =~= t@);
                }
                count = count + 1;
            },
            None => {},
        }
        i = i + 1;
    }
    assert(cv.subrange(0, i as int) =~= cv);
    Err(MCPError::ToolExecution(out))
}

/// What a response read from the server means to the request with id `id`:
/// nothing when it answers another request or has no id; otherwise its
/// result, or the JSON-RPC error it carries.
pub fn answer_for(response: MCPResponse, id: &str) -> (r: Option<Result<JsonValue, MCPError>>)
    ensures
        request_key(response.id) != Some(id@) ==> r is None,
        request_key(response.id) == Some(id@) ==> (
            (response.payload matches ResponsePayload::Result { result } ==> r == Some(Ok::<JsonValue, MCPError>(result)))
            && (response.payload matches ResponsePayload::Error { error } ==> r == Some(Err::<JsonValue, MCPError>(
                MCPError::JsonRpc { code: error.code, message: error.message, data: error.data })))
        ),
{
    match response.id.key() {
        Some(k) => {
            if str_equal(k.as_str(), id) {
                Some(response_outcome(response))
            } else {
                None
            }
        },
        None => None,
    }
}

} // verus!
