//! The MCP servers a tools configuration declares, as the client sees them.

use vstd::prelude::*;

use crate::config::types::{MCPServerConfigNew, MCPServerConfigOld, MCPServers, ToolsConfig};
use crate::error::ConfigError;
use crate::keyed::KeyedList;
use crate::mcp::stdio_client::MCPStdioClient;
use crate::text::{concat3, copy_pairs, copy_strings, string_pairs_view, strs_view};

verus! {

broadcast use vstd::string::group_string_axioms;

/// How the client reaches a server.
#[derive(Debug, Clone)]
pub enum MCPServerTransport {
    Stdio { command: String, args: Vec<String>, env: Vec<(String, String)> },
    Http { url: String, headers: Option<Vec<(String, String)>> },
    WebSocket { url: String },
}

/// Mathematical value of a transport.
pub enum MCPServerTransportView {
    Stdio { command: Seq<char>, args: Seq<Seq<char>>, env: Seq<(Seq<char>, Seq<char>)> },
    Http { url: Seq<char>, headers: Option<Seq<(Seq<char>, Seq<char>)>> },
    WebSocket { url: Seq<char> },
}

impl View for MCPServerTransport {
    type V = MCPServerTransportView;

    open spec fn view(&self) -> MCPServerTransportView {
        match self {
            MCPServerTransport::Stdio { command, args, env } => MCPServerTransportView::Stdio {
                command: command@,
                args: strs_view(args@),
                env: string_pairs_view(env@),
            },
            MCPServerTransport::Http { url, headers } => MCPServerTransportView::Http {
                url: url@,
                headers: match headers { Some(h) => Some(string_pairs_view(h@)), None => None },
            },
            MCPServerTransport::WebSocket { url } => MCPServerTransportView::WebSocket { url: url@ },
        }
    }
}

/// A server as the client sees it.
#[derive(Debug, Clone)]
pub struct MCPServerConfig {
    pub name: String,
    pub transport: MCPServerTransport,
    pub enabled: bool,
}

/// Mathematical value of a server configuration.
pub struct MCPServerConfigView {
    pub name: Seq<char>,
    pub transport: MCPServerTransportView,
    pub enabled: bool,
}

impl View for MCPServerConfig {
    type V = MCPServerConfigView;

    open spec fn view(&self) -> MCPServerConfigView {
        MCPServerConfigView { name: self.name@, transport: self.transport@, enabled: self.enabled }
    }
}

/// A server is enabled unless its configuration says otherwise.
pub fn default_enabled() -> (b: bool)
    ensures
        b,
{
    true
}

/// A server of the current format: started by its command, with its
/// arguments and environment (none when absent), enabled unless disabled.
pub open spec fn stdio_server(name: Seq<char>, c: MCPServerConfigNew) -> MCPServerConfigView {
    MCPServerConfigView {
        name,
        transport: MCPServerTransportView::Stdio {
            command: c.command@,
            args: strs_view(c.args@),
            env: match c.env { Some(e) => string_pairs_view(e@), None => Seq::empty() },
        },
        enabled: c.disabled != Some(true),
    }
}

/// A server of the older format: reached over HTTP at its URL, enabled.
pub open spec fn http_server(c: MCPServerConfigOld) -> MCPServerConfigView {
    MCPServerConfigView {
        name: c.name@,
        transport: MCPServerTransportView::Http { url: c.url@, headers: None },
        enabled: true,
    }
}

/// The servers of the current format by name; a later entry of the same name wins.
pub open spec fn new_servers(s: Seq<(String, MCPServerConfigNew)>) -> Map<Seq<char>, MCPServerConfigView>
    decreases s.len(),
{
    if s.len() == 0 {
        Map::empty()
    } else {
        new_servers(s.subrange(0, s.len() - 1)).insert(s[s.len() - 1].0@, stdio_server(s[s.len() - 1].0@, s[s.len() - 1].1))
    }
}

/// The servers of the older format by name; a later entry of the same name wins.
pub open spec fn old_servers(s: Seq<MCPServerConfigOld>) -> Map<Seq<char>, MCPServerConfigView>
    decreases s.len(),
{
    if s.len() == 0 {
        Map::empty()
    } else {
        old_servers(s.subrange(0, s.len() - 1)).insert(s[s.len() - 1].name@, http_server(s[s.len() - 1]))
    }
}

/// The servers a tools configuration declares, by name.
pub open spec fn declared_servers(config: ToolsConfig) -> Map<Seq<char>, MCPServerConfigView> {
    match config.mcp_servers {
        MCPServers::New(s) => new_servers(s@),
        MCPServers::Old(s) => old_servers(s@),
    }
}

/// The servers a tools configuration declares, by name (see [`declared_servers`]).
pub fn load_mcp_servers_from_config(config: &ToolsConfig) -> (r: KeyedList<MCPServerConfig>)
    ensures
        r.wf(),
        r@.dom() == declared_servers(*config).dom(),
        forall|k: Seq<char>| #[trigger] r@.contains_key(k) ==> r@[k]@ == declared_servers(*config)[k],
{
    let mut servers: KeyedList<MCPServerConfig> = KeyedList::new();
    match &config.mcp_servers {
        MCPServers::New(list) => {
            let mut i: usize = 0;
            assert(list@.subrange(0, 0) =~= Seq::<(String, MCPServerConfigNew)>::empty());
            while i < list.len()
                invariant
                    servers.wf(),
                    i <= list@.len(),
                    servers@.dom() == new_servers(list@.subrange(0, i as int)).dom(),
                    forall|k: Seq<char>| #[trigger] servers@.contains_key(k) ==> servers@[k]@ == new_servers(list@.subrange(0, i as int))[k],
                decreases list.len() - i,
            {
                let (name, c) = (&list[i].0, &list[i].1);
                let env = match &c.env {
                    Some(e) => copy_pairs(e),
                    None => Vec::new(),
                };
                let entry = MCPServerConfig {
                    name: name.clone(),
                    transport: MCPServerTransport::Stdio { command: c.command.clone(), args: copy_strings(&c.args), env },
                    enabled: match c.disabled { Some(d) => !d, None => true },
                };
                proof {
                    if c.env is None {
                        assert(string_pairs_view(Seq::<(String, String)>::empty()) =~= Seq::empty());
                    }
                    assert(entry@ == stdio_server(name@, *c));
                    assert(list@.subrange(0, i + 1).subrange(0, i as int) =~= list@.subrange(0, i as int));
                }
                servers.insert(name.clone(), entry);
                i = i + 1;
            }
            assert(list@.subrange(0, i as int) =~= list@);
        },
        MCPServers::Old(list) => {
            let mut i: usize = 0;
            assert(list@.subrange(0, 0) =~= Seq::<MCPServerConfigOld>::empty());
            while i < list.len()
                invariant
                    servers.wf(),
                    i <= list@.len(),
                    servers@.dom() == old_servers(list@.subrange(0, i as int)).dom(),
                    forall|k: Seq<char>| #[trigger] servers@.contains_key(k) ==> servers@[k]@ == old_servers(list@.subrange(0, i as int))[k],
                decreases list.len() - i,
            {
                let c = &list[i];
                let entry = MCPServerConfig {
                    name: c.name.clone(),
                    transport: MCPServerTransport::Http { url: c.url.clone(), headers: None },
                    enabled: true,
                };
                proof {
                    assert(list@.subrange(0, i + 1).subrange(0, i as int) =~= list@.subrange(0, i as int));
                }
                servers.insert(c.name.clone(), entry);
                i = i + 1;
            }
            assert(list@.subrange(0, i as int) =~= list@);
        },
    }
    servers
}

/// A client is made for each enabled server started by a command.
pub open spec fn gets_client(c: MCPServerConfigView) -> bool {
    c.enabled && c.transport is Stdio
}

/// The names, in order, of the servers that get a client.
pub open spec fn client_names(ns: Seq<Seq<char>>, m: Map<Seq<char>, MCPServerConfigView>) -> Seq<Seq<char>>
    decreases ns.len(),
{
    if ns.len() == 0 {
        Seq::empty()
    } else {
        let rest = client_names(ns.subrange(0, ns.len() - 1), m);
        let k = ns[ns.len() - 1];
        if m.contains_key(k) && gets_client(m[k]) {
            rest.push(k)
        } else {
            rest
        }
    }
}

/// A name is kept exactly when it is in the list and its server gets a
/// client; a list without repeats gives one without repeats.
proof fn lemma_client_names(ns: Seq<Seq<char>>, m: Map<Seq<char>, MCPServerConfigView>)
    requires
        forall|a: int, b: int| 0 <= a < b < ns.len() ==> ns[a] != ns[b],
    ensures
        forall|k: Seq<char>| client_names(ns, m).contains(k) <==> (ns.contains(k) && m.contains_key(k) && gets_client(m[k])),
        forall|a: int, b: int| 0 <= a < b < client_names(ns, m).len() ==> client_names(ns, m)[a] != client_names(ns, m)[b],
    decreases ns.len(),
{
    if ns.len() > 0 {
        let init = ns.subrange(0, ns.len() - 1);
        lemma_client_names(init, m);
        let k = ns[ns.len() - 1];
        assert forall|x: Seq<char>| ns.contains(x) <==> (init.contains(x) || x == k) by {
            if ns.contains(x) {
                let j = choose|j: int| 0 <= j < ns.len() && ns[j] == x;
                if j < ns.len() - 1 {
                    assert(init[j] == x);
                }
            }
            if init.contains(x) {
                let j = choose|j: int| 0 <= j < init.len() && init[j] == x;
                assert(ns[j] == x);
            }
        }
        assert(!init.contains(k)) by {
            if init.contains(k) {
                let j = choose|j: int| 0 <= j < init.len() && init[j] == k;
                assert(ns[j] == ns[ns.len() - 1]);
            }
        }
        let cn = client_names(ns, m);
        let rest = client_names(init, m);
        let keep = m.contains_key(k) && gets_client(m[k]);
        assert forall|x: Seq<char>| cn.contains(x) <==> (rest.contains(x) || (x == k && keep)) by {
            if cn.contains(x) {
                let j = choose|j: int| 0 <= j < cn.len() && cn[j] == x;
                if j < rest.len() {
                    assert(rest[j] == x);
                }
            }
            if rest.contains(x) {
                let j = choose|j: int| 0 <= j < rest.len() && rest[j] == x;
                assert(cn[j] == x);
            }
            if x == k && keep {
                assert(cn[cn.len() - 1] == k);
            }
        }
    }
}

/// A stdio client for each enabled server started by a command, each server once.
pub fn create_stdio_clients(config: &ToolsConfig) -> (clients: Vec<(String, MCPStdioClient)>)
    ensures
        forall|i: int| 0 <= i < clients@.len() ==> {
            let (n, c) = #[trigger] clients@[i];
            &&& declared_servers(*config).contains_key(n@)
            &&& gets_client(declared_servers(*config)[n@])
            &&& c.name() == n@
            &&& declared_servers(*config)[n@].transport matches MCPServerTransportView::Stdio { command, args, env }
                && c.program() == command && c.arguments() == args && c.environment() == env
            &&& !c.ready()
        },
        forall|k: Seq<char>| declared_servers(*config).contains_key(k) && gets_client(declared_servers(*config)[k])
            ==> exists|i: int| 0 <= i < clients@.len() && (#[trigger] clients@[i]).0@ == k,
        forall|i: int, j: int| 0 <= i < j < clients@.len() ==> clients@[i].0@ != clients@[j].0@,
{
    let servers = load_mcp_servers_from_config(config);
    let names = servers.keys();
    let ghost m = declared_servers(*config);
    let ghost ns = servers.names();
    proof {
        servers.lemma_names();
    }
    let mut clients: Vec<(String, MCPStdioClient)> = Vec::new();
    let mut i: usize = 0;
    assert(ns.subrange(0, 0) =~= Seq::<Seq<char>>::empty());
    while i < names.len()
        invariant
            servers.wf(),
            m == declared_servers(*config),
            servers@.dom() == m.dom(),
            forall|k: Seq<char>| #[trigger] servers@.contains_key(k) ==> servers@[k]@ == m[k],
            ns == servers.names(),
            names@.len() == ns.len(),
            forall|j: int| 0 <= j < names@.len() ==> #[trigger] names@[j]@ == ns[j],
            i <= names@.len(),
            clients@.len() == client_names(ns.subrange(0, i as int), m).len(),
            forall|a: int| 0 <= a < clients@.len() ==> {
                let (n, c) = #[trigger] clients@[a];
                &&& n@ == client_names(ns.subrange(0, i as int), m)[a]
                &&& m.contains_key(n@)
                &&& c.name() == n@
                &&& m[n@].transport matches MCPServerTransportView::Stdio { command, args, env }
                    && c.program() == command && c.arguments() == args && c.environment() == env
                &&& !c.ready()
            },
        decreases names.len() - i,
    {
        let name = &names[i];
        let ghost before = client_names(ns.subrange(0, i as int), m);
        assert(ns.subrange(0, i + 1).subrange(0, i as int) =~= ns.subrange(0, i as int));
        assert(ns.subrange(0, i + 1)[i as int] == name@);
        match servers.get(name.as_str()) {
            Some(sc) => {
                if sc.enabled {
                    match &sc.transport {
                        MCPServerTransport::Stdio { command, args, env } => {
                            let client = MCPStdioClient::new(name.as_str(), command.as_str(), copy_strings(args), copy_pairs(env));
                            clients.push((name.clone(), client));
                        },
                        _ => {},
                    }
                }
            },
            None => {},
        }
        i = i + 1;
    }
    proof {
        assert(ns.subrange(0, i as int) =~= ns);
        lemma_client_names(ns, m);
        let cn = client_names(ns, m);
        assert forall|k: Seq<char>| m.contains_key(k) && gets_client(m[k])
            implies exists|a: int| 0 <= a < clients@.len() && (#[trigger] clients@[a]).0@ == k by {
            let j = choose|j: int| 0 <= j < ns.len() && ns[j] == k;
            assert(ns.contains(k));
            assert(cn.contains(k));
            let a = choose|a: int| 0 <= a < cn.len() && cn[a] == k;
            assert(clients@[a].0@ == k);
        }
        assert forall|a: int| 0 <= a < clients@.len() implies gets_client(m[(#[trigger] clients@[a]).0@]) by {
            assert(cn[a] == clients@[a].0@);
            assert(a < cn.len());
            assert(cn.contains(cn[a]));
            assert(client_names(ns, m).contains(cn[a]) ==> (ns.contains(cn[a]) && m.contains_key(cn[a]) && gets_client(m[cn[a]])));
            assert(m.contains_key(cn[a]) && gets_client(m[cn[a]]));
        }
    }
    clients
}

/// The problems of the declared servers, in order: a current-format server
/// without a command, an older-format server without a URL.
pub open spec fn server_problems(config: ToolsConfig) -> Seq<Seq<char>> {
    match config.mcp_servers {
        MCPServers::New(s) => new_server_problems(s@),
        MCPServers::Old(s) => old_server_problems(s@),
    }
}

/// "MCP server '<name>' has empty command" for each server without a command.
pub open spec fn new_server_problems(s: Seq<(String, MCPServerConfigNew)>) -> Seq<Seq<char>>
    decreases s.len(),
{
    if s.len() == 0 {
        Seq::empty()
    } else {
        let rest = new_server_problems(s.subrange(0, s.len() - 1));
        let last = s[s.len() - 1];
        if last.1.command@.len() == 0 {
            rest.push("MCP server '"@ + last.0@ + "' has empty command"@)
        } else {
            rest
        }
    }
}

/// "MCP server '<name>' has empty URL" for each server without a URL.
pub open spec fn old_server_problems(s: Seq<MCPServerConfigOld>) -> Seq<Seq<char>>
    decreases s.len(),
{
    if s.len() == 0 {
        Seq::empty()
    } else {
        let rest = old_server_problems(s.subrange(0, s.len() - 1));
        let last = s[s.len() - 1];
        if last.url@.len() == 0 {
            rest.push("MCP server '"@ + last.name@ + "' has empty URL"@)
        } else {
            rest
        }
    }
}

/// The problems of the declared servers (see [`server_problems`]); never an error.
pub fn validate_mcp_config(config: &ToolsConfig) -> (r: Result<Vec<String>, ConfigError>)
    ensures
        r matches Ok(errors) && strs_view(errors@) == server_problems(*config),
{
    let mut errors: Vec<String> = Vec::new();
    match &config.mcp_servers {
        MCPServers::New(list) => {
            let mut i: usize = 0;
            assert(list@.subrange(0, 0) =~= Seq::<(String, MCPServerConfigNew)>::empty());
            assert(strs_view(errors@) =~= Seq::<Seq<char>>::empty());
            while i < list.len()
                invariant
                    i <= list@.len(),
                    strs_view(errors@) == new_server_problems(list@.subrange(0, i as int)),
                decreases list.len() - i,
            {
                assert(list@.subrange(0, i + 1).subrange(0, i as int) =~= list@.subrange(0, i as int));
                let ghost before = errors@;
                if list[i].1.command.as_str().is_empty() {
                    errors.push(concat3("MCP server '", list[i].0.as_str(), "' has empty command"));
                    assert(strs_view(errors@) =~= strs_view(before).push(errors@[errors@.len() - 1]@));
                }
                i = i + 1;
            }
            assert(list@.subrange(0, i as int) =~= list@);
        },
        MCPServers::Old(list) => {
            let mut i: usize = 0;
            assert(list@.subrange(0, 0) =~= Seq::<MCPServerConfigOld>::empty());
            assert(strs_view(errors@) =~= Seq::<Seq<char>>::empty());
            while i < list.len()
                invariant
                    i <= list@.len(),
                    strs_view(errors@) == old_server_problems(list@.subrange(0, i as int)),
                decreases list.len() - i,
            {
                assert(list@.subrange(0, i + 1).subrange(0, i as int) =~= list@.subrange(0, i as int));
                let ghost before = errors@;
                if list[i].url.as_str().is_empty() {
                    errors.push(concat3("MCP server '", list[i].name.as_str(), "' has empty URL"));
                    assert(strs_view(errors@) =~= strs_view(before).push(errors@[errors@.len() - 1]@));
                }
                i = i + 1;
            }
            assert(list@.subrange(0, i as int) =~= list@);
        },
    }
    Ok(errors)
}

} // verus!
