//! The routes the API serves: method, path and handler of each.

use vstd::prelude::*;

verus! {

/// An HTTP method the API answers.
#[derive(Debug, Clone, Copy, PartialEq, Eq, Structural)]
pub enum HttpMethod {
    Get,
    Post,
    Delete,
}

/// The handlers of the API.
#[derive(Debug, Clone, Copy, PartialEq, Eq, Structural)]
pub enum Handler {
    Run,
    ToolCall,
    ListSessions,
    GetSession,
    DeleteSession,
    ListSkills,
    GetSkill,
    ExecuteSkill,
    Health,
}

/// A route: method, path pattern and handler.
pub struct Route {
    pub method: HttpMethod,
    pub path: &'static str,
    pub handler: Handler,
}

/// POST /api/run.
pub fn run_routes() -> (rs: Vec<Route>)
    ensures
        rs@.len() == 1,
        rs@[0].method == HttpMethod::Post && rs@[0].path@ == "/api/run"@ && rs@[0].handler == Handler::Run,
{
    let mut rs: Vec<Route> = Vec::new();
    rs.push(Route { method: HttpMethod::Post, path: "/api/run", handler: Handler::Run });
    rs
}

/// POST /api/tool-call.
pub fn tool_routes() -> (rs: Vec<Route>)
    ensures
        rs@.len() == 1,
        rs@[0].method == HttpMethod::Post && rs@[0].path@ == "/api/tool-call"@ && rs@[0].handler == Handler::ToolCall,
{
    let mut rs: Vec<Route> = Vec::new();
    rs.push(Route { method: HttpMethod::Post, path: "/api/tool-call", handler: Handler::ToolCall });
    rs
}

/// GET /api/sessions, GET and DELETE /api/sessions/:session_id.
pub fn session_routes() -> (rs: Vec<Route>)
    ensures
        rs@.len() == 3,
        rs@[0].method == HttpMethod::Get && rs@[0].path@ == "/api/sessions"@ && rs@[0].handler == Handler::ListSessions,
        rs@[1].method == HttpMethod::Get && rs@[1].path@ == "/api/sessions/:session_id"@ && rs@[1].handler == Handler::GetSession,
        rs@[2].method == HttpMethod::Delete && rs@[2].path@ == "/api/sessions/:session_id"@ && rs@[2].handler == Handler::DeleteSession,
{
    let mut rs: Vec<Route> = Vec::new();
    rs.push(Route { method: HttpMethod::Get, path: "/api/sessions", handler: Handler::ListSessions });
    rs.push(Route { method: HttpMethod::Get, path: "/api/sessions/:session_id", handler: Handler::GetSession });
    rs.push(Route { method: HttpMethod::Delete, path: "/api/sessions/:session_id", handler: Handler::DeleteSession });
    rs
}

/// GET /api/skills, GET /api/skills/:skill_name, POST /api/skills/:skill_name/execute.
pub fn skill_routes() -> (rs: Vec<Route>)
    ensures
        rs@.len() == 3,
        rs@[0].method == HttpMethod::Get && rs@[0].path@ == "/api/skills"@ && rs@[0].handler == Handler::ListSkills,
        rs@[1].method == HttpMethod::Get && rs@[1].path@ == "/api/skills/:skill_name"@ && rs@[1].handler == Handler::GetSkill,
        rs@[2].method == HttpMethod::Post && rs@[2].path@ == "/api/skills/:skill_name/execute"@ && rs@[2].handler == Handler::ExecuteSkill,
{
    let mut rs: Vec<Route> = Vec::new();
    rs.push(Route { method: HttpMethod::Get, path: "/api/skills", handler: Handler::ListSkills });
    rs.push(Route { method: HttpMethod::Get, path: "/api/skills/:skill_name", handler: Handler::GetSkill });
    rs.push(Route { method: HttpMethod::Post, path: "/api/skills/:skill_name/execute", handler: Handler::ExecuteSkill });
    rs
}

/// GET /api/health.
pub fn health_routes() -> (rs: Vec<Route>)
    ensures
        rs@.len() == 1,
        rs@[0].method == HttpMethod::Get && rs@[0].path@ == "/api/health"@ && rs@[0].handler == Handler::Health,
{
    let mut rs: Vec<Route> = Vec::new();
    rs.push(Route { method: HttpMethod::Get, path: "/api/health", handler: Handler::Health });
    rs
}

/// The routes the server serves: run, tool call, sessions and health, in
/// that order (the skill routes are served separately).
pub fn api_routes() -> (rs: Vec<Route>)
    ensures
        rs@.len() == 6,
        rs@[0].method == HttpMethod::Post && rs@[0].path@ == "/api/run"@ && rs@[0].handler == Handler::Run,
        rs@[1].method == HttpMethod::Post && rs@[1].path@ == "/api/tool-call"@ && rs@[1].handler == Handler::ToolCall,
        rs@[2].method == HttpMethod::Get && rs@[2].path@ == "/api/sessions"@ && rs@[2].handler == Handler::ListSessions,
        rs@[3].method == HttpMethod::Get && rs@[3].path@ == "/api/sessions/:session_id"@
            && rs@[3].handler == Handler::GetSession,
        rs@[4].method == HttpMethod::Delete && rs@[4].path@ == "/api/sessions/:session_id"@
            && rs@[4].handler == Handler::DeleteSession,
        rs@[5].method == HttpMethod::Get && rs@[5].path@ == "/api/health"@ && rs@[5].handler == Handler::Health,
{
    let mut rs = run_routes();
    rs.append(&mut tool_routes());
    rs.append(&mut session_routes());
    rs.append(&mut health_routes());
    rs
}

} // verus!
