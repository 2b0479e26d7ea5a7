//! The rules applied when configuration files are loaded: `${ENV:NAME}`
//! substitution and the validation of each kind of configuration.

use vstd::prelude::*;

use crate::config::types::{MCPServerConfigNew, MCPServers, PromptConfig, ToolsConfig};
use crate::error::{ConfigError, ConfigErrorView};
use crate::json::{JsonValue, JsonView, json_members_view, json_seq_view, lemma_json_members_view, lemma_json_seq_view};
use crate::text::{chars_of, concat3, first_pos, lemma_first_pos, lemma_first_pos_bounds, owned, str_equal, string_from_chars, string_from_range};

verus! {

broadcast use vstd::string::group_string_axioms;

/// The values of a list of environment entries.
pub open spec fn env_view(env: Seq<(String, String)>) -> Seq<(Seq<char>, Seq<char>)> {
    env.map_values(|e: (String, String)| (e.0@, e.1@))
}

/// The value of the first entry named `name`.
pub open spec fn env_lookup(env: Seq<(Seq<char>, Seq<char>)>, name: Seq<char>) -> Option<Seq<char>>
    decreases env.len(),
{
    if env.len() == 0 {
        None
    } else if env[0].0 == name {
        Some(env[0].1)
    } else {
        env_lookup(env.subrange(1, env.len() as int), name)
    }
}

/// `p` put in front of a successful text; an error passes through.
pub open spec fn prefixed(p: Seq<char>, r: Result<Seq<char>, Seq<char>>) -> Result<Seq<char>, Seq<char>> {
    match r {
        Ok(t) => Ok(p + t),
        Err(e) => Err(e),
    }
}

/// `s` with each `${ENV:NAME}` replaced by the value of `NAME` in `env`, or
/// the first name that has none. After "${" the next four characters (fewer
/// at the end) are read; when they are not "ENV:" they are kept as they are.
/// The name runs to the next '}' (or the end), which is dropped.
pub open spec fn env_substituted(s: Seq<char>, env: Seq<(Seq<char>, Seq<char>)>) -> Result<Seq<char>, Seq<char>>
    decreases s.len(),
{
    if s.len() == 0 {
        Ok(Seq::empty())
    } else if s.len() >= 2 && s[0] == '$' && s[1] == '{' {
        let rest = s.subrange(2, s.len() as int);
        let k = if rest.len() < 4 { rest.len() as int } else { 4 };
        let prefix = rest.subrange(0, k);
        let after = rest.subrange(k, rest.len() as int);
        if prefix == "ENV:"@ {
            let c = first_pos(after, '}');
            proof {
                lemma_first_pos_bounds(after, '}');
            }
            let name = after.subrange(0, c);
            let tail = if c < after.len() { after.subrange(c + 1, after.len() as int) } else { Seq::empty() };
            match env_lookup(env, name) {
                None => Err(name),
                Some(v) => prefixed(v, env_substituted(tail, env)),
            }
        } else {
            prefixed("${"@ + prefix, env_substituted(after, env))
        }
    } else {
        prefixed(seq![s[0]], env_substituted(s.subrange(1, s.len() as int), env))
    }
}

/// The value of `name` in `env`, if it has one.
pub fn lookup_env(env: &Vec<(String, String)>, name: &str) -> (r: Option<String>)
    ensures
        r matches Some(v) ==> env_lookup(env_view(env@), name@) == Some(v@),
        r is None ==> env_lookup(env_view(env@), name@) is None,
{
    let ghost ev = env_view(env@);
    let mut i: usize = 0;
    assert(ev.subrange(0, ev.len() as int) =~= ev);
    while i < env.len()
        invariant
            ev == env_view(env@),
            i <= env@.len(),
            env_lookup(ev, name@) == env_lookup(ev.subrange(i as int, ev.len() as int), name@),
        decreases env.len() - i,
    {
        let ghost t = ev.subrange(i as int, ev.len() as int);
        assert(t[0] == (env@[i as int].0@, env@[i as int].1@));
        if str_equal(env[i].0.as_str(), name) {
            return Some(env[i].1.clone());
        }
        assert(t.subrange(1, t.len() as int) =~= ev.subrange(i + 1, ev.len() as int));
        i = i + 1;
    }
    assert(ev.subrange(i as int, ev.len() as int) =~= Seq::<(Seq<char>, Seq<char>)>::empty());
    None
}

/// Putting `a` and then `b` in front is putting `a + b` in front.
pub proof fn lemma_prefixed_assoc(a: Seq<char>, b: Seq<char>, r: Result<Seq<char>, Seq<char>>)
    ensures
        prefixed(a, prefixed(b, r)) == prefixed(a + b, r),
{
    if let Ok(t) = r {
        assert(a + (b + t) =~= a + b + t);
    }
}

/// Unfolding at a character that does not start "${".
proof fn lemma_plain_step(sv: Seq<char>, ev: Seq<(Seq<char>, Seq<char>)>, i: int)
    requires
        0 <= i < sv.len(),
        !(i + 1 < sv.len() && sv[i] == '$' && sv[i + 1] == '{'),
    ensures
        env_substituted(sv.subrange(i, sv.len() as int), ev)
            == prefixed(seq![sv[i]], env_substituted(sv.subrange(i + 1, sv.len() as int), ev)),
{
    let t = sv.subrange(i, sv.len() as int);
    assert(t.subrange(1, t.len() as int) =~= sv.subrange(i + 1, sv.len() as int));
}

/// Unfolding at "${" followed by `k` characters other than "ENV:".
proof fn lemma_other_step(sv: Seq<char>, ev: Seq<(Seq<char>, Seq<char>)>, i: int, k: int)
    requires
        0 <= i,
        i + 1 < sv.len(),
        sv[i] == '$',
        sv[i + 1] == '{',
        k == if sv.len() - (i + 2) < 4 { sv.len() - (i + 2) } else { 4 },
        sv.subrange(i + 2, i + 2 + k) != "ENV:"@,
    ensures
        env_substituted(sv.subrange(i, sv.len() as int), ev)
            == prefixed("${"@ + sv.subrange(i + 2, i + 2 + k), env_substituted(sv.subrange(i + 2 + k, sv.len() as int), ev)),
{
    let t = sv.subrange(i, sv.len() as int);
    let rest = t.subrange(2, t.len() as int);
    assert(rest =~= sv.subrange(i + 2, sv.len() as int));
    assert(rest.subrange(0, k) =~= sv.subrange(i + 2, i + 2 + k));
    assert(rest.subrange(k, rest.len() as int) =~= sv.subrange(i + 2 + k, sv.len() as int));
}

/// Unfolding at "${ENV:" whose name runs from `j` to `c` (a '}' or the end).
proof fn lemma_env_step(sv: Seq<char>, ev: Seq<(Seq<char>, Seq<char>)>, i: int, j: int, c: int)
    requires
        0 <= i,
        j == i + 6,
        j <= c <= sv.len(),
        sv[i] == '$',
        sv[i + 1] == '{',
        sv.subrange(i + 2, j) == "ENV:"@,
        forall|m: int| j <= m < c ==> sv[m] != '}',
        c == sv.len() || sv[c] == '}',
    ensures
        env_substituted(sv.subrange(i, sv.len() as int), ev) == (match env_lookup(ev, sv.subrange(j, c)) {
            None => Err(sv.subrange(j, c)),
            Some(v) => prefixed(v, env_substituted(
                sv.subrange(if c < sv.len() { c + 1 } else { sv.len() as int }, sv.len() as int), ev)),
        }),
{
    reveal_strlit("ENV:");
    let n = sv.len() as int;
    let t = sv.subrange(i, n);
    let rest = t.subrange(2, t.len() as int);
    assert(rest =~= sv.subrange(i + 2, n));
    assert(rest.len() >= 4);
    assert(rest.subrange(0, 4) =~= sv.subrange(i + 2, j));
    let after = rest.subrange(4, rest.len() as int);
    assert(after =~= sv.subrange(j, n));
    assert forall|m: int| 0 <= m < c - j implies after[m] != '}' by {
        assert(after[m] == sv[j + m]);
    }
    if c < n {
        assert(after[c - j] == sv[c]);
    }
    lemma_first_pos(after, '}', c - j);
    assert(after.subrange(0, c - j) =~= sv.subrange(j, c));
    if c < n {
        assert(after.subrange(c - j + 1, after.len() as int) =~= sv.subrange(c + 1, n));
    } else {
        assert(sv.subrange(n, n) =~= Seq::<char>::empty());
    }
}

/// `s` with each `${ENV:NAME}` replaced by the value of `NAME` in `env`; the
/// first name without a value is an `EnvVariableNotFound` error.
pub fn substitute_string_env_vars(s: &str, env: &Vec<(String, String)>) -> (r: Result<String, ConfigError>)
    ensures
        env_substituted(s@, env_view(env@)) matches Ok(t) ==> (r matches Ok(x) && x@ == t),
        env_substituted(s@, env_view(env@)) matches Err(n) ==> (r matches Err(e)
            && e@ == ConfigErrorView::EnvVariableNotFound(n)),
{
    let ghost ev = env_view(env@);
    let v = chars_of(s);
    let ghost sv = v@;
    let n = v.len();
    let mut out: Vec<char> = Vec::new();
    let mut i: usize = 0;
    proof {
        reveal_strlit("ENV:");
        reveal_strlit("${");
        assert(sv.subrange(0, n as int) =~= sv);
        assert(out@ + Seq::<char>::empty() =~= out@);
        lemma_prefixed_assoc(Seq::empty(), Seq::empty(), env_substituted(sv, ev));
        assert(Seq::<char>::empty() + Seq::<char>::empty() =~= Seq::<char>::empty());
        if let Ok(t) = env_substituted(sv, ev) {
            assert(Seq::<char>::empty() + t =~= t);
        }
    }
    while i < n
        invariant
            sv == v@,
            sv == s@,
            n == sv.len(),
            ev == env_view(env@),
            i <= n,
            "ENV:"@ == seq!['E', 'N', 'V', ':'],
            "${"@ == seq!['$', '{'],
            env_substituted(sv, ev) == prefixed(out@, env_substituted(sv.subrange(i as int, n as int), ev)),
        decreases n - i,
    {
        let ghost before = out@;
        let ghost i0 = i as int;
        if v[i] == '$' && i + 1 < n && v[i + 1] == '{' {
            let j0 = i + 2;
            let k: usize = if n - j0 < 4 { n - j0 } else { 4 };
            let j = j0 + k;
            let is_env = k == 4 && v[j0] == 'E' && v[j0 + 1] == 'N' && v[j0 + 2] == 'V' && v[j0 + 3] == ':';
            proof {
                let prefix = sv.subrange(j0 as int, j as int);
                if is_env {
                    assert(prefix =~= "ENV:"@);
                } else if prefix == "ENV:"@ {
                    assert(prefix.len() == 4);
                    assert(k == 4);
                    assert(prefix[0] == sv[j0 as int] && prefix[1] == sv[j0 + 1] && prefix[2] == sv[j0 + 2] && prefix[3] == sv[j0 + 3]);
                }
            }
            if is_env {
                let mut c: usize = j;
                while c < n && v[c] != '}'
                    invariant
                        sv == v@,
                        n == sv.len(),
                        j <= c <= n,
                        forall|m: int| j <= m < c ==> sv[m] != '}',
                    decreases n - c,
                {
                    c = c + 1;
                }
                proof {
                    lemma_env_step(sv, ev, i0, j as int, c as int);
                }
                let name = string_from_range(v.as_slice(), j, c);
                match lookup_env(env, name.as_str()) {
                    None => {
                        return Err(ConfigError::EnvVariableNotFound(name));
                    },
                    Some(val) => {
                        let vc = chars_of(val.as_str());
                        crate::text::append_chars(&mut out, vc.as_slice());
                        if c < n {
                            i = c + 1;
                        } else {
                            i = n;
                        }
                        proof {
                            lemma_prefixed_assoc(before, val@, env_substituted(sv.subrange(i as int, n as int), ev));
                        }
                    },
                }
            } else {
                out.push('$');
                out.push('{');
                let mut q: usize = j0;
                while q < j
                    invariant
                        sv == v@,
                        n == sv.len(),
                        j0 <= q <= j <= n,
                        out@ == before + "${"@ + sv.subrange(j0 as int, q as int),
                    decreases j - q,
                {
                    out.push(v[q]);
                    q = q + 1;
                    assert(out@ =~= before + "${"@ + sv.subrange(j0 as int, q as int));
                }
                i = j;
                proof {
                    lemma_other_step(sv, ev, i0, k as int);
                    lemma_prefixed_assoc(before, "${"@ + sv.subrange(j0 as int, j as int), env_substituted(sv.subrange(i as int, n as int), ev));
                    assert(before + ("${"@ + sv.subrange(j0 as int, j as int)) =~= out@);
                }
            }
        } else {
            out.push(v[i]);
            i = i + 1;
            proof {
                lemma_plain_step(sv, ev, i0);
                lemma_prefixed_assoc(before, seq![sv[i0]], env_substituted(sv.subrange(i as int, n as int), ev));
                assert(before + seq![sv[i0]] =~= out@);
            }
        }
    }
    proof {
        assert(sv.subrange(n as int, n as int) =~= Seq::<char>::empty());
        assert(out@ + Seq::<char>::empty() =~= out@);
    }
    Ok(string_from_chars(out.as_slice()))
}

/// A pass of `${ENV:NAME}` substitution over a JSON value, string by string in
/// document order, as done in place: each string becomes its substitution
/// until the first one that names a variable without a value; that string and
/// everything after it stay as they were. The pass gives the value it leaves
/// and the name of that variable, if there was one.
pub open spec fn json_env_pass(v: JsonView, env: Seq<(Seq<char>, Seq<char>)>) -> (JsonView, Option<Seq<char>>)
    decreases v,
{
    match v {
        JsonView::Str(s) => match env_substituted(s, env) {
            Ok(t) => (JsonView::Str(t), None),
            Err(e) => (v, Some(e)),
        },
        JsonView::Array(items) => {
            let p = items_env_pass(items, env);
            (JsonView::Array(p.0), p.1)
        },
        JsonView::Object(ms) => {
            let p = members_env_pass(ms, env);
            (JsonView::Object(p.0), p.1)
        },
        _ => (v, None),
    }
}

/// [`json_env_pass`] over the items of an array, in order.
pub open spec fn items_env_pass(items: Seq<JsonView>, env: Seq<(Seq<char>, Seq<char>)>) -> (Seq<JsonView>, Option<Seq<char>>)
    decreases items,
{
    if items.len() == 0 {
        (Seq::empty(), None)
    } else {
        let p = items_env_pass(items.subrange(0, items.len() - 1), env);
        let last = items[items.len() - 1];
        if p.1 is Some {
            (p.0.push(last), p.1)
        } else {
            let q = json_env_pass(last, env);
            (p.0.push(q.0), q.1)
        }
    }
}

/// [`json_env_pass`] over the values of an object's members, in order.
pub open spec fn members_env_pass(ms: Seq<(Seq<char>, JsonView)>, env: Seq<(Seq<char>, Seq<char>)>)
    -> (Seq<(Seq<char>, JsonView)>, Option<Seq<char>>)
    decreases ms,
{
    if ms.len() == 0 {
        (Seq::empty(), None)
    } else {
        let p = members_env_pass(ms.subrange(0, ms.len() - 1), env);
        let last = ms[ms.len() - 1];
        if p.1 is Some {
            (p.0.push(last), p.1)
        } else {
            let q = json_env_pass(last.1, env);
            (p.0.push((last.0, q.0)), q.1)
        }
    }
}

/// The error a pass reports: the missing variable's.
pub open spec fn pass_error(e: Option<ConfigError>) -> Option<ConfigErrorView> {
    match e {
        Some(x) => Some(x@),
        None => None,
    }
}

/// The error named by a pass's missing variable.
pub open spec fn missing_variable(n: Option<Seq<char>>) -> Option<ConfigErrorView> {
    match n {
        Some(x) => Some(ConfigErrorView::EnvVariableNotFound(x)),
        None => None,
    }
}

/// The value [`json_env_pass`] leaves, and its error.
#[verifier::loop_isolation(false)]
pub fn env_pass(value: &JsonValue, env: &Vec<(String, String)>) -> (r: (JsonValue, Option<ConfigError>))
    ensures
        r.0@ == json_env_pass(value@, env_view(env@)).0,
        pass_error(r.1) == missing_variable(json_env_pass(value@, env_view(env@)).1),
    decreases value,
{
    let ghost ev = env_view(env@);
    match value {
        JsonValue::Str(s) => match substitute_string_env_vars(s.as_str(), env) {
            Ok(t) => (JsonValue::Str(t), None),
            Err(e) => (JsonValue::Str(s.clone()), Some(e)),
        },
        JsonValue::Array(items) => {
            let ghost iv = json_seq_view(items@);
            proof {
                lemma_json_seq_view(items@);
            }
            let mut out: Vec<JsonValue> = Vec::new();
            let mut err: Option<ConfigError> = None;
            let mut i: usize = 0;
            assert(iv.subrange(0, 0) =~= Seq::<JsonView>::empty());
            assert(json_seq_view(out@) =~= Seq::<JsonView>::empty());
            while i < items.len()
                invariant
                    i <= items@.len(),
                    out@.len() == i,
                    items_env_pass(iv.subrange(0, i as int), ev).0 == json_seq_view(out@),
                    missing_variable(items_env_pass(iv.subrange(0, i as int), ev).1) == pass_error(err),
                decreases items.len() - i,
            {
                assert(decreases_to!(*items => items@));
                assert(decreases_to!(items@ => items@[i as int]));
                assert(decreases_to!(*value => items@[i as int]));
                assert(iv.subrange(0, i + 1).subrange(0, i as int) =~= iv.subrange(0, i as int));
                let ghost before = out@;
                if err.is_some() {
                    out.push(items[i].duplicate());
                } else {
                    let (x, e) = env_pass(&items[i], env);
                    out.push(x);
                    err = e;
                }
                proof {
                    lemma_json_seq_view(out@);
                    lemma_json_seq_view(before);
                    assert(json_seq_view(out@) =~= json_seq_view(before).push(crate::json::json_view(out@[i as int])));
                }
                i = i + 1;
            }
            assert(iv.subrange(0, i as int) =~= iv);
            (JsonValue::Array(out), err)
        },
        JsonValue::Object(members) => {
            let ghost mv = json_members_view(members@);
            proof {
                lemma_json_members_view(members@);
            }
            let mut out: Vec<(String, JsonValue)> = Vec::new();
            let mut err: Option<ConfigError> = None;
            let mut i: usize = 0;
            assert(mv.subrange(0, 0) =~= Seq::<(Seq<char>, JsonView)>::empty());
            assert(json_members_view(out@) =~= Seq::<(Seq<char>, JsonView)>::empty());
            while i < members.len()
                invariant
                    i <= members@.len(),
                    out@.len() == i,
                    members_env_pass(mv.subrange(0, i as int), ev).0 == json_members_view(out@),
                    missing_variable(members_env_pass(mv.subrange(0, i as int), ev).1) == pass_error(err),
                decreases members.len() - i,
            {
                assert(decreases_to!(*members => members@));
                assert(decreases_to!(members@ => members@[i as int]));
                assert(decreases_to!(members@[i as int] => members@[i as int].1));
                assert(decreases_to!(*value => members@[i as int].1));
                assert(mv.subrange(0, i + 1).subrange(0, i as int) =~= mv.subrange(0, i as int));
                let ghost before = out@;
                if err.is_some() {
                    out.push((members[i].0.clone(), members[i].1.duplicate()));
                } else {
                    let (x, e) = env_pass(&members[i].1, env);
                    out.push((members[i].0.clone(), x));
                    err = e;
                }
                proof {
                    lemma_json_members_view(out@);
                    lemma_json_members_view(before);
                    assert(json_members_view(out@) =~= json_members_view(before).push(
                        (out@[i as int].0@, crate::json::json_view(out@[i as int].1)),
                    ));
                }
                i = i + 1;
            }
            assert(mv.subrange(0, i as int) =~= mv);
            (JsonValue::Object(out), err)
        },
        JsonValue::Null => (JsonValue::Null, None),
        JsonValue::Bool(b) => (JsonValue::Bool(*b), None),
        JsonValue::Number(n) => (JsonValue::Number(*n), None),
        JsonValue::Decimal(d) => (JsonValue::Decimal(d.clone()), None),
    }
}

/// Substitutes `${ENV:NAME}` in the string values of `value`, in place and in
/// document order (see [`json_env_pass`]): the first variable without a value
/// is an `EnvVariableNotFound` error, with the strings before it already
/// substituted and the rest as they were.
pub fn substitute_env_variables(value: &mut JsonValue, env: &Vec<(String, String)>) -> (r: Result<(), ConfigError>)
    ensures
        final(value)@ == json_env_pass(old(value)@, env_view(env@)).0,
        json_env_pass(old(value)@, env_view(env@)).1 matches Some(n) ==> (r matches Err(e)
            && e@ == ConfigErrorView::EnvVariableNotFound(n)),
        json_env_pass(old(value)@, env_view(env@)).1 is None ==> r is Ok,
{
    let (v, e) = env_pass(value, env);
    *value = v;
    match e {
        Some(x) => Err(x),
        None => Ok(()),
    }
}

/// The loader of the configuration files. Reading a file and parsing its JSON
/// happen at the caller; the rules applied to the results are here.
pub struct ConfigLoader;

/// `i` is the first server of the list without a command.
pub open spec fn is_first_commandless(servers: Seq<(String, MCPServerConfigNew)>, i: int) -> bool {
    0 <= i < servers.len() && servers[i].1.command@.len() == 0
        && forall|j: int| 0 <= j < i ==> servers[j].1.command@.len() > 0
}

/// The problem the tools configuration is rejected for, if any: a server
/// without a command (the first, in the given order), an old-format server
/// without a name or URL, or a builtin tool without a name or description.
pub open spec fn tools_config_problem(c: ToolsConfig) -> Option<Seq<char>> {
    match c.mcp_servers {
        MCPServers::New(servers) => if exists|i: int| is_first_commandless(servers@, i) {
            let i = choose|i: int| is_first_commandless(servers@, i);
            Some("MCP server '"@ + servers@[i].0@ + "' must have a 'command' field"@)
        } else {
            builtin_tools_problem(c)
        },
        MCPServers::Old(servers) => if exists|i: int| 0 <= i < servers@.len()
            && (servers@[i].name@.len() == 0 || servers@[i].url@.len() == 0) {
            Some("Old MCP config format requires 'name' and 'url' fields"@)
        } else {
            builtin_tools_problem(c)
        },
    }
}

/// The problem with the declared builtin tools, if any.
pub open spec fn builtin_tools_problem(c: ToolsConfig) -> Option<Seq<char>> {
    if exists|i: int| 0 <= i < c.builtin_tools@.len()
        && (c.builtin_tools@[i].name@.len() == 0 || c.builtin_tools@[i].description@.len() == 0) {
        Some("Each builtin tool must have name and description"@)
    } else {
        None
    }
}

impl ConfigLoader {
    /// The text of a configuration file: a missing file is `FileNotFound` with
    /// its path, a failed read is `FileReadError` with the system's message.
    pub fn config_text(path: &str, exists: bool, read: Result<String, String>) -> (r: Result<String, ConfigError>)
        ensures
            !exists ==> (r matches Err(e) && e@ == ConfigErrorView::FileNotFound(path@)),
            exists ==> (read matches Ok(t) ==> (r matches Ok(x) && x@ == t@)),
            exists ==> (read matches Err(m) ==> (r matches Err(e) && e@ == ConfigErrorView::FileReadError(m@))),
    {
        if !exists {
            return Err(ConfigError::FileNotFound(owned(path)));
        }
        match read {
            Ok(t) => Ok(t),
            Err(m) => Err(ConfigError::FileReadError(m)),
        }
    }

    /// Checks the limits of an agent configuration in order: the temperature
    /// (whose range the caller has compared), `max_tokens` at least 1, and a
    /// history length of at least 1.
    pub fn validate_agent_limits(temperature_in_range: bool, max_tokens: Option<u32>, max_history_length: usize)
        -> (r: Result<(), ConfigError>)
        ensures
            !temperature_in_range ==> (r matches Err(e)
                && e@ == ConfigErrorView::ValidationError("LLM temperature must be between 0 and 2"@)),
            temperature_in_range && max_tokens == Some(0u32) ==> (r matches Err(e)
                && e@ == ConfigErrorView::ValidationError("LLM max_tokens must be at least 1"@)),
            temperature_in_range && max_tokens != Some(0u32) && max_history_length == 0 ==> (r matches Err(e)
                && e@ == ConfigErrorView::ValidationError("session.max_history_length must be at least 1"@)),
            temperature_in_range && max_tokens != Some(0u32) && max_history_length > 0 ==> r is Ok,
    {
        if !temperature_in_range {
            return Err(ConfigError::ValidationError(owned("LLM temperature must be between 0 and 2")));
        }
        if let Some(m) = max_tokens {
            if m < 1 {
                return Err(ConfigError::ValidationError(owned("LLM max_tokens must be at least 1")));
            }
        }
        if max_history_length < 1 {
            return Err(ConfigError::ValidationError(owned("session.max_history_length must be at least 1")));
        }
        Ok(())
    }

    /// Accepts a tools configuration or names its problem (see
    /// [`tools_config_problem`]).
    #[verifier::loop_isolation(false)]
    pub fn validate_tools_config(config: &ToolsConfig) -> (r: Result<(), ConfigError>)
        ensures
            tools_config_problem(*config) is None ==> r is Ok,
            tools_config_problem(*config) matches Some(m) ==> (r matches Err(e) && e@ == ConfigErrorView::ValidationError(m)),
    {
        match &config.mcp_servers {
            MCPServers::New(servers) => {
                let mut i: usize = 0;
                while i < servers.len()
                    invariant
                        i <= servers@.len(),
                        forall|j: int| 0 <= j < i ==> servers@[j].1.command@.len() > 0,
                    decreases servers.len() - i,
                {
                    if servers[i].1.command.as_str().is_empty() {
                        proof {
                            assert(is_first_commandless(servers@, i as int));
                            assert forall|k: int| #[trigger] is_first_commandless(servers@, k) implies k == i by {
                                if k < i {
                                } else if k > i {
                                }
                            }
                        }
                        return Err(ConfigError::ValidationError(concat3("MCP server '", servers[i].0.as_str(), "' must have a 'command' field")));
                    }
                    i = i + 1;
                }
                assert(!exists|k: int| is_first_commandless(servers@, k));
            },
            MCPServers::Old(servers) => {
                let mut i: usize = 0;
                while i < servers.len()
                    invariant
                        i <= servers@.len(),
                        forall|j: int| 0 <= j < i ==> servers@[j].name@.len() > 0 && servers@[j].url@.len() > 0,
                    decreases servers.len() - i,
                {
                    if servers[i].name.as_str().is_empty() || servers[i].url.as_str().is_empty() {
                        assert(servers@[i as int].name@.len() == 0 || servers@[i as int].url@.len() == 0);
                        return Err(ConfigError::ValidationError(owned("Old MCP config format requires 'name' and 'url' fields")));
                    }
                    i = i + 1;
                }
            },
        }
        let mut i: usize = 0;
        while i < config.builtin_tools.len()
            invariant
                i <= config.builtin_tools@.len(),
                forall|j: int| 0 <= j < i ==> config.builtin_tools@[j].name@.len() > 0
                    && config.builtin_tools@[j].description@.len() > 0,
            decreases config.builtin_tools.len() - i,
        {
            if config.builtin_tools[i].name.as_str().is_empty() || config.builtin_tools[i].description.as_str().is_empty() {
                assert(config.builtin_tools@[i as int].name@.len() == 0 || config.builtin_tools@[i as int].description@.len() == 0);
                return Err(ConfigError::ValidationError(owned("Each builtin tool must have name and description")));
            }
            i = i + 1;
        }
        Ok(())
    }

    /// Accepts a prompt configuration with a non-empty system prompt.
    pub fn validate_prompt_config(config: &PromptConfig) -> (r: Result<(), ConfigError>)
        ensures
            config.system_prompt@.len() == 0 ==> (r matches Err(e)
                && e@ == ConfigErrorView::ValidationError("system_prompt is required"@)),
            config.system_prompt@.len() > 0 ==> r is Ok,
    {
        if config.system_prompt.as_str().is_empty() {
            return Err(ConfigError::ValidationError(owned("system_prompt is required")));
        }
        Ok(())
    }

    /// A parsed tools configuration, validated; an error of reading or
    /// parsing passes through.
    pub fn load_tools_config(loaded: Result<ToolsConfig, ConfigError>) -> (r: Result<ToolsConfig, ConfigError>)
        ensures
            loaded is Err ==> r == loaded,
            loaded matches Ok(c) ==> (tools_config_problem(c) is None ==> r == loaded),
            loaded matches Ok(c) ==> (tools_config_problem(c) matches Some(m) ==> (r matches Err(e)
                && e@ == ConfigErrorView::ValidationError(m))),
    {
        match loaded {
            Ok(c) => match Self::validate_tools_config(&c) {
                Ok(()) => Ok(c),
                Err(e) => Err(e),
            },
            Err(e) => Err(e),
        }
    }

    /// A parsed prompt configuration, validated; an error of reading or
    /// parsing passes through.
    pub fn load_prompt_config(loaded: Result<PromptConfig, ConfigError>) -> (r: Result<PromptConfig, ConfigError>)
        ensures
            loaded is Err ==> r == loaded,
            loaded matches Ok(c) ==> (c.system_prompt@.len() > 0 ==> r == loaded),
            loaded matches Ok(c) ==> (c.system_prompt@.len() == 0 ==> (r matches Err(e)
                && e@ == ConfigErrorView::ValidationError("system_prompt is required"@))),
    {
        match loaded {
            Ok(c) => match Self::validate_prompt_config(&c) {
                Ok(()) => Ok(c),
                Err(e) => Err(e),
            },
            Err(e) => Err(e),
        }
    }
}

} // verus!
