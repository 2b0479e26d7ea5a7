//! Laws of the MCP server configuration.

use vstd::prelude::*;

use crate::config::types::{MCPServerConfigNew, MCPServerConfigOld};
use crate::mcp::config::{MCPServerTransportView, new_servers, old_servers};

verus! {

/// Servers of the current format are declared under each name listed, are
/// started by a command, and carry their own name.
pub proof fn law_current_format_servers(s: Seq<(String, MCPServerConfigNew)>)
    ensures
        forall|k: Seq<char>| #[trigger] new_servers(s).contains_key(k) <==> exists|i: int| 0 <= i < s.len() && s[i].0@ == k,
        forall|k: Seq<char>| #[trigger] new_servers(s).contains_key(k) ==> new_servers(s)[k].name == k
            && new_servers(s)[k].transport is Stdio,
    decreases s.len(),
{
    if s.len() > 0 {
        let init = s.subrange(0, s.len() - 1);
        law_current_format_servers(init);
        assert forall|k: Seq<char>| #[trigger] new_servers(s).contains_key(k) <==> exists|i: int| 0 <= i < s.len() && s[i].0@ == k by {
            if new_servers(s).contains_key(k) && k != s[s.len() - 1].0@ {
                let i = choose|i: int| 0 <= i < init.len() && init[i].0@ == k;
                assert(s[i] == init[i]);
            }
            if exists|i: int| 0 <= i < s.len() && s[i].0@ == k {
                let i = choose|i: int| 0 <= i < s.len() && s[i].0@ == k;
                if i < s.len() - 1 {
                    assert(init[i] == s[i]);
                }
            }
        }
    }
}

/// Servers of the older format are declared under each name listed, are
/// reached over HTTP without headers, carry their own name and are enabled.
pub proof fn law_older_format_servers(s: Seq<MCPServerConfigOld>)
    ensures
        forall|k: Seq<char>| #[trigger] old_servers(s).contains_key(k) <==> exists|i: int| 0 <= i < s.len() && s[i].name@ == k,
        forall|k: Seq<char>| #[trigger] old_servers(s).contains_key(k) ==> (old_servers(s)[k].transport matches MCPServerTransportView::Http { headers, .. }
            && headers is None && old_servers(s)[k].name == k && old_servers(s)[k].enabled),
    decreases s.len(),
{
    if s.len() > 0 {
        let init = s.subrange(0, s.len() - 1);
        law_older_format_servers(init);
        assert forall|k: Seq<char>| #[trigger] old_servers(s).contains_key(k) <==> exists|i: int| 0 <= i < s.len() && s[i].name@ == k by {
            if old_servers(s).contains_key(k) && k != s[s.len() - 1].name@ {
                let i = choose|i: int| 0 <= i < init.len() && init[i].name@ == k;
                assert(s[i] == init[i]);
            }
            if exists|i: int| 0 <= i < s.len() && s[i].name@ == k {
                let i = choose|i: int| 0 <= i < s.len() && s[i].name@ == k;
                if i < s.len() - 1 {
                    assert(init[i] == s[i]);
                }
            }
        }
    }
}

/// A server of the current format is started as it is configured: for the
/// last entry of a name, the server under that name runs the entry's command
/// with its arguments, in order, and its environment: each configured pair,
/// in order, when an environment is given, and none only when it is absent.
pub proof fn law_current_format_server_settings(s: Seq<(String, MCPServerConfigNew)>, i: int)
    requires
        0 <= i < s.len(),
        forall|j: int| i < j < s.len() ==> (#[trigger] s[j]).0@ != s[i].0@,
    ensures
        new_servers(s).contains_key(s[i].0@),
        new_servers(s)[s[i].0@].transport matches MCPServerTransportView::Stdio { command, args, env }
            && command == s[i].1.command@
            && args.len() == s[i].1.args@.len()
            && (forall|a: int| 0 <= a < args.len() ==> #[trigger] args[a] == s[i].1.args@[a]@)
            && (s[i].1.env matches Some(e) ==> env.len() == e@.len()
                && forall|q: int| 0 <= q < env.len() ==> #[trigger] env[q] == (e@[q].0@, e@[q].1@))
            && (s[i].1.env is None ==> env.len() == 0),
    decreases s.len(),
{
    if i < s.len() - 1 {
        let init = s.subrange(0, s.len() - 1);
        assert forall|j: int| i < j < init.len() implies (#[trigger] init[j]).0@ != init[i].0@ by {
            assert(init[j] == s[j]);
        }
        law_current_format_server_settings(init, i);
        assert(init[i] == s[i]);
        assert(s[s.len() - 1].0@ != s[i].0@);
    }
}

} // verus!
