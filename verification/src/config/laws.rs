//! Laws of configuration loading.

use vstd::prelude::*;

use crate::config::loader::{env_lookup, env_substituted, items_env_pass, json_env_pass, members_env_pass, prefixed};
use crate::json::JsonView;
use crate::text::{contains_seq, first_pos, lemma_first_pos, occurs_at};

verus! {

/// A text without "${" comes out of substitution unchanged.
pub proof fn law_text_without_templates(s: Seq<char>, env: Seq<(Seq<char>, Seq<char>)>)
    requires
        !contains_seq(s, "${"@),
    ensures
        env_substituted(s, env) == Ok::<Seq<char>, Seq<char>>(s),
    decreases s.len(),
{
    reveal_strlit("${");
    if s.len() > 0 {
        let t = s.subrange(1, s.len() as int);
        assert(!(s.len() >= 2 && s[0] == '$' && s[1] == '{')) by {
            if s.len() >= 2 && s[0] == '$' && s[1] == '{' {
                assert(s.subrange(0, 2) =~= "${"@);
                assert(occurs_at(s, "${"@, 0));
            }
        }
        assert(!contains_seq(t, "${"@)) by {
            if contains_seq(t, "${"@) {
                let i = choose|i: int| occurs_at(t, "${"@, i);
                assert(s.subrange(i + 1, i + 3) =~= t.subrange(i, i + 2));
                assert(occurs_at(s, "${"@, i + 1));
            }
        }
        law_text_without_templates(t, env);
        assert(env_substituted(s, env) == prefixed(seq![s[0]], env_substituted(t, env)));
        assert(seq![s[0]] + t =~= s);
    } else {
        assert(s =~= Seq::<char>::empty());
    }
}

/// `${ENV:NAME}` (a name without '}') becomes the value of NAME when the
/// environment has one, and is an error naming NAME when it has none.
pub proof fn law_env_reference(name: Seq<char>, env: Seq<(Seq<char>, Seq<char>)>)
    requires
        !name.contains('}'),
    ensures
        env_lookup(env, name) matches Some(v) ==> env_substituted("${ENV:"@ + name + "}"@, env) == Ok::<Seq<char>, Seq<char>>(v),
        env_lookup(env, name) is None ==> env_substituted("${ENV:"@ + name + "}"@, env) == Err::<Seq<char>, Seq<char>>(name),
{
    reveal_strlit("${ENV:");
    reveal_strlit("}");
    reveal_strlit("ENV:");
    let s = "${ENV:"@ + name + "}"@;
    assert(s.len() == name.len() + 7);
    assert(s[0] == '$' && s[1] == '{');
    let rest = s.subrange(2, s.len() as int);
    assert(rest.len() >= 4);
    assert(rest.subrange(0, 4) =~= "ENV:"@);
    let after = rest.subrange(4, rest.len() as int);
    assert(after =~= name + "}"@);
    assert forall|i: int| 0 <= i < name.len() implies after[i] != '}' by {
        assert(after[i] == name[i]);
        if name[i] == '}' {
            assert(name.contains('}'));
        }
    }
    lemma_first_pos(after, '}', name.len() as int);
    assert(after.subrange(0, name.len() as int) =~= name);
    assert(after.subrange(name.len() as int + 1, after.len() as int) =~= Seq::<char>::empty());
    assert(first_pos(after, '}') < after.len());
    assert(env_substituted(Seq::<char>::empty(), env) == Ok::<Seq<char>, Seq<char>>(Seq::empty()));
    if let Some(v) = env_lookup(env, name) {
        assert(v + Seq::<char>::empty() =~= v);
    }
}

/// No string of a JSON value holds "${".
pub open spec fn template_free(v: JsonView) -> bool
    decreases v,
{
    match v {
        JsonView::Str(s) => !contains_seq(s, "${"@),
        JsonView::Array(items) => items_template_free(items),
        JsonView::Object(ms) => members_template_free(ms),
        _ => true,
    }
}

/// No string of the items holds "${".
pub open spec fn items_template_free(items: Seq<JsonView>) -> bool
    decreases items,
{
    if items.len() == 0 {
        true
    } else {
        items_template_free(items.subrange(0, items.len() - 1)) && template_free(items[items.len() - 1])
    }
}

/// No string of the members' values holds "${".
pub open spec fn members_template_free(ms: Seq<(Seq<char>, JsonView)>) -> bool
    decreases ms,
{
    if ms.len() == 0 {
        true
    } else {
        members_template_free(ms.subrange(0, ms.len() - 1)) && template_free(ms[ms.len() - 1].1)
    }
}

/// A configuration none of whose strings holds "${" comes out of substitution
/// as it went in, without error.
pub proof fn law_config_without_templates(v: JsonView, env: Seq<(Seq<char>, Seq<char>)>)
    requires
        template_free(v),
    ensures
        json_env_pass(v, env) == (v, None::<Seq<char>>),
    decreases v,
{
    match v {
        JsonView::Str(s) => {
            law_text_without_templates(s, env);
        },
        JsonView::Array(items) => {
            lemma_items_without_templates(items, env);
        },
        JsonView::Object(ms) => {
            lemma_members_without_templates(ms, env);
        },
        _ => {},
    }
}

/// Items none of whose strings holds "${" come out of substitution unchanged.
proof fn lemma_items_without_templates(items: Seq<JsonView>, env: Seq<(Seq<char>, Seq<char>)>)
    requires
        items_template_free(items),
    ensures
        items_env_pass(items, env) == (items, None::<Seq<char>>),
    decreases items,
{
    if items.len() > 0 {
        let front = items.subrange(0, items.len() - 1);
        lemma_items_without_templates(front, env);
        law_config_without_templates(items[items.len() - 1], env);
        assert(front.push(items[items.len() - 1]) =~= items);
    } else {
        assert(items =~= Seq::<JsonView>::empty());
    }
}

/// Members none of whose strings holds "${" come out of substitution unchanged.
proof fn lemma_members_without_templates(ms: Seq<(Seq<char>, JsonView)>, env: Seq<(Seq<char>, Seq<char>)>)
    requires
        members_template_free(ms),
    ensures
        members_env_pass(ms, env) == (ms, None::<Seq<char>>),
    decreases ms,
{
    if ms.len() > 0 {
        let front = ms.subrange(0, ms.len() - 1);
        let last = ms[ms.len() - 1];
        lemma_members_without_templates(front, env);
        law_config_without_templates(last.1, env);
        assert(front.push((last.0, last.1)) =~= ms);
    } else {
        assert(ms =~= Seq::<(Seq<char>, JsonView)>::empty());
    }
}

} // verus!
