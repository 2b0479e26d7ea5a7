//! What the skill endpoints answer: the list of skills and one skill's
//! details, built from the skill manager.

use vstd::prelude::*;

use crate::api::types::ApiError;
use crate::json::{JsonValue, JsonView, lemma_json_members_view_ext, lemma_json_seq_view_ext, opt_str_json, opt_string_value, str_array_json, string_array_value};
use crate::skill::types::{Skill, SkillManager, SkillScript};
use crate::session::types::opt_str_view;
use crate::text::{concat3, owned};

verus! {

broadcast use vstd::string::group_string_axioms;

/// The skill endpoints need an initialized runtime.
pub fn check_initialized(initialized: bool) -> (r: Result<(), ApiError>)
    ensures
        !initialized ==> (r matches Err(ApiError::InternalServerError(m)) && m@ == "AgentRuntime not initialized"@),
        initialized ==> r is Ok,
{
    if !initialized {
        return Err(ApiError::InternalServerError(owned("AgentRuntime not initialized")));
    }
    Ok(())
}

/// The error of a runtime without a skill manager.
pub fn skill_manager_unavailable() -> (e: ApiError)
    ensures
        e matches ApiError::InternalServerError(m) && m@ == "Skill manager not available"@,
{
    ApiError::InternalServerError(owned("Skill manager not available"))
}

/// A skill must be named.
pub fn check_skill_name(skill_name: &str) -> (r: Result<(), ApiError>)
    ensures
        skill_name@.len() == 0 ==> (r matches Err(ApiError::BadRequest(m)) && m@ == "Skill name cannot be empty"@),
        skill_name@.len() > 0 ==> r is Ok,
{
    if skill_name.is_empty() {
        return Err(ApiError::BadRequest(owned("Skill name cannot be empty")));
    }
    Ok(())
}

/// Skills are not run through the API.
pub fn execute_skill_refused() -> (e: ApiError)
    ensures
        e matches ApiError::InternalServerError(m)
            && m@ == "Skill execution via API is not supported. Please read the skill Markdown file and execute scripts manually."@,
{
    ApiError::InternalServerError(owned("Skill execution via API is not supported. Please read the skill Markdown file and execute scripts manually."))
}

/// The summary of a skill in the list: name, description, version, author,
/// triggers, tags and the number of scripts.
pub open spec fn skill_summary_json(s: Skill) -> JsonView {
    JsonView::Object(seq![
        ("name"@, JsonView::Str(s.metadata.name@)),
        ("description"@, JsonView::Str(s.metadata.description@)),
        ("version"@, JsonView::Str(s.metadata.version@)),
        ("author"@, opt_str_json(opt_str_view(s.metadata.author))),
        ("triggers"@, str_array_json(s.metadata.triggers@.map_values(|x: String| x@))),
        ("tags"@, str_array_json(s.metadata.tags@.map_values(|x: String| x@))),
        ("script_count"@, JsonView::Number(s.scripts@.len() as int)),
    ])
}

/// The summary of a skill in the list (see [`skill_summary_json`]).
pub fn skill_summary(s: &Skill) -> (v: JsonValue)
    requires
        s.scripts@.len() <= i64::MAX,
    ensures
        v@ == skill_summary_json(*s),
{
    let mut ms: Vec<(String, JsonValue)> = Vec::new();
    ms.push((owned("name"), JsonValue::Str(s.metadata.name.clone())));
    ms.push((owned("description"), JsonValue::Str(s.metadata.description.clone())));
    ms.push((owned("version"), JsonValue::Str(s.metadata.version.clone())));
    ms.push((owned("author"), opt_string_value(&s.metadata.author)));
    ms.push((owned("triggers"), string_array_value(&s.metadata.triggers)));
    ms.push((owned("tags"), string_array_value(&s.metadata.tags)));
    ms.push((owned("script_count"), JsonValue::Number(s.scripts.len() as i64)));
    proof {
        lemma_json_members_view_ext(ms@, seq![
            ("name"@, JsonView::Str(s.metadata.name@)),
            ("description"@, JsonView::Str(s.metadata.description@)),
            ("version"@, JsonView::Str(s.metadata.version@)),
            ("author"@, opt_str_json(opt_str_view(s.metadata.author))),
            ("triggers"@, str_array_json(s.metadata.triggers@.map_values(|x: String| x@))),
            ("tags"@, str_array_json(s.metadata.tags@.map_values(|x: String| x@))),
            ("script_count"@, JsonView::Number(s.scripts@.len() as int)),
        ]);
    }
    JsonValue::Object(ms)
}

/// A list of skills: `skills`, a summary of each skill once, and `count`.
pub open spec fn is_skill_list(v: JsonView, skills: Map<Seq<char>, Skill>) -> bool {
    match v {
        JsonView::Object(ms) => {
            &&& ms.len() == 2
            &&& ms[0].0 == "skills"@
            &&& ms[1].0 == "count"@
            &&& ms[1].1 == JsonView::Number(skills.dom().len() as int)
            &&& match ms[0].1 {
                JsonView::Array(items) => {
                    &&& items.len() == skills.dom().len()
                    &&& exists|names: Seq<Seq<char>>| {
                        &&& names.len() == items.len()
                        &&& forall|a: int, b: int| 0 <= a < b < names.len() ==> names[a] != names[b]
                        &&& forall|i: int| 0 <= i < items.len() ==> skills.contains_key(#[trigger] names[i])
                            && items[i] == skill_summary_json(skills[names[i]])
                        &&& forall|k: Seq<char>| skills.contains_key(k) ==> names.contains(k)
                    }
                },
                _ => false,
            }
        },
        _ => false,
    }
}

/// The list of skills: a summary of each loaded skill and their count.
pub fn list_skills_json(manager: &SkillManager) -> (v: JsonValue)
    requires
        manager.wf(),
        manager.skills().dom().len() <= i64::MAX,
        forall|k: Seq<char>| manager.skills().contains_key(k) ==> manager.skills()[k].scripts@.len() <= i64::MAX,
    ensures
        is_skill_list(v@, manager.skills()),
{
    let names = manager.get_skill_names();
    let mut items: Vec<JsonValue> = Vec::new();
    let mut i: usize = 0;
    while i < names.len()
        invariant
            manager.wf(),
            manager.skills().dom().len() <= i64::MAX,
            forall|k: Seq<char>| manager.skills().contains_key(k) ==> manager.skills()[k].scripts@.len() <= i64::MAX,
            names@.len() == manager.skills().dom().len(),
            forall|k: Seq<char>| manager.skills().contains_key(k) <==> exists|j: int| 0 <= j < names@.len() && names@[j]@ == k,
            forall|a: int, b: int| 0 <= a < b < names@.len() ==> names@[a]@ != names@[b]@,
            i <= names@.len(),
            items@.len() == i,
            forall|j: int| 0 <= j < i ==> (#[trigger] items@[j])@ == skill_summary_json(manager.skills()[names@[j]@]),
        decreases names.len() - i,
    {
        proof {
            let k = names@[i as int]@;
            assert(exists|j: int| 0 <= j < names@.len() && names@[j]@ == k);
            assert(manager.skills().contains_key(k));
        }
        match manager.get_skill(names[i].as_str()) {
            Some(s) => {
                items.push(skill_summary(s));
            },
            None => {},
        }
        i = i + 1;
    }
    let ghost nv = names@.map_values(|x: String| x@);
    proof {
        assert forall|a: int, b: int| 0 <= a < b < nv.len() implies nv[a] != nv[b] by {
            assert(names@[a]@ != names@[b]@);
        }
        assert forall|j: int| 0 <= j < nv.len() implies manager.skills().contains_key(#[trigger] nv[j]) by {
            assert(names@[j]@ == nv[j]);
            assert(exists|q: int| 0 <= q < names@.len() && names@[q]@ == nv[j]);
        }
        assert forall|k: Seq<char>| manager.skills().contains_key(k) implies nv.contains(k) by {
            let q = choose|q: int| 0 <= q < names@.len() && names@[q]@ == k;
            assert(nv[q] == k);
        }
    }
    let ghost iv = items@.map_values(|x: JsonValue| x@);
    proof {
        lemma_json_seq_view_ext(items@, iv);
    }
    let count = items.len();
    let mut ms: Vec<(String, JsonValue)> = Vec::new();
    ms.push((owned("skills"), JsonValue::Array(items)));
    ms.push((owned("count"), JsonValue::Number(count as i64)));
    proof {
        lemma_json_members_view_ext(ms@, seq![
            ("skills"@, JsonView::Array(iv)),
            ("count"@, JsonView::Number(count as int)),
        ]);
        assert(forall|q: int| 0 <= q < iv.len() ==> manager.skills().contains_key(#[trigger] nv[q])
            && iv[q] == skill_summary_json(manager.skills()[nv[q]]));
    }
    JsonValue::Object(ms)
}

/// The details of a script: name, description, language and whether it runs
/// on load.
pub open spec fn script_json(s: SkillScript) -> JsonView {
    JsonView::Object(seq![
        ("name"@, JsonView::Str(s.name@)),
        ("description"@, JsonView::Str(s.description@)),
        ("language"@, JsonView::Str(s.language@)),
        ("auto_execute"@, JsonView::Bool(s.auto_execute)),
    ])
}

/// The details of a skill: its metadata, its scripts and its content.
pub open spec fn skill_details_json(s: Skill) -> JsonView {
    JsonView::Object(seq![
        ("name"@, JsonView::Str(s.metadata.name@)),
        ("description"@, JsonView::Str(s.metadata.description@)),
        ("version"@, JsonView::Str(s.metadata.version@)),
        ("author"@, opt_str_json(opt_str_view(s.metadata.author))),
        ("triggers"@, str_array_json(s.metadata.triggers@.map_values(|x: String| x@))),
        ("required_tools"@, str_array_json(s.metadata.required_tools@.map_values(|x: String| x@))),
        ("tags"@, str_array_json(s.metadata.tags@.map_values(|x: String| x@))),
        ("scripts"@, JsonView::Array(s.scripts@.map_values(|x: SkillScript| script_json(x)))),
        ("content"@, JsonView::Str(s.content@)),
    ])
}

/// The details of the skill named `skill_name`; `NotFound` when none is loaded.
pub fn skill_details(manager: &SkillManager, skill_name: &str) -> (r: Result<JsonValue, ApiError>)
    requires
        manager.wf(),
    ensures
        manager.skills().contains_key(skill_name@) ==> (r matches Ok(v) && v@ == skill_details_json(manager.skills()[skill_name@])),
        !manager.skills().contains_key(skill_name@) ==> (r matches Err(ApiError::NotFound(m))
            && m@ == "Skill '"@ + skill_name@ + "' not found"@),
{
    let s = match manager.get_skill(skill_name) {
        Some(s) => s,
        None => return Err(ApiError::NotFound(concat3("Skill '", skill_name, "' not found"))),
    };
    let mut scripts: Vec<JsonValue> = Vec::new();
    let mut i: usize = 0;
    while i < s.scripts.len()
        invariant
            i <= s.scripts@.len(),
            scripts@.len() == i,
            forall|j: int| 0 <= j < i ==> (#[trigger] scripts@[j])@ == script_json(s.scripts@[j]),
        decreases s.scripts.len() - i,
    {
        let sc = &s.scripts[i];
        let mut ms: Vec<(String, JsonValue)> = Vec::new();
        ms.push((owned("name"), JsonValue::Str(sc.name.clone())));
        ms.push((owned("description"), JsonValue::Str(sc.description.clone())));
        ms.push((owned("language"), JsonValue::Str(sc.language.clone())));
        ms.push((owned("auto_execute"), JsonValue::Bool(sc.auto_execute)));
        proof {
            lemma_json_members_view_ext(ms@, seq![
                ("name"@, JsonView::Str(sc.name@)),
                ("description"@, JsonView::Str(sc.description@)),
                ("language"@, JsonView::Str(sc.language@)),
                ("auto_execute"@, JsonView::Bool(sc.auto_execute)),
            ]);
        }
        scripts.push(JsonValue::Object(ms));
        i = i + 1;
    }
    proof {
        lemma_json_seq_view_ext(scripts@, s.scripts@.map_values(|x: SkillScript| script_json(x)));
    }
    let mut ms: Vec<(String, JsonValue)> = Vec::new();
    ms.push((owned("name"), JsonValue::Str(s.metadata.name.clone())));
    ms.push((owned("description"), JsonValue::Str(s.metadata.description.clone())));
    ms.push((owned("version"), JsonValue::Str(s.metadata.version.clone())));
    ms.push((owned("author"), opt_string_value(&s.metadata.author)));
    ms.push((owned("triggers"), string_array_value(&s.metadata.triggers)));
    ms.push((owned("required_tools"), string_array_value(&s.metadata.required_tools)));
    ms.push((owned("tags"), string_array_value(&s.metadata.tags)));
    ms.push((owned("scripts"), JsonValue::Array(scripts)));
    ms.push((owned("content"), JsonValue::Str(s.content.clone())));
    proof {
        lemma_json_members_view_ext(ms@, seq![
            ("name"@, JsonView::Str(s.metadata.name@)),
            ("description"@, JsonView::Str(s.metadata.description@)),
            ("version"@, JsonView::Str(s.metadata.version@)),
            ("author"@, opt_str_json(opt_str_view(s.metadata.author))),
            ("triggers"@, str_array_json(s.metadata.triggers@.map_values(|x: String| x@))),
            ("required_tools"@, str_array_json(s.metadata.required_tools@.map_values(|x: String| x@))),
            ("tags"@, str_array_json(s.metadata.tags@.map_values(|x: String| x@))),
            ("scripts"@, JsonView::Array(s.scripts@.map_values(|x: SkillScript| script_json(x)))),
            ("content"@, JsonView::Str(s.content@)),
        ]);
    }
    Ok(JsonValue::Object(ms))
}

} // verus!
