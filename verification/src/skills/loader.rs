//! The skill loader: parsing `SKILL.md`, the cache of loaded skills, and search.

use vstd::prelude::*;

use crate::json::JsonValue;
use crate::keyed::KeyedList;
use crate::patterns::{opt_pair_view, regex_capture_group, regex_compile_error, regex_group_and_rest};
use crate::skills::types::{Skill, SkillMetadata, SkillMetadataView, SkillView};
use crate::text::{lowercase, lowercased, string_pairs_view, concat2, contains_chars, contains_seq, chars_of, owned, trim, trim_ws};

verus! {

broadcast use vstd::string::group_string_axioms;

/// Why a skill could not be loaded.
#[derive(Debug)]
pub enum SkillLoaderError {
    Io(String),
    Yaml(String),
    Json(String),
    NotFound(String),
    InvalidPath(String),
    Regex(String),
}

/// Mathematical value of a skill loader error.
pub enum SkillLoaderErrorView {
    Io(Seq<char>),
    Yaml(Seq<char>),
    Json(Seq<char>),
    NotFound(Seq<char>),
    InvalidPath(Seq<char>),
    Regex(Seq<char>),
}

impl View for SkillLoaderError {
    type V = SkillLoaderErrorView;

    open spec fn view(&self) -> SkillLoaderErrorView {
        match self {
            SkillLoaderError::Io(s) => SkillLoaderErrorView::Io(s@),
            SkillLoaderError::Yaml(s) => SkillLoaderErrorView::Yaml(s@),
            SkillLoaderError::Json(s) => SkillLoaderErrorView::Json(s@),
            SkillLoaderError::NotFound(s) => SkillLoaderErrorView::NotFound(s@),
            SkillLoaderError::InvalidPath(s) => SkillLoaderErrorView::InvalidPath(s@),
            SkillLoaderError::Regex(s) => SkillLoaderErrorView::Regex(s@),
        }
    }
}

impl SkillLoaderError {
    /// The error message, e.g. "YAML parse error: <message>".
    pub fn message(&self) -> (m: String)
        ensures
            self@ matches SkillLoaderErrorView::Io(s) ==> m@ == "IO error: "@ + s,
            self@ matches SkillLoaderErrorView::Yaml(s) ==> m@ == "YAML parse error: "@ + s,
            self@ matches SkillLoaderErrorView::Json(s) ==> m@ == "JSON parse error: "@ + s,
            self@ matches SkillLoaderErrorView::NotFound(s) ==> m@ == "Skill not found: "@ + s,
            self@ matches SkillLoaderErrorView::InvalidPath(s) ==> m@ == "Invalid path: "@ + s,
            self@ matches SkillLoaderErrorView::Regex(s) ==> m@ == "Regex error: "@ + s,
    {
        match self {
            SkillLoaderError::Io(s) => concat2("IO error: ", s.as_str()),
            SkillLoaderError::Yaml(s) => concat2("YAML parse error: ", s.as_str()),
            SkillLoaderError::Json(s) => concat2("JSON parse error: ", s.as_str()),
            SkillLoaderError::NotFound(s) => concat2("Skill not found: ", s.as_str()),
            SkillLoaderError::InvalidPath(s) => concat2("Invalid path: ", s.as_str()),
            SkillLoaderError::Regex(s) => concat2("Regex error: ", s.as_str()),
        }
    }
}

/// The pattern of the YAML front matter at the start of a `SKILL.md`.
pub open spec fn front_matter_pattern() -> Seq<char> {
    "^---\\s*\\n([\\s\\S]*?)\\n---"@
}

/// What the loader reads from a YAML document.
pub struct YamlFields {
    /// `name`, when it is a string.
    pub name: Option<String>,
    /// `description`, when it is a string.
    pub description: Option<String>,
    /// When the document is a mapping, its entries in order: the key when it
    /// is a string, and the value written as YAML.
    pub entries: Option<Vec<(Option<String>, String)>>,
}

/// Mathematical value of what the loader reads from a YAML document.
pub struct YamlFieldsView {
    pub name: Option<Seq<char>>,
    pub description: Option<Seq<char>>,
    pub entries: Option<Seq<(Option<Seq<char>>, Seq<char>)>>,
}

/// The value of a list of YAML entries.
pub open spec fn entries_view(v: Seq<(Option<String>, String)>) -> Seq<(Option<Seq<char>>, Seq<char>)> {
    v.map_values(|e: (Option<String>, String)| (match e.0 { Some(k) => Some(k@), None => None }, e.1@))
}

impl View for YamlFields {
    type V = YamlFieldsView;

    open spec fn view(&self) -> YamlFieldsView {
        YamlFieldsView {
            name: match self.name { Some(s) => Some(s@), None => None },
            description: match self.description { Some(s) => Some(s@), None => None },
            entries: match self.entries { Some(v) => Some(entries_view(v@)), None => None },
        }
    }
}

/// What `serde_yaml::from_str::<serde_yaml::Value>` and the reads of the
/// loader give for a YAML text: the fields, or the parse error's message.
pub uninterp spec fn yaml_fields_outcome(yaml: Seq<char>) -> Result<YamlFieldsView, Seq<char>>;

/// The value of a YAML read.
pub open spec fn yaml_result_view(r: Result<YamlFields, String>) -> Result<YamlFieldsView, Seq<char>> {
    match r {
        Ok(f) => Ok(f@),
        Err(e) => Err(e@),
    }
}

/// Parses a YAML text with `serde_yaml` and reads `name`, `description` (as
/// strings, with `Value::get` and `Value::as_str`) and the mapping's entries
/// (each value written back with `serde_yaml::to_string`). The contract names
/// the outcome; YAML itself is left to serde_yaml.
#[verifier::external_body]
fn read_yaml_fields(yaml: &str) -> (r: Result<YamlFields, String>)
    ensures
        yaml_result_view(r) == yaml_fields_outcome(yaml@),
{
    match serde_yaml::from_str::<serde_yaml::Value>(yaml) {
        Err(e) => Err(e.to_string()),
        Ok(v) => Ok(YamlFields {
            name: v.get("name").and_then(|x| x.as_str()).map(|s| s.to_string()),
            description: v.get("description").and_then(|x| x.as_str()).map(|s| s.to_string()),
            entries: match &v {
                serde_yaml::Value::Mapping(m) => Some(m.iter().map(|(k, x)| (k.as_str().map(|s| s.to_string()), serde_yaml::to_string(x).unwrap_or_default())).collect()),
                _ => None,
            },
        }),
    }
}

/// The entries whose key is a string, as (key, value) pairs in order.
pub open spec fn string_keyed(entries: Seq<(Option<Seq<char>>, Seq<char>)>) -> Seq<(Seq<char>, Seq<char>)>
    decreases entries.len(),
{
    if entries.len() == 0 {
        Seq::empty()
    } else {
        let rest = string_keyed(entries.subrange(0, entries.len() - 1));
        match entries[entries.len() - 1].0 {
            Some(k) => rest.push((k, entries[entries.len() - 1].1)),
            None => rest,
        }
    }
}

/// The front matter built from what the YAML gave: name and description
/// (defaulting to "Unknown" and "No description") and the string-keyed entries.
pub open spec fn metadata_from(f: YamlFieldsView) -> SkillMetadataView {
    SkillMetadataView {
        name: match f.name { Some(n) => n, None => "Unknown"@ },
        description: match f.description { Some(d) => d, None => "No description"@ },
        metadata: Some(match f.entries { Some(es) => string_keyed(es), None => Seq::empty() }),
    }
}

/// The front matter built from what the YAML gave.
pub fn metadata_from_fields(f: YamlFields) -> (m: SkillMetadata)
    ensures
        m@ == metadata_from(f@),
{
    let ghost fv = f@;
    let name = match f.name {
        Some(n) => n,
        None => owned("Unknown"),
    };
    let description = match f.description {
        Some(d) => d,
        None => owned("No description"),
    };
    let mut out: Vec<(String, String)> = Vec::new();
    match f.entries {
        Some(es) => {
            let ghost ev = entries_view(es@);
            let mut i: usize = 0;
            assert(ev.subrange(0, 0) =~= Seq::<(Option<Seq<char>>, Seq<char>)>::empty());
            assert(string_pairs_view(out@) =~= Seq::<(Seq<char>, Seq<char>)>::empty());
            while i < es.len()
                invariant
                    ev == entries_view(es@),
                    i <= es@.len(),
                    string_pairs_view(out@) == string_keyed(ev.subrange(0, i as int)),
                decreases es.len() - i,
            {
                assert(ev.subrange(0, i + 1).subrange(0, i as int) =~= ev.subrange(0, i as int));
                let ghost before = out@;
                match &es[i].0 {
                    Some(k) => {
                        out.push((k.clone(), es[i].1.clone()));
                        assert(string_pairs_view(out@) =~= string_pairs_view(before).push((k@, es@[i as int].1@)));
                    },
                    None => {},
                }
                i = i + 1;
            }
            assert(ev.subrange(0, i as int) =~= ev);
        },
        None => {
            assert(string_pairs_view(out@) =~= Seq::<(Seq<char>, Seq<char>)>::empty());
        },
    }
    SkillMetadata { name, description, metadata: Some(out) }
}

/// How a `SKILL.md` text is read: without front matter, default metadata and
/// the whole text; with it, the metadata from its YAML and the rest of the
/// text, trimmed. `Err` holds the error, as a loader error value.
pub open spec fn parsed_markdown(content: Seq<char>) -> Result<(SkillMetadataView, Seq<char>), SkillLoaderErrorView> {
    match regex_compile_error(front_matter_pattern()) {
        Some(e) => Err(SkillLoaderErrorView::Regex(e)),
        None => match regex_group_and_rest(front_matter_pattern(), content) {
            None => Ok((SkillMetadataView { name: "Unknown"@, description: "No description"@, metadata: None }, content)),
            Some(gr) => match yaml_fields_outcome(match gr.0 { Some(y) => y, None => Seq::empty() }) {
                Err(e) => Err(SkillLoaderErrorView::Yaml(e)),
                Ok(f) => Ok((metadata_from(f), trim_ws(gr.1))),
            },
        },
    }
}

/// The value of a markdown parse.
pub open spec fn parse_view(r: Result<(SkillMetadata, String), SkillLoaderError>) -> Result<(SkillMetadataView, Seq<char>), SkillLoaderErrorView> {
    match r {
        Ok(p) => Ok((p.0@, p.1@)),
        Err(e) => Err(e@),
    }
}

/// Whether a skill matches a search: its name, description or content
/// contains the keyword, all compared in lowercase.
pub open spec fn skill_matches(sk: Skill, keyword: Seq<char>) -> bool {
    contains_seq(lowercased(sk.skill_metadata.name@), lowercased(keyword))
        || contains_seq(lowercased(sk.skill_metadata.description@), lowercased(keyword))
        || contains_seq(lowercased(sk.content@), lowercased(keyword))
}

/// The skills that match a search, in order.
pub open spec fn matching(skills: Seq<Skill>, keyword: Seq<char>) -> Seq<Skill>
    decreases skills.len(),
{
    if skills.len() == 0 {
        Seq::empty()
    } else {
        let rest = matching(skills.subrange(0, skills.len() - 1), keyword);
        if skill_matches(skills[skills.len() - 1], keyword) {
            rest.push(skills[skills.len() - 1])
        } else {
            rest
        }
    }
}

/// The loaded skills, by slug, and the folder they come from.
pub struct SkillLoader {
    skills_dir: String,
    loaded_skills: KeyedList<Skill>,
}

impl SkillLoader {
    /// Reads a `SKILL.md` text: its front matter (see [`parsed_markdown`]) and
    /// its content.
    pub fn parse_skill_markdown(content: &str) -> (r: Result<(SkillMetadata, String), SkillLoaderError>)
        ensures
            parse_view(r) == parsed_markdown(content@),
    {
        match regex_capture_group("^---\\s*\\n([\\s\\S]*?)\\n---", content) {
            Err(e) => Err(SkillLoaderError::Regex(e)),
            Ok(None) => Ok((SkillMetadata::default(), owned(content))),
            Ok(Some((group, rest))) => {
                let yaml = match group {
                    Some(y) => y,
                    None => String::new(),
                };
                match read_yaml_fields(yaml.as_str()) {
                    Err(e) => Err(SkillLoaderError::Yaml(e)),
                    Ok(f) => Ok((metadata_from_fields(f), trim(rest.as_str()))),
                }
            },
        }
    }

    /// The loader's invariant.
    pub closed spec fn wf(&self) -> bool {
        self.loaded_skills.wf()
    }

    /// The loaded skills by slug.
    pub closed spec fn skills(&self) -> Map<Seq<char>, Skill> {
        self.loaded_skills@
    }

    /// The slugs of the loaded skills, in the order they were first loaded.
    pub closed spec fn order(&self) -> Seq<Seq<char>> {
        self.loaded_skills.names()
    }

    /// The folder skills are loaded from.
    pub closed spec fn dir(&self) -> Seq<char> {
        self.skills_dir@
    }

    /// The loaded skills in order.
    pub open spec fn ordered(&self) -> Seq<Skill> {
        Seq::new(self.order().len(), |i: int| self.skills()[self.order()[i]])
    }

    /// A loader with no skills loaded.
    pub fn new(skills_dir: String) -> (l: SkillLoader)
        ensures
            l.wf(),
            l.skills() == Map::<Seq<char>, Skill>::empty(),
            l.dir() == skills_dir@,
    {
        SkillLoader { skills_dir, loaded_skills: KeyedList::new() }
    }

    /// The folder skills are loaded from.
    pub fn skills_dir(&self) -> (d: &str)
        ensures
            d@ == self.dir(),
    {
        self.skills_dir.as_str()
    }

    /// The skill of a folder, from its `_meta.json` value and its `SKILL.md`
    /// text, kept in the cache under its slug; the copy handed back is equal.
    pub fn load_skill(&mut self, folder_name: &str, meta: JsonValue, skill_md: String) -> (r: Result<Skill, SkillLoaderError>)
        requires
            old(self).wf(),
        ensures
            final(self).wf(),
            final(self).dir() == old(self).dir(),
            parsed_markdown(skill_md@) matches Err(e) ==> (r matches Err(x) && x@ == e
                && final(self).skills() == old(self).skills()),
            parsed_markdown(skill_md@) matches Ok(p) ==> (r matches Ok(sk)
                && sk@ == (SkillView { slug: folder_name@, metadata: meta@, skill_metadata: p.0, content: p.1, full_content: skill_md@ })
                && final(self).skills().dom() == old(self).skills().dom().insert(folder_name@)
                && final(self).skills()[folder_name@]@ == sk@
                && forall|k: Seq<char>| k != folder_name@ && #[trigger] old(self).skills().contains_key(k)
                    ==> final(self).skills()[k] == old(self).skills()[k]),
    {
        let (skill_metadata, content) = match Self::parse_skill_markdown(skill_md.as_str()) {
            Ok(p) => p,
            Err(e) => return Err(e),
        };
        let skill = Skill { slug: owned(folder_name), metadata: meta, skill_metadata, content, full_content: skill_md };
        let copy = skill.duplicate();
        self.loaded_skills.insert(owned(folder_name), skill);
        Ok(copy)
    }

    /// The skill with this slug.
    pub fn get_skill(&self, id: &str) -> (r: Option<&Skill>)
        requires
            self.wf(),
        ensures
            r matches Some(s) ==> self.skills().contains_key(id@) && *s == self.skills()[id@],
            r is None ==> !self.skills().contains_key(id@),
    {
        self.loaded_skills.get(id)
    }

    /// All loaded skills, in order.
    pub fn list_skills(&self) -> (r: Vec<&Skill>)
        requires
            self.wf(),
        ensures
            r@.len() == self.order().len(),
            forall|i: int| 0 <= i < r@.len() ==> *(#[trigger] r@[i]) == self.ordered()[i],
            r@.len() == self.skills().dom().len(),
    {
        proof {
            self.loaded_skills.lemma_names();
        }
        self.loaded_skills.values()
    }

    /// The loaded skills whose name, description or content contains the
    /// keyword, compared in lowercase, in order.
    pub fn search_skills(&self, keyword: &str) -> (r: Vec<&Skill>)
        requires
            self.wf(),
        ensures
            r@.map_values(|s: &Skill| *s) == matching(self.ordered(), keyword@),
    {
        let all = self.list_skills();
        let ghost sv = self.ordered();
        let kw = chars_of(lowercase(keyword).as_str());
        let mut out: Vec<&Skill> = Vec::new();
        let mut i: usize = 0;
        assert(sv.subrange(0, 0) =~= Seq::<Skill>::empty());
        assert(out@.map_values(|s: &Skill| *s) =~= Seq::<Skill>::empty());
        while i < all.len()
            invariant
                sv == self.ordered(),
                all@.len() == sv.len(),
                forall|j: int| 0 <= j < all@.len() ==> *(#[trigger] all@[j]) == sv[j],
                kw@ == lowercased(keyword@),
                i <= all@.len(),
                out@.map_values(|s: &Skill| *s) == matching(sv.subrange(0, i as int), keyword@),
            decreases all.len() - i,
        {
            let sk = all[i];
            let name = chars_of(lowercase(sk.skill_metadata.name.as_str()).as_str());
            let description = chars_of(lowercase(sk.skill_metadata.description.as_str()).as_str());
            let content = chars_of(lowercase(sk.content.as_str()).as_str());
            let hit = contains_chars(name.as_slice(), kw.as_slice())
                || contains_chars(description.as_slice(), kw.as_slice())
                || contains_chars(content.as_slice(), kw.as_slice());
            assert(sv.subrange(0, i + 1).subrange(0, i as int) =~= sv.subrange(0, i as int));
            assert(sv.subrange(0, i + 1)[i as int] == *sk);
            let ghost before = out@;
            if hit {
                out.push(sk);
                assert(out@.map_values(|s: &Skill| *s) =~= before.map_values(|s: &Skill| *s).push(*sk));
            }
            i = i + 1;
        }
        assert(sv.subrange(0, i as int) =~= sv);
        out
    }

    /// Forgets every loaded skill (before loading them again).
    pub fn clear_skills(&mut self)
        requires
            old(self).wf(),
        ensures
            final(self).wf(),
            final(self).skills() == Map::<Seq<char>, Skill>::empty(),
            final(self).dir() == old(self).dir(),
    {
        self.loaded_skills.clear();
    }
}

} // verus!
