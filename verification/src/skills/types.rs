//! Skills, their front matter, and the tool that hands a skill's text out.

use vstd::prelude::*;

use crate::json::{JsonValue, JsonView};
use crate::text::{concat2, owned, string_pairs_view};
use crate::tools::types::{ToolMetadata, ToolMetadataView, ToolParameter};

verus! {

broadcast use vstd::string::group_string_axioms;

/// The front matter of a `SKILL.md`: name, description, and every entry of
/// the YAML mapping with its value written as YAML.
#[derive(Debug, Clone)]
pub struct SkillMetadata {
    pub name: String,
    pub description: String,
    pub metadata: Option<Vec<(String, String)>>,
}

/// Mathematical value of skill front matter.
pub struct SkillMetadataView {
    pub name: Seq<char>,
    pub description: Seq<char>,
    pub metadata: Option<Seq<(Seq<char>, Seq<char>)>>,
}

impl View for SkillMetadata {
    type V = SkillMetadataView;

    open spec fn view(&self) -> SkillMetadataView {
        SkillMetadataView {
            name: self.name@,
            description: self.description@,
            metadata: match self.metadata {
                Some(v) => Some(string_pairs_view(v@)),
                None => None,
            },
        }
    }
}

impl Default for SkillMetadata {
    /// Front matter named "Unknown", described "No description", without entries.
    fn default() -> (m: SkillMetadata)
        ensures
            m@ == (SkillMetadataView { name: "Unknown"@, description: "No description"@, metadata: None }),
    {
        SkillMetadata { name: owned("Unknown"), description: owned("No description"), metadata: None }
    }
}

/// A loaded skill.
#[derive(Debug)]
pub struct Skill {
    /// The folder name.
    pub slug: String,
    /// The content of `_meta.json`.
    pub metadata: JsonValue,
    /// The front matter of `SKILL.md`.
    pub skill_metadata: SkillMetadata,
    /// `SKILL.md` after its front matter, trimmed.
    pub content: String,
    /// `SKILL.md` as it is.
    pub full_content: String,
}

/// Mathematical value of a skill.
pub struct SkillView {
    pub slug: Seq<char>,
    pub metadata: JsonView,
    pub skill_metadata: SkillMetadataView,
    pub content: Seq<char>,
    pub full_content: Seq<char>,
}

impl View for Skill {
    type V = SkillView;

    open spec fn view(&self) -> SkillView {
        SkillView {
            slug: self.slug@,
            metadata: self.metadata@,
            skill_metadata: self.skill_metadata@,
            content: self.content@,
            full_content: self.full_content@,
        }
    }
}

/// A tool that hands out the text of one skill.
#[derive(Debug, Clone)]
pub struct SkillReferenceTool {
    pub tool_metadata: ToolMetadata,
    pub skill_id: String,
    pub skill_name: String,
    pub skill_content: String,
}

impl SkillReferenceTool {
    /// The tool for a skill: named "skill/<slug>", described as the skill, no
    /// parameters.
    pub fn new(skill: &Skill) -> (t: SkillReferenceTool)
        ensures
            t.tool_metadata@ == (ToolMetadataView {
                name: "skill/"@ + skill.slug@,
                description: skill.skill_metadata.description@,
                parameters: Seq::empty(),
            }),
            t.skill_id@ == skill.slug@,
            t.skill_name@ == skill.skill_metadata.name@,
            t.skill_content@ == skill.content@,
    {
        let parameters: Vec<ToolParameter> = Vec::new();
        let tool_metadata = ToolMetadata {
            name: concat2("skill/", skill.slug.as_str()),
            description: skill.skill_metadata.description.clone(),
            parameters,
        };
        assert(tool_metadata@.parameters =~= Seq::empty());
        SkillReferenceTool {
            tool_metadata,
            skill_id: skill.slug.clone(),
            skill_name: skill.skill_metadata.name.clone(),
            skill_content: skill.content.clone(),
        }
    }
}

impl SkillMetadata {
    /// A copy with the same value.
    pub fn duplicate(&self) -> (r: SkillMetadata)
        ensures
            r@ == self@,
    {
        let metadata = match &self.metadata {
            Some(v) => {
                let mut out: Vec<(String, String)> = Vec::new();
                let mut i: usize = 0;
                while i < v.len()
                    invariant
                        i <= v@.len(),
                        out@.len() == i,
                        forall|j: int| 0 <= j < i ==> (#[trigger] out@[j]).0@ == v@[j].0@ && out@[j].1@ == v@[j].1@,
                    decreases v.len() - i,
                {
                    out.push((v[i].0.clone(), v[i].1.clone()));
                    i = i + 1;
                }
                assert(string_pairs_view(out@) =~= string_pairs_view(v@));
                Some(out)
            },
            None => None,
        };
        SkillMetadata { name: self.name.clone(), description: self.description.clone(), metadata }
    }
}

impl Skill {
    /// A copy with the same value.
    pub fn duplicate(&self) -> (r: Skill)
        ensures
            r@ == self@,
    {
        Skill {
            slug: self.slug.clone(),
            metadata: self.metadata.duplicate(),
            skill_metadata: self.skill_metadata.duplicate(),
            content: self.content.clone(),
            full_content: self.full_content.clone(),
        }
    }
}

} // verus!
