//! Document skills: folders holding `_meta.json` and a `SKILL.md` with YAML
//! front matter, kept by slug and exposed as tools that return their text.

pub mod types;
pub mod loader;
pub mod reference_tool;
pub mod laws;

pub use types::{Skill, SkillMetadata, SkillReferenceTool};
pub use loader::SkillLoader;
