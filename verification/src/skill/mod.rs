//! Skills: reusable agent capabilities written as Markdown files with a YAML
//! front matter, and the manager that keeps them and picks how their scripts run.

pub mod types;
pub mod laws;

pub use types::{
    Skill, SkillExecutionResult, SkillManager, SkillMetadata, SkillReference, SkillScript,
    default_version,
};
