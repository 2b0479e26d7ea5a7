//! Running a skill reference tool: it answers with the skill's text.

use vstd::prelude::*;

use crate::json::JsonValue;
use crate::skills::types::SkillReferenceTool;
use crate::tools::types::{ToolError, ToolMetadata, ToolResult, succeeded};

verus! {

impl SkillReferenceTool {
    /// The tool's metadata.
    pub fn metadata(&self) -> (m: &ToolMetadata)
        ensures
            *m == self.tool_metadata,
    {
        &self.tool_metadata
    }

    /// The skill's text as a successful result; the parameters are not read.
    pub fn execute(&self, parameters: &JsonValue) -> (r: Result<ToolResult, ToolError>)
        ensures
            r matches Ok(t) && t@ == succeeded(self.skill_content@),
    {
        Ok(ToolResult::succeeded(self.skill_content.clone()))
    }
}

} // verus!
