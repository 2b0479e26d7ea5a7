//! The builtin tools: their fixed metadata, the rules by which they read their
//! parameters, and how their outcomes become tool results. The file system work
//! itself is done by the caller.

pub mod calculator;
pub mod file_reader;
pub mod file_writer;
pub mod file_editor;
pub mod file_lister;
pub mod file_deleter;
pub mod directory_creator;
pub mod get_current_time;
pub mod mcp_tool_executor;

pub use calculator::CalculatorTool;
pub use file_reader::FileReaderTool;
pub use file_writer::FileWriterTool;
pub use file_editor::FileEditorTool;
pub use file_lister::FileListerTool;
pub use file_deleter::FileDeleterTool;
pub use directory_creator::DirectoryCreatorTool;
pub use get_current_time::DatetimeTool;
pub use mcp_tool_executor::MCPToolExecutor;

use vstd::prelude::*;

use crate::json::{JsonValue, json_field_str};
use crate::tools::manager::ToolManager;
use crate::tools::types::{ToolMetadata, ToolMetadataView};
use crate::text::owned;
use crate::tools::types::{ToolError, ToolErrorView};
use calculator::calculator_metadata;
use directory_creator::directory_creator_metadata;
use file_deleter::file_deleter_metadata;
use file_editor::file_editor_metadata;
use file_lister::file_lister_metadata;
use file_reader::file_reader_metadata;
use file_writer::file_writer_metadata;
use get_current_time::get_current_time_metadata;

verus! {

/// `parameters[key].as_str()`, or `InvalidParameters(missing)` when the member
/// is absent or not a string.
pub fn required_str(parameters: &JsonValue, key: &str, missing: &str) -> (r: Result<String, ToolError>)
    ensures
        json_field_str(parameters@, key@) matches Some(s) ==> (r matches Ok(v) && v@ == s),
        json_field_str(parameters@, key@) is None ==> (r matches Err(e) && e@ == ToolErrorView::InvalidParameters(missing@)),
{
    match parameters.field_str(key) {
        Some(s) => Ok(s),
        None => Err(ToolError::InvalidParameters(owned(missing))),
    }
}

/// One of the builtin tools.
#[derive(Debug, Clone)]
pub enum BuiltinTool {
    Calculator(CalculatorTool),
    FileReader(FileReaderTool),
    FileWriter(FileWriterTool),
    FileEditor(FileEditorTool),
    FileLister(FileListerTool),
    FileDeleter(FileDeleterTool),
    DirectoryCreator(DirectoryCreatorTool),
    Datetime(DatetimeTool),
}

impl BuiltinTool {
    /// The tool's metadata.
    pub open spec fn meta(&self) -> ToolMetadata {
        match self {
            BuiltinTool::Calculator(t) => t.meta(),
            BuiltinTool::FileReader(t) => t.meta(),
            BuiltinTool::FileWriter(t) => t.meta(),
            BuiltinTool::FileEditor(t) => t.meta(),
            BuiltinTool::FileLister(t) => t.meta(),
            BuiltinTool::FileDeleter(t) => t.meta(),
            BuiltinTool::DirectoryCreator(t) => t.meta(),
            BuiltinTool::Datetime(t) => t.meta(),
        }
    }

    /// The tool's metadata.
    pub fn metadata(&self) -> (m: &ToolMetadata)
        ensures
            *m == self.meta(),
    {
        match self {
            BuiltinTool::Calculator(t) => t.metadata(),
            BuiltinTool::FileReader(t) => t.metadata(),
            BuiltinTool::FileWriter(t) => t.metadata(),
            BuiltinTool::FileEditor(t) => t.metadata(),
            BuiltinTool::FileLister(t) => t.metadata(),
            BuiltinTool::FileDeleter(t) => t.metadata(),
            BuiltinTool::DirectoryCreator(t) => t.metadata(),
            BuiltinTool::Datetime(t) => t.metadata(),
        }
    }
}

/// The metadata of the builtin tools, in the order they are registered.
pub open spec fn builtin_catalog() -> Seq<ToolMetadataView> {
    seq![
        calculator_metadata(),
        file_reader_metadata(),
        file_writer_metadata(),
        file_editor_metadata(),
        file_lister_metadata(),
        file_deleter_metadata(),
        directory_creator_metadata(),
        get_current_time_metadata(),
    ]
}

/// `k` is the name of a builtin tool.
pub open spec fn is_builtin_name(k: Seq<char>) -> bool {
    exists|i: int| 0 <= i < builtin_catalog().len() && builtin_catalog()[i].name == k
}

/// Registers a tool under a copy of its own metadata.
fn register_builtin(manager: &mut ToolManager<BuiltinTool>, tool: BuiltinTool)
    requires
        old(manager).wf(),
    ensures
        final(manager).wf(),
        final(manager).registry() == old(manager).registry().insert(tool.meta().name@,
            (final(manager).registry()[tool.meta().name@].0, tool)),
        final(manager).registry()[tool.meta().name@].0@ == tool.meta()@,
{
    let metadata = tool.metadata().duplicate();
    manager.register_tool(metadata, tool);
}

/// Registers the eight builtin tools, each under its own name and metadata.
/// Tools of other names stay as they were.
pub fn register_builtin_tools(manager: &mut ToolManager<BuiltinTool>)
    requires
        old(manager).wf(),
    ensures
        final(manager).wf(),
        forall|k: Seq<char>| #[trigger] final(manager).registry().contains_key(k)
            <==> (old(manager).registry().contains_key(k) || is_builtin_name(k)),
        forall|i: int| 0 <= i < builtin_catalog().len() ==> {
            let e = #[trigger] final(manager).registry()[builtin_catalog()[i].name];
            e.0@ == builtin_catalog()[i] && e.1.meta()@ == builtin_catalog()[i]
        },
        forall|k: Seq<char>| !is_builtin_name(k) && old(manager).registry().contains_key(k)
            ==> #[trigger] final(manager).registry()[k] == old(manager).registry()[k],
{
    let ghost r0 = manager.registry();
    let t0 = BuiltinTool::Calculator(CalculatorTool::new());
    let ghost g0 = t0;
    register_builtin(manager, t0);
    let ghost r1 = manager.registry();
    let t1 = BuiltinTool::FileReader(FileReaderTool::new());
    let ghost g1 = t1;
    register_builtin(manager, t1);
    let ghost r2 = manager.registry();
    let t2 = BuiltinTool::FileWriter(FileWriterTool::new());
    let ghost g2 = t2;
    register_builtin(manager, t2);
    let ghost r3 = manager.registry();
    let t3 = BuiltinTool::FileEditor(FileEditorTool::new());
    let ghost g3 = t3;
    register_builtin(manager, t3);
    let ghost r4 = manager.registry();
    let t4 = BuiltinTool::FileLister(FileListerTool::new());
    let ghost g4 = t4;
    register_builtin(manager, t4);
    let ghost r5 = manager.registry();
    let t5 = BuiltinTool::FileDeleter(FileDeleterTool::new());
    let ghost g5 = t5;
    register_builtin(manager, t5);
    let ghost r6 = manager.registry();
    let t6 = BuiltinTool::DirectoryCreator(DirectoryCreatorTool::new());
    let ghost g6 = t6;
    register_builtin(manager, t6);
    let ghost r7 = manager.registry();
    let t7 = BuiltinTool::Datetime(DatetimeTool::new());
    let ghost g7 = t7;
    register_builtin(manager, t7);
    let ghost r8 = manager.registry();
    proof {
        reveal_strlit("calculator");
        reveal_strlit("file_reader");
        reveal_strlit("file_writer");
        reveal_strlit("file_editor");
        reveal_strlit("file_lister");
        reveal_strlit("file_deleter");
        reveal_strlit("directory_creator");
        reveal_strlit("get_current_time");
        let c = builtin_catalog();
        let gs = seq![g0, g1, g2, g3, g4, g5, g6, g7];
        assert(c[1].name[5] == 'r' && c[2].name[5] == 'w' && c[3].name[5] == 'e' && c[4].name[5] == 'l');
        assert(c[0].name.len() == 10 && c[1].name.len() == 11 && c[5].name.len() == 12);
        assert(c[6].name.len() == 17 && c[7].name.len() == 16);
        assert forall|i: int, j: int| 0 <= i < j < 8 implies c[i].name != c[j].name by {
            if c[i].name == c[j].name {
                assert(c[i].name.len() == c[j].name.len());
                if 1 <= i <= 4 && 1 <= j <= 4 {
                    assert(c[i].name[5] == c[j].name[5]);
                }
            }
        }
        assert forall|i: int| 0 <= i < 8 implies (#[trigger] gs[i]).meta()@ == c[i] by {}
        assert forall|i: int| 0 <= i < 8 implies ({
            let e = #[trigger] manager.registry()[c[i].name];
            e.0@ == c[i] && e.1.meta()@ == c[i]
        }) by {
            assert(gs[i].meta()@.name == c[i].name);
            if i == 0 { assert(manager.registry()[c[0].name] == r1[c[0].name]); }
            else if i == 1 { assert(manager.registry()[c[1].name] == r2[c[1].name]); }
            else if i == 2 { assert(manager.registry()[c[2].name] == r3[c[2].name]); }
            else if i == 3 { assert(manager.registry()[c[3].name] == r4[c[3].name]); }
            else if i == 4 { assert(manager.registry()[c[4].name] == r5[c[4].name]); }
            else if i == 5 { assert(manager.registry()[c[5].name] == r6[c[5].name]); }
            else if i == 6 { assert(manager.registry()[c[6].name] == r7[c[6].name]); }
        }
        assert forall|k: Seq<char>| #[trigger] manager.registry().contains_key(k)
            <==> (r0.contains_key(k) || is_builtin_name(k)) by {
            if is_builtin_name(k) {
                let i = choose|i: int| 0 <= i < c.len() && c[i].name == k;
                assert(manager.registry().contains_key(k));
            }
            if manager.registry().contains_key(k) && !r0.contains_key(k) {
                if k == c[0].name { assert(is_builtin_name(k)); }
                else if k == c[1].name { assert(is_builtin_name(k)); }
                else if k == c[2].name { assert(is_builtin_name(k)); }
                else if k == c[3].name { assert(is_builtin_name(k)); }
                else if k == c[4].name { assert(is_builtin_name(k)); }
                else if k == c[5].name { assert(is_builtin_name(k)); }
                else if k == c[6].name { assert(is_builtin_name(k)); }
                else { assert(k == c[7].name); assert(is_builtin_name(k)); }
            }
        }
    }
}

} // verus!
