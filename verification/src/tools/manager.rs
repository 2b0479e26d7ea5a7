use vstd::prelude::*;

use crate::json::JsonValue;
use crate::keyed::KeyedList;
use crate::text::owned;
use crate::tools::types::{ToolError, ToolErrorView, ToolMetadata, openai_tool};

verus! {

/// The registry of tools: each tool's metadata and executor, by tool name.
/// Registering a name again replaces the earlier tool.
pub struct ToolManager<T> {
    tools: KeyedList<(ToolMetadata, T)>,
}

impl<T> ToolManager<T> {
    /// The internal consistency of the registry.
    pub closed spec fn wf(&self) -> bool {
        self.tools.wf()
    }

    /// The registered tools by name: metadata and executor.
    pub closed spec fn registry(&self) -> Map<Seq<char>, (ToolMetadata, T)> {
        self.tools@
    }

    /// Registered tool names in registration order.
    pub closed spec fn order(&self) -> Seq<Seq<char>> {
        self.tools.names()
    }

    /// An empty registry.
    pub fn new() -> (m: ToolManager<T>)
        ensures
            m.wf(),
            m.registry() == Map::<Seq<char>, (ToolMetadata, T)>::empty(),
    {
        ToolManager { tools: KeyedList::new() }
    }

    /// Registers `tool` under the name in `metadata`, replacing any tool of
    /// that name.
    pub fn register_tool(&mut self, metadata: ToolMetadata, tool: T)
        requires
            old(self).wf(),
        ensures
            final(self).wf(),
            final(self).registry() == old(self).registry().insert(metadata.name@, (metadata, tool)),
    {
        let name = metadata.name.clone();
        self.tools.insert(name, (metadata, tool));
    }

    /// Whether a tool named `tool_name` is registered.
    pub fn has_tool(&self, tool_name: &str) -> (b: bool)
        requires
            self.wf(),
        ensures
            b == self.registry().contains_key(tool_name@),
    {
        self.tools.contains(tool_name)
    }

    /// The executor of `tool_name`, or `NotFound(tool_name)` when no tool has
    /// that name.
    pub fn find_tool(&self, tool_name: &str) -> (r: Result<&T, ToolError>)
        requires
            self.wf(),
        ensures
            self.registry().contains_key(tool_name@) ==> (r matches Ok(t) && *t == self.registry()[tool_name@].1),
            !self.registry().contains_key(tool_name@) ==> (r matches Err(e) && e@ == ToolErrorView::NotFound(tool_name@)),
    {
        match self.tools.get(tool_name) {
            Some(entry) => Ok(&entry.1),
            None => Err(ToolError::NotFound(owned(tool_name))),
        }
    }

    /// The metadata of `tool_name`, if registered.
    pub fn get_tool_metadata(&self, tool_name: &str) -> (r: Option<&ToolMetadata>)
        requires
            self.wf(),
        ensures
            self.registry().contains_key(tool_name@) ==> (r matches Some(m) && *m == self.registry()[tool_name@].0),
            !self.registry().contains_key(tool_name@) ==> r is None,
    {
        match self.tools.get(tool_name) {
            Some(entry) => Some(&entry.0),
            None => None,
        }
    }

    /// The names of the registered tools, each once, in registration order.
    pub fn get_tool_names(&self) -> (names: Vec<String>)
        requires
            self.wf(),
        ensures
            names@.len() == self.registry().dom().len(),
            forall|i: int| 0 <= i < names@.len() ==> #[trigger] names@[i]@ == self.order()[i],
            forall|k: Seq<char>| self.registry().contains_key(k) <==> exists|i: int| 0 <= i < names@.len() && names@[i]@ == k,
            forall|i: int, j: int| 0 <= i < names@.len() && 0 <= j < names@.len() && i != j ==> names@[i]@ != names@[j]@,
    {
        self.tools.keys()
    }

    /// The number of registered tools.
    pub fn tool_count(&self) -> (n: usize)
        requires
            self.wf(),
        ensures
            n == self.registry().dom().len(),
    {
        self.tools.len()
    }

    /// Every registered tool in the OpenAI function-calling format, in
    /// registration order.
    pub fn get_tool_definitions(&self) -> (defs: Vec<JsonValue>)
        requires
            self.wf(),
        ensures
            defs@.len() == self.order().len(),
            forall|i: int| 0 <= i < defs@.len() ==> (#[trigger] defs@[i])@ == openai_tool(self.registry()[self.order()[i]].0@),
    {
        let entries = self.tools.values();
        let mut defs: Vec<JsonValue> = Vec::new();
        let mut i: usize = 0;
        while i < entries.len()
            invariant
                self.wf(),
                i <= entries@.len(),
                entries@.len() == self.order().len(),
                forall|j: int| 0 <= j < entries@.len() ==> *#[trigger] entries@[j] == self.registry()[self.order()[j]],
                defs@.len() == i,
                forall|j: int| 0 <= j < i ==> (#[trigger] defs@[j])@ == openai_tool(self.registry()[self.order()[j]].0@),
            decreases entries.len() - i,
        {
            let entry: &(ToolMetadata, T) = entries[i];
            defs.push(entry.0.to_openai_json());
            i = i + 1;
        }
        defs
    }

    /// Copies of the metadata of every registered tool, in registration order.
    pub fn all_metadata(&self) -> (ms: Vec<ToolMetadata>)
        requires
            self.wf(),
        ensures
            ms@.len() == self.order().len(),
            forall|i: int| 0 <= i < ms@.len() ==> (#[trigger] ms@[i])@ == self.registry()[self.order()[i]].0@,
    {
        let entries = self.tools.values();
        let mut ms: Vec<ToolMetadata> = Vec::new();
        let mut i: usize = 0;
        while i < entries.len()
            invariant
                self.wf(),
                i <= entries@.len(),
                entries@.len() == self.order().len(),
                forall|j: int| 0 <= j < entries@.len() ==> *#[trigger] entries@[j] == self.registry()[self.order()[j]],
                ms@.len() == i,
                forall|j: int| 0 <= j < i ==> (#[trigger] ms@[j])@ == self.registry()[self.order()[j]].0@,
            decreases entries.len() - i,
        {
            let entry: &(ToolMetadata, T) = entries[i];
            ms.push(entry.0.duplicate());
            i = i + 1;
        }
        ms
    }

    /// The order lists each registered name once.
    pub proof fn lemma_order(&self)
        requires
            self.wf(),
        ensures
            self.order().len() == self.registry().dom().len(),
            forall|i: int| 0 <= i < self.order().len() ==> self.registry().contains_key(#[trigger] self.order()[i]),
            forall|k: Seq<char>| self.registry().contains_key(k) ==> exists|i: int| 0 <= i < self.order().len() && self.order()[i] == k,
    {
        self.tools.lemma_names();
    }
}

impl<T> Default for ToolManager<T> {
    fn default() -> (m: ToolManager<T>)
        ensures
            m.wf(),
            m.registry() == Map::<Seq<char>, (ToolMetadata, T)>::empty(),
    {
        ToolManager::new()
    }
}

} // verus!
