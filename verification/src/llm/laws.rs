//! Laws of the chat completion exchange.

use vstd::prelude::*;

use crate::llm::connector::trim_trailing_slashes;
use crate::llm::types::definition_json;
use crate::tools::types::{openai_tool, param_properties, ParameterType, ToolMetadataView};

verus! {

/// A trailing '/' on the base URL does not change the endpoint.
pub proof fn law_trailing_slash_ignored(base: Seq<char>)
    ensures
        trim_trailing_slashes(base.push('/')) == trim_trailing_slashes(base),
{
    assert(base.push('/').subrange(0, base.len() as int) =~= base);
}

/// The endpoint base never ends with '/'.
pub proof fn law_trimmed_base_has_no_trailing_slash(base: Seq<char>)
    ensures
        trim_trailing_slashes(base).len() == 0 || trim_trailing_slashes(base).last() != '/',
    decreases base.len(),
{
    if base.len() > 0 && base[base.len() - 1] == '/' {
        law_trimmed_base_has_no_trailing_slash(base.subrange(0, base.len() - 1));
    }
}

/// The two OpenAI forms of a tool agree when no parameter is an array: the
/// definition sent with a chat request and the tool's own OpenAI JSON differ
/// only in the `items` schema an array parameter gets in the latter.
pub proof fn law_definition_matches_openai_json(m: ToolMetadataView)
    requires
        forall|i: int| 0 <= i < m.parameters.len() ==> (#[trigger] m.parameters[i]).parameter_type != ParameterType::Array,
    ensures
        definition_json(m) == openai_tool(m),
{
    assert(param_properties(m.parameters, false) =~= param_properties(m.parameters, true));
}

} // verus!
