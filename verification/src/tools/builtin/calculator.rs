use vstd::prelude::*;

use crate::json::{JsonValue, json_field_bool, json_field_str};
use crate::text::{concat2, owned, str_result_view};
use crate::tools::builtin::required_str;
use crate::tools::types::{
    ParameterType, ToolError, ToolErrorView, ToolMetadata, ToolMetadataView, ToolParameter,
    ToolParameterView, ToolResult, failed, succeeded,
};

verus! {

broadcast use vstd::string::group_string_axioms;

/// The metadata of the `calculator` tool.
pub open spec fn calculator_metadata() -> ToolMetadataView {
    ToolMetadataView {
        name: "calculator"@,
        description: "Evaluate a mathematical expression. Supports basic arithmetic, parentheses, and mathematical functions."@,
        parameters: seq![
            ToolParameterView {
                name: "expression"@,
                description: "Mathematical expression to evaluate (e.g., '2 + 2', 'sin(0.5)', '(1 + 2) * 3')"@,
                required: true,
                parameter_type: ParameterType::String,
            },
        ],
    }
}

/// The `calculator` tool.
#[derive(Debug, Clone)]
pub struct CalculatorTool {
    metadata: ToolMetadata,
}

impl CalculatorTool {
    /// The tool with its fixed metadata.
    pub fn new() -> (t: CalculatorTool)
        ensures
            t.meta()@ == calculator_metadata(),
    {
        let mut parameters: Vec<ToolParameter> = Vec::new();
        parameters.push(ToolParameter::new("expression", "Mathematical expression to evaluate (e.g., '2 + 2', 'sin(0.5)', '(1 + 2) * 3')", true, ParameterType::String));
        let metadata = ToolMetadata {
            name: owned("calculator"),
            description: owned("Evaluate a mathematical expression. Supports basic arithmetic, parentheses, and mathematical functions."),
            parameters,
        };
        assert(metadata@.parameters =~= calculator_metadata().parameters);
        CalculatorTool { metadata }
    }

    /// The tool's metadata.
    pub closed spec fn meta(&self) -> ToolMetadata {
        self.metadata
    }

    /// The tool's metadata.
    pub fn metadata(&self) -> (m: &ToolMetadata)
        ensures
            *m == self.meta(),
    {
        &self.metadata
    }
}

/// What `meval::eval_str` gives for an expression: the value written with
/// `to_string`, or the text of the error.
pub uninterp spec fn evaluation_outcome(expression: Seq<char>) -> Result<Seq<char>, Seq<char>>;

/// The characters meval's tokenizer skips between tokens.
pub open spec fn is_meval_space(c: char) -> bool {
    c == ' ' || c == '\t' || c == '\r' || c == '\n'
}

/// A non-empty expression made only of spaces, tabs, carriage returns and
/// line feeds, on which `meval::eval_str` panics (its tokenizer meets an
/// incomplete parse it does not handle).
pub open spec fn meval_blank(expression: Seq<char>) -> bool {
    expression.len() > 0 && forall|i: int| 0 <= i < expression.len() ==> is_meval_space(#[trigger] expression[i])
}

/// Whether an expression is blank in that sense.
pub fn is_meval_blank(expression: &str) -> (b: bool)
    ensures
        b == meval_blank(expression@),
{
    let cs = crate::text::chars_of(expression);
    if cs.len() == 0 {
        return false;
    }
    let mut i: usize = 0;
    while i < cs.len()
        invariant
            i <= cs@.len(),
            cs@ == expression@,
            forall|j: int| 0 <= j < i ==> is_meval_space(#[trigger] cs@[j]),
        decreases cs.len() - i,
    {
        let c = cs[i];
        if !(c == ' ' || c == '\t' || c == '\r' || c == '\n') {
            assert(!is_meval_space(cs@[i as int]));
            return false;
        }
        i = i + 1;
    }
    true
}

/// What meval reports for an expression with no token, as for the empty one.
pub open spec fn missing_argument_text() -> Seq<char> {
    "Parse error: Missing argument at the end of expression."@
}

/// Evaluates a mathematical expression with `meval::eval_str`. The contract
/// names the outcome as a function of the expression; what the parser accepts
/// and computes is left to meval. A blank expression is left out: meval
/// panics on it.
#[verifier::external_body]
fn evaluate_expression(expression: &str) -> (r: Result<String, String>)
    requires
        !meval_blank(expression@),
    ensures
        str_result_view(r) == evaluation_outcome(expression@),
{
    match meval::eval_str(expression) {
        Ok(value) => Ok(value.to_string()),
        Err(e) => Err(e.to_string()),
    }
}

/// The tool result for an evaluation outcome: the value on success, or
/// "Failed to evaluate expression: <error>".
pub fn evaluation_result(outcome: Result<String, String>) -> (r: ToolResult)
    ensures
        outcome matches Ok(v) ==> r@ == succeeded(v@),
        outcome matches Err(e) ==> r@ == failed("Failed to evaluate expression: "@ + e@),
{
    match outcome {
        Ok(v) => ToolResult::succeeded(v),
        Err(e) => ToolResult::failed(concat2("Failed to evaluate expression: ", e.as_str())),
    }
}

impl CalculatorTool {
    /// Evaluates `parameters["expression"]`; a missing or non-string expression
    /// is an invalid-parameters error. A blank expression (spaces, tabs and line
    /// breaks only) fails as the empty one does: meval is not called on it.
    pub fn execute(&self, parameters: &JsonValue) -> (r: Result<ToolResult, ToolError>)
        ensures
            json_field_str(parameters@, "expression"@) is None ==> (r matches Err(e)
                && e@ == ToolErrorView::InvalidParameters("Missing 'expression' parameter"@)),
            json_field_str(parameters@, "expression"@) matches Some(x) ==> (meval_blank(x) ==> (r matches Ok(t)
                && t@ == failed("Failed to evaluate expression: "@ + missing_argument_text()))),
            json_field_str(parameters@, "expression"@) matches Some(x) ==> (!meval_blank(x) ==> (r matches Ok(t) && (
                evaluation_outcome(x) matches Ok(v) ==> t@ == succeeded(v)) && (
                evaluation_outcome(x) matches Err(m) ==> t@ == failed("Failed to evaluate expression: "@ + m)))),
    {
        let expression = match required_str(parameters, "expression", "Missing 'expression' parameter") {
            Ok(x) => x,
            Err(e) => return Err(e),
        };
        if is_meval_blank(expression.as_str()) {
            proof {
                reveal_strlit("Failed to evaluate expression: ");
                reveal_strlit("Parse error: Missing argument at the end of expression.");
                reveal_strlit("Failed to evaluate expression: Parse error: Missing argument at the end of expression.");
                assert("Failed to evaluate expression: Parse error: Missing argument at the end of expression."@
                    =~= "Failed to evaluate expression: "@ + missing_argument_text());
            }
            return Ok(ToolResult::failed(owned("Failed to evaluate expression: Parse error: Missing argument at the end of expression.")));
        }
        let outcome = evaluate_expression(expression.as_str());
        Ok(evaluation_result(outcome))
    }
}

} // verus!
