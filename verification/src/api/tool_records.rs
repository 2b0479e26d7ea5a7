//! What a run answers when the model asked for tools: one record per tool
//! call, in the order of the calls, and the reply text, which lists the
//! records as compact JSON (members in key order, strings escaped as JSON
//! writers do). Running the tools is the caller's; the outcomes come in here.

use vstd::prelude::*;

use crate::api::handlers::{run_outcome_view, tool_call_record, tool_call_record_json};
use crate::json::{JsonValue, JsonView};
use crate::llm::types::{ChatMessage, ToolCall};
use crate::text::{chars_of, owned, push_char};
use crate::tools::types::{ToolError, ToolResult};

verus! {

broadcast use vstd::string::group_string_axioms;

/// The lowercase hexadecimal digit for `n` (0 to 15).
pub open spec fn hex_digit(n: u32) -> char {
    match n {
        0 => '0',
        1 => '1',
        2 => '2',
        3 => '3',
        4 => '4',
        5 => '5',
        6 => '6',
        7 => '7',
        8 => '8',
        9 => '9',
        10 => 'a',
        11 => 'b',
        12 => 'c',
        13 => 'd',
        14 => 'e',
        _ => 'f',
    }
}

/// How one character is written inside a JSON string: the quote, the
/// backslash and the control characters are escaped (short forms for
/// backspace, tab, line feed, form feed and carriage return, `\u00XX` for the
/// others); every other character stands for itself.
pub open spec fn escape_char(c: char) -> Seq<char> {
    if c == '"' {
        seq!['\\', '"']
    } else if c == '\\' {
        seq!['\\', '\\']
    } else if c == '\u{8}' {
        seq!['\\', 'b']
    } else if c == '\t' {
        seq!['\\', 't']
    } else if c == '\n' {
        seq!['\\', 'n']
    } else if c == '\u{c}' {
        seq!['\\', 'f']
    } else if c == '\r' {
        seq!['\\', 'r']
    } else if (c as u32) < 32 {
        seq!['\\', 'u', '0', '0', hex_digit((c as u32) / 16), hex_digit((c as u32) % 16)]
    } else {
        seq![c]
    }
}

/// The characters of `s` as written inside a JSON string.
pub open spec fn escaped(s: Seq<char>) -> Seq<char>
    decreases s.len(),
{
    if s.len() == 0 {
        Seq::empty()
    } else {
        escaped(s.drop_last()) + escape_char(s.last())
    }
}

/// `s` as a JSON string.
pub open spec fn quoted(s: Seq<char>) -> Seq<char> {
    seq!['"'] + escaped(s) + seq!['"']
}

/// The hexadecimal digit for `n`.
fn hex_digit_char(n: u32) -> (c: char)
    requires
        n < 16,
    ensures
        c == hex_digit(n),
{
    match n {
        0 => '0',
        1 => '1',
        2 => '2',
        3 => '3',
        4 => '4',
        5 => '5',
        6 => '6',
        7 => '7',
        8 => '8',
        9 => '9',
        10 => 'a',
        11 => 'b',
        12 => 'c',
        13 => 'd',
        14 => 'e',
        _ => 'f',
    }
}

/// Appends `s` as written inside a JSON string.
pub fn push_escaped(out: &mut String, s: &str)
    ensures
        final(out)@ == old(out)@ + escaped(s@),
{
    let cs = chars_of(s);
    let mut i: usize = 0;
    while i < cs.len()
        invariant
            i <= cs@.len(),
            cs@ == s@,
            out@ == old(out)@ + escaped(cs@.subrange(0, i as int)),
        decreases cs.len() - i,
    {
        let c = cs[i];
        let ghost before = out@;
        if c == '"' {
            push_char(out, '\\');
            push_char(out, '"');
        } else if c == '\\' {
            push_char(out, '\\');
            push_char(out, '\\');
        } else if c == '\u{8}' {
            push_char(out, '\\');
            push_char(out, 'b');
        } else if c == '\t' {
            push_char(out, '\\');
            push_char(out, 't');
        } else if c == '\n' {
            push_char(out, '\\');
            push_char(out, 'n');
        } else if c == '\u{c}' {
            push_char(out, '\\');
            push_char(out, 'f');
        } else if c == '\r' {
            push_char(out, '\\');
            push_char(out, 'r');
        } else if (c as u32) < 32 {
            let v = c as u32;
            push_char(out, '\\');
            push_char(out, 'u');
            push_char(out, '0');
            push_char(out, '0');
            push_char(out, hex_digit_char(v / 16));
            push_char(out, hex_digit_char(v % 16));
        } else {
            push_char(out, c);
        }
        proof {
            let t = cs@.subrange(0, i + 1);
            assert(t.drop_last() =~= cs@.subrange(0, i as int));
            assert(t.last() == c);
            assert(out@ =~= before + escape_char(c));
        }
        i = i + 1;
    }
    assert(cs@.subrange(0, cs@.len() as int) =~= cs@);
}

/// Appends `s` as a JSON string.
pub fn push_quoted(out: &mut String, s: &str)
    ensures
        final(out)@ == old(out)@ + quoted(s@),
{
    let ghost start = out@;
    push_char(out, '"');
    push_escaped(out, s);
    push_char(out, '"');
    assert(out@ =~= start + quoted(s@));
}

/// The compact JSON text of a tool call's record, members in key order
/// ("error" or "result", then "tool_call_id", then "tool_name").
pub open spec fn record_text(id: Seq<char>, tool: Seq<char>, outcome: Result<Seq<char>, Seq<char>>) -> Seq<char> {
    let tail = ","@ + quoted("tool_call_id"@) + ":"@ + quoted(id) + ","@ + quoted("tool_name"@) + ":"@ + quoted(tool) + "}"@;
    match outcome {
        Ok(out) => "{"@ + quoted("result"@) + ":"@ + quoted(out) + tail,
        Err(e) => "{"@ + quoted("error"@) + ":"@ + quoted(e) + tail,
    }
}

/// Appends the record text of a tool call (see [`record_text`]).
fn push_record_text(out: &mut String, id: &str, tool: &str, outcome: &Result<ToolResult, ToolError>)
    ensures
        final(out)@ == old(out)@ + record_text(id@, tool@, run_outcome_view(*outcome)),
{
    let ghost start = out@;
    out.append("{");
    match outcome {
        Ok(r) => {
            push_quoted(out, "result");
            out.append(":");
            push_quoted(out, r.output.as_str());
        },
        Err(e) => {
            let m = e.message();
            push_quoted(out, "error");
            out.append(":");
            push_quoted(out, m.as_str());
        },
    }
    out.append(",");
    push_quoted(out, "tool_call_id");
    out.append(":");
    push_quoted(out, id);
    out.append(",");
    push_quoted(out, "tool_name");
    out.append(":");
    push_quoted(out, tool);
    out.append("}");
    assert(out@ =~= start + record_text(id@, tool@, run_outcome_view(*outcome)));
}

/// The record texts of tool calls, separated by ','.
pub open spec fn joined_records(rs: Seq<(Seq<char>, Seq<char>, Result<Seq<char>, Seq<char>>)>) -> Seq<char>
    decreases rs.len(),
{
    if rs.len() == 0 {
        Seq::empty()
    } else if rs.len() == 1 {
        record_text(rs[0].0, rs[0].1, rs[0].2)
    } else {
        joined_records(rs.drop_last()) + ","@ + record_text(rs.last().0, rs.last().1, rs.last().2)
    }
}

/// The compact JSON array of the records of tool calls.
pub open spec fn records_text(rs: Seq<(Seq<char>, Seq<char>, Result<Seq<char>, Seq<char>>)>) -> Seq<char> {
    "["@ + joined_records(rs) + "]"@
}

/// The tool calls a model's reply asks for (none without a reply or calls).
pub open spec fn called(first: Option<&ChatMessage>) -> Seq<ToolCall> {
    match first {
        Some(m) => match m.tool_calls {
            Some(tc) => tc@,
            None => Seq::empty(),
        },
        None => Seq::empty(),
    }
}

/// Each call with the outcome of running it: id, tool and output or error.
pub open spec fn call_outcomes(calls: Seq<ToolCall>, outcomes: Seq<Result<ToolResult, ToolError>>) -> Seq<(Seq<char>, Seq<char>, Result<Seq<char>, Seq<char>>)> {
    Seq::new(calls.len(), |i: int| (calls[i].id@, calls[i].function.name@, run_outcome_view(outcomes[i])))
}

/// The answer of a run once the tools the model asked for have run, one
/// outcome per call, in order: the records, one per call in the calls' order;
/// and the reply text: "No response from LLM" without a reply, "Tool calls
/// executed: " and the records as compact JSON when the reply asked for
/// tools, and the reply's content otherwise.
pub fn run_reply(first: Option<&ChatMessage>, outcomes: Vec<Result<ToolResult, ToolError>>) -> (r: (String, Vec<JsonValue>))
    requires
        outcomes@.len() == called(first).len(),
    ensures
        r.1@.len() == called(first).len(),
        forall|i: int| 0 <= i < called(first).len() ==> (#[trigger] r.1@[i])@ == tool_call_record_json(
            called(first)[i].id@, called(first)[i].function.name@, run_outcome_view(outcomes@[i])),
        first is None ==> r.0@ == "No response from LLM"@,
        first matches Some(m) ==> (m.tool_calls is Some ==> r.0@ == "Tool calls executed: "@
            + records_text(call_outcomes(called(first), outcomes@))),
        first matches Some(m) ==> (m.tool_calls is None ==> r.0@ == m.content@),
{
    let mut records: Vec<JsonValue> = Vec::new();
    match first {
        None => (owned("No response from LLM"), records),
        Some(m) => match &m.tool_calls {
            None => (m.content.clone(), records),
            Some(calls) => {
                let ghost all = outcomes@;
                let ghost rs = call_outcomes(calls@, all);
                let mut rest = outcomes;
                let mut body = String::new();
                let mut i: usize = 0;
                while i < calls.len()
                    invariant
                        i <= calls@.len(),
                        all.len() == calls@.len(),
                        rs == call_outcomes(calls@, all),
                        rest@ == all.subrange(i as int, all.len() as int),
                        records@.len() == i,
                        forall|j: int| 0 <= j < i ==> (#[trigger] records@[j])@ == tool_call_record_json(
                            calls@[j].id@, calls@[j].function.name@, run_outcome_view(all[j])),
                        body@ == joined_records(rs.subrange(0, i as int)),
                    decreases calls.len() - i,
                {
                    let o = rest.remove(0);
                    assert(o == all[i as int]);
                    let c = &calls[i];
                    let ghost before = body@;
                    if i > 0 {
                        body.append(",");
                    }
                    push_record_text(&mut body, c.id.as_str(), c.function.name.as_str(), &o);
                    records.push(tool_call_record(c.id.as_str(), c.function.name.as_str(), o));
                    proof {
                        let s = rs.subrange(0, i + 1);
                        assert(s.drop_last() =~= rs.subrange(0, i as int));
                        assert(s.last() == rs[i as int]);
                        assert(rest@ =~= all.subrange(i + 1, all.len() as int));
                    }
                    i = i + 1;
                }
                assert(rs.subrange(0, calls@.len() as int) =~= rs);
                let mut text = owned("Tool calls executed: ");
                text.append("[");
                text.append(body.as_str());
                text.append("]");
                (text, records)
            },
        },
    }
}

} // verus!
