//! The events and records that a model's streamed reply is made of, and the
//! reading of a tool call's argument text.
use vstd::prelude::*;
use crate::json::{Json, JsonValue, json_members, json_parse, parse_json};
use crate::strings::{chars_of, owned};
use crate::text::{trim, trim_chars};

verus! {

/// A piece of streamed assistant text.
pub struct TextDelta {
    pub content: String,
}

/// The kinds of event in a streamed model reply.
#[derive(Debug, Clone, Copy, PartialEq, Eq)]
pub enum StreamEventType {
    TextDelta,
    TextComplete,
    ToolCallDelta,
    ToolCallStart,
    ToolCallComplete,
    MessageComplete,
    Error,
    AgentError,
    AgentEnd,
}

/// Token counts reported for one model call.
#[derive(Debug, Clone, Copy, PartialEq, Eq, Default)]
pub struct TokenUsage {
    pub input_tokens: u32,
    pub output_tokens: u32,
    pub total_tokens: u32,
}

/// A piece of a streamed tool call.
pub struct ToolCallDelta {
    pub id: String,
    pub name: String,
    pub arguments_delta: String,
}

/// A complete tool call requested by the model.
pub struct ToolCall {
    pub id: String,
    pub name: String,
    pub arguments: JsonValue,
}

/// One event of a streamed model reply.
pub struct StreamEvent {
    pub event_type: StreamEventType,
    pub data: JsonValue,
}

/// The result of a tool call as it is handed back to the model.
pub struct ToolResultMessage {
    pub tool_call_id: String,
    pub content: String,
}

/// The members of a JSON object, in order.
pub type JsonMap = Vec<(String, JsonValue)>;

/// The argument map of a tool call: empty for blank text, the members of a
/// JSON object, a JSON value of another kind under `value`, and text that is no
/// JSON under `raw`.
pub open spec fn spec_tool_arguments(s: Seq<char>) -> Seq<(Seq<char>, Json)> {
    if trim(s).len() == 0 {
        seq![]
    } else {
        match json_parse(s) {
            Some(Json::Object(m)) => m,
            Some(other) => seq![("value"@, other)],
            None => seq![("raw"@, Json::Str(s))],
        }
    }
}

/// Reads the argument text of a tool call as a map from names to JSON values.
pub fn parse_tool_call_arguments(arguments_str: &str) -> (r: JsonMap)
    ensures
        json_members(r@) == spec_tool_arguments(arguments_str@),
{
    let chars = chars_of(arguments_str);
    let t = trim_chars(&chars);
    if t.len() == 0 {
        let empty: JsonMap = Vec::new();
        assert(json_members(empty@) == Seq::<(Seq<char>, Json)>::empty());
        return empty;
    }
    proof {
        reveal_strlit("value");
        reveal_strlit("raw");
    }
    let parsed = parse_json(arguments_str);
    let ghost pj = json_parse(arguments_str@);
    match parsed {
        Some(JsonValue::Object(m)) => {
            assert(pj == Some(Json::Object(json_members(m@))));
            assert(trim(arguments_str@).len() != 0);
            assert(spec_tool_arguments(arguments_str@) == json_members(m@));
            return m;
        },
        Some(other) => {
            assert(pj == Some(other@));
            assert(!(other@ is Object));
            let mut out: JsonMap = Vec::new();
            let ghost om = other@;
            out.push((owned("value"), other));
            assert(out@.drop_last() == Seq::<(String, JsonValue)>::empty());
            assert(json_members(Seq::<(String, JsonValue)>::empty()) == Seq::<(Seq<char>, Json)>::empty());
            assert(json_members(out@) == seq![("value"@, om)]);
            out
        },
        None => {
            let mut out: JsonMap = Vec::new();
            out.push((owned("raw"), JsonValue::Str(owned(arguments_str))));
            assert(out@.drop_last() == Seq::<(String, JsonValue)>::empty());
            assert(json_members(Seq::<(String, JsonValue)>::empty()) == Seq::<(Seq<char>, Json)>::empty());
            assert(pj.is_none());
            assert(out@.last().1@ == Json::Str(arguments_str@));
            assert(json_members(out@) == seq![("raw"@, Json::Str(arguments_str@))]);
            out
        },
    }
}

} // verus!
