//! The name, description, parameters and parameter defaults of the to-do tool.
use vstd::prelude::*;
use crate::json::JsonValue;
use crate::strings::{owned, string_views};
use crate::tool_base::{ToolKind, object_schema, object_schema_json};

verus! {

/// The parameters of a call of the to-do tool.
pub struct TodosParams {
    pub action: String,
    pub id: Option<String>,
    pub content: Option<String>,
}

/// The name under which the model calls the tool.
pub fn name() -> (r: &'static str)
    ensures
        r@ == "todos"@,
{
    "todos"
}

/// What the model is told the tool does.
pub fn description() -> (r: &'static str)
    ensures
        r@ == "Manage a task list for the current session."@,
{
    "Manage a task list for the current session."
}

/// What the tool touches.
pub fn kind() -> (r: ToolKind)
    ensures
        r == ToolKind::Memory,
{
    ToolKind::Memory
}

/// The parameters the tool takes, as a JSON schema.
pub fn schema() -> (r: JsonValue)
    ensures
        r@ == object_schema_json(seq![("action"@, "string"@), ("content"@, "string"@), ("id"@, "string"@)], Some(seq!["action"@])),
{
    let mut props: Vec<(String, String)> = Vec::new();
    props.push((owned("action"), owned("string")));
    props.push((owned("content"), owned("string")));
    props.push((owned("id"), owned("string")));
    assert(props@.map_values(|p: (String, String)| (p.0@, p.1@)) =~= seq![("action"@, "string"@), ("content"@, "string"@), ("id"@, "string"@)]);
    let mut required: Vec<String> = Vec::new();
    required.push(owned("action"));
    assert(string_views(required@) =~= seq!["action"@]);
    object_schema(&props, Some(&required))
}

} // verus!
