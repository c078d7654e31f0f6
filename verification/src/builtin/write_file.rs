//! The name, description, parameters and parameter defaults of the file-writing tool.
use vstd::prelude::*;
use crate::json::JsonValue;
use crate::strings::{owned, string_views};
use crate::tool_base::{ToolKind, object_schema, object_schema_json};

verus! {

/// The parameters of a call of the file-writing tool.
pub struct WriteFileParams {
    pub path: String,
    pub content: String,
    pub create_directories: bool,
}

/// Missing parent directories are created unless the call says otherwise.
pub fn default_true() -> (r: bool)
    ensures
        r == true,
{
    true
}

/// The name under which the model calls the tool.
pub fn name() -> (r: &'static str)
    ensures
        r@ == "write_file"@,
{
    "write_file"
}

/// What the model is told the tool does.
pub fn description() -> (r: &'static str)
    ensures
        r@ == "Write content to a file."@,
{
    "Write content to a file."
}

/// What the tool touches.
pub fn kind() -> (r: ToolKind)
    ensures
        r == ToolKind::Write,
{
    ToolKind::Write
}

/// The parameters the tool takes, as a JSON schema.
pub fn schema() -> (r: JsonValue)
    ensures
        r@ == object_schema_json(seq![("content"@, "string"@), ("create_directories"@, "boolean"@), ("path"@, "string"@)], Some(seq!["path"@, "content"@])),
{
    let mut props: Vec<(String, String)> = Vec::new();
    props.push((owned("content"), owned("string")));
    props.push((owned("create_directories"), owned("boolean")));
    props.push((owned("path"), owned("string")));
    assert(props@.map_values(|p: (String, String)| (p.0@, p.1@)) =~= seq![("content"@, "string"@), ("create_directories"@, "boolean"@), ("path"@, "string"@)]);
    let mut required: Vec<String> = Vec::new();
    required.push(owned("path"));
    required.push(owned("content"));
    assert(string_views(required@) =~= seq!["path"@, "content"@]);
    object_schema(&props, Some(&required))
}

} // verus!
