//! The name, description, parameters and parameter defaults of the file-reading tool.
use vstd::prelude::*;
use crate::json::JsonValue;
use crate::strings::{owned, string_views};
use crate::tool_base::{ToolKind, object_schema, object_schema_json};

verus! {

/// The parameters of a call of the file-reading tool.
pub struct ReadFileParams {
    pub path: String,
    pub offset: usize,
    pub limit: Option<usize>,
}

/// The first line shown when none is given: the first.
pub fn default_offset() -> (r: usize)
    ensures
        r == 1,
{
    1
}

/// The name under which the model calls the tool.
pub fn name() -> (r: &'static str)
    ensures
        r@ == "read_file"@,
{
    "read_file"
}

/// What the model is told the tool does.
pub fn description() -> (r: &'static str)
    ensures
        r@ == "Read the contents of a text file with line numbers."@,
{
    "Read the contents of a text file with line numbers."
}

/// What the tool touches.
pub fn kind() -> (r: ToolKind)
    ensures
        r == ToolKind::Read,
{
    ToolKind::Read
}

/// The parameters the tool takes, as a JSON schema.
pub fn schema() -> (r: JsonValue)
    ensures
        r@ == object_schema_json(seq![("limit"@, "integer"@), ("offset"@, "integer"@), ("path"@, "string"@)], Some(seq!["path"@])),
{
    let mut props: Vec<(String, String)> = Vec::new();
    props.push((owned("limit"), owned("integer")));
    props.push((owned("offset"), owned("integer")));
    props.push((owned("path"), owned("string")));
    assert(props@.map_values(|p: (String, String)| (p.0@, p.1@)) =~= seq![("limit"@, "integer"@), ("offset"@, "integer"@), ("path"@, "string"@)]);
    let mut required: Vec<String> = Vec::new();
    required.push(owned("path"));
    assert(string_views(required@) =~= seq!["path"@]);
    object_schema(&props, Some(&required))
}

} // verus!
