//! The name, description, parameters and parameter defaults of the file-finding tool.
use vstd::prelude::*;
use crate::json::JsonValue;
use crate::strings::{owned, string_views};
use crate::tool_base::{ToolKind, object_schema, object_schema_json};

verus! {

/// The parameters of a call of the file-finding tool.
pub struct GlobParams {
    pub pattern: String,
    pub path: String,
}

/// The directory searched when none is given: the working directory.
pub fn default_path() -> (r: String)
    ensures
        r@ == "."@,
{
    owned(".")
}

/// The name under which the model calls the tool.
pub fn name() -> (r: &'static str)
    ensures
        r@ == "glob"@,
{
    "glob"
}

/// What the model is told the tool does.
pub fn description() -> (r: &'static str)
    ensures
        r@ == "Find files matching a glob pattern."@,
{
    "Find files matching a glob pattern."
}

/// What the tool touches.
pub fn kind() -> (r: ToolKind)
    ensures
        r == ToolKind::Read,
{
    ToolKind::Read
}

/// The parameters the tool takes, as a JSON schema.
pub fn schema() -> (r: JsonValue)
    ensures
        r@ == object_schema_json(seq![("path"@, "string"@), ("pattern"@, "string"@)], Some(seq!["pattern"@])),
{
    let mut props: Vec<(String, String)> = Vec::new();
    props.push((owned("path"), owned("string")));
    props.push((owned("pattern"), owned("string")));
    assert(props@.map_values(|p: (String, String)| (p.0@, p.1@)) =~= seq![("path"@, "string"@), ("pattern"@, "string"@)]);
    let mut required: Vec<String> = Vec::new();
    required.push(owned("pattern"));
    assert(string_views(required@) =~= seq!["pattern"@]);
    object_schema(&props, Some(&required))
}

} // verus!
