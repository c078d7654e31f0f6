//! The name, description, parameters and parameter defaults of the content-search tool.
use vstd::prelude::*;
use crate::json::JsonValue;
use crate::strings::{owned, string_views};
use crate::tool_base::{ToolKind, object_schema, object_schema_json};

verus! {

/// The parameters of a call of the content-search tool.
pub struct GrepParams {
    pub pattern: String,
    pub path: String,
    pub case_insensitive: bool,
}

/// The directory searched when none is given: the working directory.
pub fn default_path() -> (r: String)
    ensures
        r@ == "."@,
{
    owned(".")
}

/// The name under which the model calls the tool.
pub fn name() -> (r: &'static str)
    ensures
        r@ == "grep"@,
{
    "grep"
}

/// What the model is told the tool does.
pub fn description() -> (r: &'static str)
    ensures
        r@ == "Search for a regex pattern in file contents."@,
{
    "Search for a regex pattern in file contents."
}

/// What the tool touches.
pub fn kind() -> (r: ToolKind)
    ensures
        r == ToolKind::Read,
{
    ToolKind::Read
}

/// The parameters the tool takes, as a JSON schema.
pub fn schema() -> (r: JsonValue)
    ensures
        r@ == object_schema_json(seq![("case_insensitive"@, "boolean"@), ("path"@, "string"@), ("pattern"@, "string"@)], Some(seq!["pattern"@])),
{
    let mut props: Vec<(String, String)> = Vec::new();
    props.push((owned("case_insensitive"), owned("boolean")));
    props.push((owned("path"), owned("string")));
    props.push((owned("pattern"), owned("string")));
    assert(props@.map_values(|p: (String, String)| (p.0@, p.1@)) =~= seq![("case_insensitive"@, "boolean"@), ("path"@, "string"@), ("pattern"@, "string"@)]);
    let mut required: Vec<String> = Vec::new();
    required.push(owned("pattern"));
    assert(string_views(required@) =~= seq!["pattern"@]);
    object_schema(&props, Some(&required))
}

} // verus!
