//! The name, description, parameters and parameter defaults of the directory-listing tool.
use vstd::prelude::*;
use crate::json::JsonValue;
use crate::strings::{owned, string_views};
use crate::tool_base::{ToolKind, object_schema, object_schema_json};

verus! {

/// The parameters of a call of the directory-listing tool.
pub struct ListDirParams {
    pub path: String,
    pub include_hidden: bool,
}

/// The directory listed when none is given: the working directory.
pub fn default_path() -> (r: String)
    ensures
        r@ == "."@,
{
    owned(".")
}

/// The name under which the model calls the tool.
pub fn name() -> (r: &'static str)
    ensures
        r@ == "list_dir"@,
{
    "list_dir"
}

/// What the model is told the tool does.
pub fn description() -> (r: &'static str)
    ensures
        r@ == "List contents of a directory."@,
{
    "List contents of a directory."
}

/// What the tool touches.
pub fn kind() -> (r: ToolKind)
    ensures
        r == ToolKind::Read,
{
    ToolKind::Read
}

/// The parameters the tool takes, as a JSON schema.
pub fn schema() -> (r: JsonValue)
    ensures
        r@ == object_schema_json(seq![("include_hidden"@, "boolean"@), ("path"@, "string"@)], None),
{
    let mut props: Vec<(String, String)> = Vec::new();
    props.push((owned("include_hidden"), owned("boolean")));
    props.push((owned("path"), owned("string")));
    assert(props@.map_values(|p: (String, String)| (p.0@, p.1@)) =~= seq![("include_hidden"@, "boolean"@), ("path"@, "string"@)]);
    object_schema(&props, None)
}

} // verus!
