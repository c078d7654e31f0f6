//! The name, description, parameters and parameter defaults of the file-editing tool.
use vstd::prelude::*;
use crate::json::JsonValue;
use crate::strings::{owned, string_views};
use crate::tool_base::{ToolKind, object_schema, object_schema_json};

verus! {

/// The parameters of a call of the file-editing tool.
pub struct EditParams {
    pub path: String,
    pub old_string: String,
    pub new_string: String,
    pub replace_all: bool,
}

/// The name under which the model calls the tool.
pub fn name() -> (r: &'static str)
    ensures
        r@ == "edit"@,
{
    "edit"
}

/// What the model is told the tool does.
pub fn description() -> (r: &'static str)
    ensures
        r@ == "Edit a file by replacing text."@,
{
    "Edit a file by replacing text."
}

/// What the tool touches.
pub fn kind() -> (r: ToolKind)
    ensures
        r == ToolKind::Write,
{
    ToolKind::Write
}

/// The parameters the tool takes, as a JSON schema.
pub fn schema() -> (r: JsonValue)
    ensures
        r@ == object_schema_json(seq![("new_string"@, "string"@), ("old_string"@, "string"@), ("path"@, "string"@), ("replace_all"@, "boolean"@)], Some(seq!["path"@, "new_string"@])),
{
    let mut props: Vec<(String, String)> = Vec::new();
    props.push((owned("new_string"), owned("string")));
    props.push((owned("old_string"), owned("string")));
    props.push((owned("path"), owned("string")));
    props.push((owned("replace_all"), owned("boolean")));
    assert(props@.map_values(|p: (String, String)| (p.0@, p.1@)) =~= seq![("new_string"@, "string"@), ("old_string"@, "string"@), ("path"@, "string"@), ("replace_all"@, "boolean"@)]);
    let mut required: Vec<String> = Vec::new();
    required.push(owned("path"));
    required.push(owned("new_string"));
    assert(string_views(required@) =~= seq!["path"@, "new_string"@]);
    object_schema(&props, Some(&required))
}

} // verus!
