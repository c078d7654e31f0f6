//! The name, description, parameters and parameter defaults of the shell tool.
use vstd::prelude::*;
use crate::json::JsonValue;
use crate::strings::{owned, string_views};
use crate::tool_base::{ToolKind, object_schema, object_schema_json};

verus! {

/// The parameters of a call of the shell tool.
pub struct ShellParams {
    pub command: String,
    pub timeout: u64,
    pub cwd: Option<String>,
}

/// How long a command may run when no limit is given, in seconds.
pub fn default_timeout() -> (r: u64)
    ensures
        r == 120,
{
    120
}

/// The name under which the model calls the tool.
pub fn name() -> (r: &'static str)
    ensures
        r@ == "shell"@,
{
    "shell"
}

/// What the model is told the tool does.
pub fn description() -> (r: &'static str)
    ensures
        r@ == "Execute a shell command."@,
{
    "Execute a shell command."
}

/// What the tool touches.
pub fn kind() -> (r: ToolKind)
    ensures
        r == ToolKind::Shell,
{
    ToolKind::Shell
}

/// The parameters the tool takes, as a JSON schema.
pub fn schema() -> (r: JsonValue)
    ensures
        r@ == object_schema_json(seq![("command"@, "string"@), ("cwd"@, "string"@), ("timeout"@, "integer"@)], Some(seq!["command"@])),
{
    let mut props: Vec<(String, String)> = Vec::new();
    props.push((owned("command"), owned("string")));
    props.push((owned("cwd"), owned("string")));
    props.push((owned("timeout"), owned("integer")));
    assert(props@.map_values(|p: (String, String)| (p.0@, p.1@)) =~= seq![("command"@, "string"@), ("cwd"@, "string"@), ("timeout"@, "integer"@)]);
    let mut required: Vec<String> = Vec::new();
    required.push(owned("command"));
    assert(string_views(required@) =~= seq!["command"@]);
    object_schema(&props, Some(&required))
}

} // verus!
