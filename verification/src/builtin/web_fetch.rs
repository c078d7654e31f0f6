//! The name, description, parameters and parameter defaults of the page-fetching tool.
use vstd::prelude::*;
use crate::json::JsonValue;
use crate::strings::{owned, string_views};
use crate::tool_base::{ToolKind, object_schema, object_schema_json};

verus! {

/// The parameters of a call of the page-fetching tool.
pub struct WebFetchParams {
    pub url: String,
    pub timeout: u64,
}

/// How long a fetch may take when no limit is given, in seconds.
pub fn default_timeout() -> (r: u64)
    ensures
        r == 30,
{
    30
}

/// The name under which the model calls the tool.
pub fn name() -> (r: &'static str)
    ensures
        r@ == "web_fetch"@,
{
    "web_fetch"
}

/// What the model is told the tool does.
pub fn description() -> (r: &'static str)
    ensures
        r@ == "Fetch content from a URL."@,
{
    "Fetch content from a URL."
}

/// What the tool touches.
pub fn kind() -> (r: ToolKind)
    ensures
        r == ToolKind::Network,
{
    ToolKind::Network
}

/// The parameters the tool takes, as a JSON schema.
pub fn schema() -> (r: JsonValue)
    ensures
        r@ == object_schema_json(seq![("timeout"@, "integer"@), ("url"@, "string"@)], Some(seq!["url"@])),
{
    let mut props: Vec<(String, String)> = Vec::new();
    props.push((owned("timeout"), owned("integer")));
    props.push((owned("url"), owned("string")));
    assert(props@.map_values(|p: (String, String)| (p.0@, p.1@)) =~= seq![("timeout"@, "integer"@), ("url"@, "string"@)]);
    let mut required: Vec<String> = Vec::new();
    required.push(owned("url"));
    assert(string_views(required@) =~= seq!["url"@]);
    object_schema(&props, Some(&required))
}

} // verus!
