//! The name, description, parameters and parameter defaults of the web-search tool.
use vstd::prelude::*;
use crate::json::JsonValue;
use crate::strings::{owned, string_views};
use crate::tool_base::{ToolKind, object_schema, object_schema_json};

verus! {

/// The parameters of a call of the web-search tool.
pub struct WebSearchParams {
    pub query: String,
    pub max_results: usize,
}

/// How many results are asked for when no number is given.
pub fn default_max_results() -> (r: usize)
    ensures
        r == 10,
{
    10
}

/// The name under which the model calls the tool.
pub fn name() -> (r: &'static str)
    ensures
        r@ == "web_search"@,
{
    "web_search"
}

/// What the model is told the tool does.
pub fn description() -> (r: &'static str)
    ensures
        r@ == "Search the web for information."@,
{
    "Search the web for information."
}

/// What the tool touches.
pub fn kind() -> (r: ToolKind)
    ensures
        r == ToolKind::Network,
{
    ToolKind::Network
}

/// The parameters the tool takes, as a JSON schema.
pub fn schema() -> (r: JsonValue)
    ensures
        r@ == object_schema_json(seq![("max_results"@, "integer"@), ("query"@, "string"@)], Some(seq!["query"@])),
{
    let mut props: Vec<(String, String)> = Vec::new();
    props.push((owned("max_results"), owned("integer")));
    props.push((owned("query"), owned("string")));
    assert(props@.map_values(|p: (String, String)| (p.0@, p.1@)) =~= seq![("max_results"@, "integer"@), ("query"@, "string"@)]);
    let mut required: Vec<String> = Vec::new();
    required.push(owned("query"));
    assert(string_views(required@) =~= seq!["query"@]);
    object_schema(&props, Some(&required))
}

} // verus!
