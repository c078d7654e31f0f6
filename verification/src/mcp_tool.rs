//! A tool offered by an MCP server, as the agent sees it.
use vstd::prelude::*;
use crate::json::JsonValue;
use crate::strings::{chars_of, push_str_chars, string_of};
use crate::tool_base::{ToolKind, ToolResult, is_success_with};

verus! {

/// A tool of an MCP server, under the name the agent knows it by.
pub struct MCPTool {
    pub tool_name: String,
    pub tool_description: String,
    pub tool_schema: JsonValue,
}

impl MCPTool {
    pub fn new(tool_name: String, tool_description: String, tool_schema: JsonValue) -> (r: Self)
        ensures
            r.tool_name == tool_name,
            r.tool_description == tool_description,
            r.tool_schema == tool_schema,
    {
        MCPTool { tool_name, tool_description, tool_schema }
    }

    pub fn name(&self) -> (r: &str)
        ensures
            r@ == self.tool_name@,
    {
        self.tool_name.as_str()
    }

    pub fn description(&self) -> (r: &str)
        ensures
            r@ == self.tool_description@,
    {
        self.tool_description.as_str()
    }

    pub fn kind(&self) -> (r: ToolKind)
        ensures
            r == ToolKind::Mcp,
    {
        ToolKind::Mcp
    }

    /// The parameters the tool takes, as the server describes them.
    pub fn schema(&self) -> (r: JsonValue)
        ensures
            r@ == self.tool_schema@,
    {
        self.tool_schema.deep_clone()
    }

    /// Runs the tool. No call reaches the server yet: the result says so.
    pub fn execute(&self, params: &JsonValue) -> (r: ToolResult)
        ensures
            is_success_with(r, "MCP tool '"@ + self.tool_name@ + "' placeholder execution"@),
    {
        let mut v = chars_of("MCP tool '");
        push_str_chars(&mut v, self.tool_name.as_str());
        push_str_chars(&mut v, "' placeholder execution");
        ToolResult::success_result(string_of(&v))
    }
}

} // verus!
