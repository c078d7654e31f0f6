//! The tools that come with the agent.
use vstd::prelude::*;
use crate::strings::{owned, string_views};

pub mod edit_file;
pub mod glob;
pub mod grep;
pub mod list_dir;
pub mod memory;
pub mod read_file;
pub mod shell;
pub mod todo;
pub mod web_fetch;
pub mod web_search;
pub mod write_file;

verus! {

/// The names of the tools that come with the agent, in the order in which
/// they are registered.
pub fn builtin_tool_names() -> (r: Vec<String>)
    ensures
        string_views(r@) == seq!["read_file"@, "write_file"@, "edit"@, "shell"@, "list_dir"@, "grep"@, "glob"@, "web_search"@, "web_fetch"@, "todos"@, "memory"@],
{
    let mut v: Vec<String> = Vec::new();
    v.push(owned("read_file"));
    v.push(owned("write_file"));
    v.push(owned("edit"));
    v.push(owned("shell"));
    v.push(owned("list_dir"));
    v.push(owned("grep"));
    v.push(owned("glob"));
    v.push(owned("web_search"));
    v.push(owned("web_fetch"));
    v.push(owned("todos"));
    v.push(owned("memory"));
    assert(string_views(v@) =~= seq!["read_file"@, "write_file"@, "edit"@, "shell"@, "list_dir"@, "grep"@, "glob"@, "web_search"@, "web_fetch"@, "todos"@, "memory"@]);
    v
}

} // verus!
