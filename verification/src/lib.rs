use vstd::prelude::*;

pub mod agent;
pub mod cli;
pub mod client_llm;
pub mod approval;
pub mod builtin;
pub mod client_response;
pub mod compaction;
pub mod config;
pub mod config_loader;
pub mod context;
pub mod discovery;
pub mod edit;
pub mod errors;
pub mod file_tools;
pub mod hooks;
pub mod json;
pub mod loop_detector;
pub mod strings;
pub mod table;
pub mod text;
pub mod tui;
pub mod todo_tool;
pub mod tool_base;
pub mod sorting;
pub mod sse;
pub mod subagents;
pub mod mcp;
pub mod mcp_tool;
pub mod memory_tool;
pub mod paths;
pub mod persistence;
pub mod process_tools;
pub mod prompts;
pub mod registry;
pub mod search;
pub mod search_tools;
pub mod session;

verus! {

} // verus!
