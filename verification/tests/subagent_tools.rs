use rust_coding_agent::agent::{AgentEvent, AgentEventType};
use rust_coding_agent::config::Config;
use rust_coding_agent::json::JsonValue;
use rust_coding_agent::subagents::{get_default_subagent_definitions, get_subagent_tools, SubagentRun, SubagentTool};
use rust_coding_agent::tool_base::ToolKind;

fn ev(t: AgentEventType, k: &str, v: &str) -> AgentEvent {
    AgentEvent { event_type: t, data: JsonValue::Object(vec![(k.to_string(), JsonValue::Str(v.to_string()))]) }
}

fn reviewer() -> SubagentTool {
    let mut defs = get_default_subagent_definitions();
    SubagentTool::new(defs.remove(1))
}

#[test]
fn default_definitions() {
    let defs = get_default_subagent_definitions();
    assert_eq!(defs.len(), 2);
    assert_eq!(defs[0].name, "codebase_investigator");
    assert_eq!(defs[0].max_turns, 20);
    assert_eq!(defs[0].timeout_seconds, 600);
    assert_eq!(
        defs[0].allowed_tools,
        Some(vec!["read_file".to_string(), "grep".to_string(), "glob".to_string(), "list_dir".to_string()])
    );
    assert_eq!(defs[1].name, "code_reviewer");
    assert_eq!(defs[1].max_turns, 10);
    assert_eq!(defs[1].timeout_seconds, 300);
    assert_eq!(defs[1].goal_prompt, "Use read_file, list_dir and grep to examine code. Do not modify files.");
}

#[test]
fn tools_are_named_after_definitions() {
    let tools = get_subagent_tools();
    assert_eq!(tools[0].name, "subagent_codebase_investigator");
    assert_eq!(tools[1].name, "subagent_code_reviewer");
    assert_eq!(
        tools[1].description,
        "subagent_Reviews code changes and provides feedback on quality, bugs, and improvements"
    );
    assert_eq!(tools[0].kind(), ToolKind::Write);
    assert!(tools[0].is_mutating(&JsonValue::Null));
}

#[test]
fn blank_goal_is_refused() {
    let tool = reviewer();
    let r = tool.prepare("   ").unwrap_err();
    assert!(!r.success);
    assert_eq!(r.error, Some("No goal specified for sub-agent".to_string()));
}

#[test]
fn task_text_for_a_goal() {
    let tool = reviewer();
    let p = tool.prepare("check main.rs").unwrap();
    assert_eq!(
        p,
        "You are a specialized sub-agent with a specific task to complete.\n\nUse read_file, list_dir and grep to examine code. Do not modify files.\n\nYOUR TASK:\ncheck main.rs\n\nIMPORTANT:\n- Focus only on completing the specified task\n- Do not engage in unrelated actions\n- Once complete, provide final response\n- Be concise and direct"
    );
}

#[test]
fn sub_config_takes_limits_of_the_definition() {
    let tool = reviewer();
    let c = tool.sub_config(Config::new("/w".to_string()));
    assert_eq!(c.max_turns, 10);
    assert_eq!(c.allowed_tools, Some(vec!["read_file".to_string(), "grep".to_string(), "list_dir".to_string()]));
    assert_eq!(c.cwd, "/w");
}

#[test]
fn finished_run_is_reported() {
    let tool = reviewer();
    let events = vec![
        ev(AgentEventType::ToolCallStart, "name", "grep"),
        ev(AgentEventType::ToolCallStart, "name", "read_file"),
        ev(AgentEventType::TextComplete, "content", "All good"),
        ev(AgentEventType::AgentEnd, "response", "done"),
    ];
    let r = tool.finish(SubagentRun::Finished(events));
    assert!(r.success);
    assert_eq!(
        r.output,
        "Sub-agent 'code_reviewer' completed.\nTermination: goal\nTools called: grep, read_file\n\nResult:\nAll good"
    );
}

#[test]
fn end_response_used_when_no_text() {
    let tool = reviewer();
    let r = tool.finish(SubagentRun::Finished(vec![ev(AgentEventType::AgentEnd, "response", "done")]));
    assert!(r.success);
    assert_eq!(r.output, "Sub-agent 'code_reviewer' completed.\nTermination: goal\nTools called: None\n\nResult:\ndone");
    let r = tool.finish(SubagentRun::Finished(vec![]));
    assert_eq!(r.output, "Sub-agent 'code_reviewer' completed.\nTermination: goal\nTools called: None\n\nResult:\nNo response");
}

#[test]
fn error_event_makes_an_error_result() {
    let tool = reviewer();
    let r = tool.finish(SubagentRun::Finished(vec![ev(AgentEventType::AgentError, "error", "boom")]));
    assert!(!r.success);
    assert_eq!(
        r.error,
        Some("Sub-agent 'code_reviewer' completed.\nTermination: error\nTools called: None\n\nResult:\nSub-agent error: boom".to_string())
    );
}

#[test]
fn failure_and_timeout() {
    let tool = reviewer();
    let r = tool.finish(SubagentRun::Failed("no model".to_string()));
    assert!(!r.success);
    assert_eq!(
        r.error,
        Some("Sub-agent 'code_reviewer' completed.\nTermination: error\nTools called: None\n\nResult:\nSub-agent failed: no model".to_string())
    );
    let r = tool.finish(SubagentRun::TimedOut);
    assert!(r.success);
    assert_eq!(
        r.output,
        "Sub-agent 'code_reviewer' completed.\nTermination: timeout\nTools called: None\n\nResult:\nSub-agent timed out"
    );
}

#[test]
fn an_error_marks_the_run_even_when_text_follows() {
    let tool = reviewer();
    let r = tool.finish(SubagentRun::Finished(vec![
        ev(AgentEventType::AgentError, "error", "boom"),
        ev(AgentEventType::TextComplete, "content", "recovered"),
    ]));
    assert!(!r.success);
    assert_eq!(
        r.error,
        Some("Sub-agent 'code_reviewer' completed.\nTermination: error\nTools called: None\n\nResult:\nrecovered".to_string())
    );
    let schema = tool.schema();
    assert_eq!(schema.get("required"), Some(&JsonValue::Array(vec![JsonValue::Str("goal".to_string())])));
}
