use rust_coding_agent::client_response::parse_tool_call_arguments;
use rust_coding_agent::compaction::ChatCompactor;
use rust_coding_agent::context::ContextManager;
use rust_coding_agent::errors::{AgentError, ConfigError};
use rust_coding_agent::json::{get_str, JsonValue};
use rust_coding_agent::loop_detector::LoopDetector;
use rust_coding_agent::paths::{agent_dir, display_path_rel_to_cwd, join, project_config_candidates, resolve_path};
use rust_coding_agent::prompts::{create_loop_breaker_prompt, get_compression_prompt, get_system_prompt};
use rust_coding_agent::sorting::sort_strings;
use rust_coding_agent::table::StringTable;
use rust_coding_agent::text::{count_tokens, estimate_tokens, get_tokenizer, truncate_by_chars, truncate_by_lines, truncate_text};
use rust_coding_agent::tui::{get_console, Tui};

fn s(x: &str) -> JsonValue {
    JsonValue::Str(x.to_string())
}

fn msg(role: &str, content: &str) -> JsonValue {
    JsonValue::Object(vec![("role".to_string(), s(role)), ("content".to_string(), s(content))])
}

#[test]
fn tokens_are_words() {
    assert_eq!(get_tokenizer("gpt-4"), "simple");
    assert_eq!(count_tokens("  one two\tthree\n", "any"), 3);
    assert_eq!(estimate_tokens(""), 0);
}

#[test]
fn text_within_budget_is_kept() {
    assert_eq!(truncate_text("a b c", 3, "...", "m"), "a b c");
    assert_eq!(truncate_text("a b\nc d\ne f", 3, "[cut]", "m"), "a b\nc d[cut]");
    assert_eq!(truncate_by_lines("a\nb\nc", 1, "!", "m"), "a!");
    assert_eq!(truncate_by_lines("", 1, "!", "m"), "!");
}

#[test]
fn text_cut_by_characters() {
    assert_eq!(truncate_by_chars("short", 2, "..", "m"), "short");
    assert_eq!(truncate_by_chars("aaaa bbbb cccc", 1, "~", "m"), "aaaa~");
    assert_eq!(truncate_by_chars("a b c d e f g h i j", 2, "", "m"), "a b ");
}

#[test]
fn conversation_keeps_its_messages() {
    let mut c = ContextManager::new(Some("sys".to_string()));
    c.add_user_message("hi".to_string());
    c.add_assistant_message("hello".to_string(), Some(JsonValue::Array(vec![])));
    c.add_tool_result("t1".to_string(), "out".to_string());
    let ms = c.get_messages();
    assert_eq!(ms.len(), 4);
    assert_eq!(get_str(&ms[0], "role"), Some("system"));
    assert_eq!(ms[2].get("tool_calls"), Some(&JsonValue::Array(vec![])));
    assert_eq!(get_str(&ms[3], "tool_call_id"), Some("t1"));
    let mut restored = ContextManager::new(None);
    restored.restore_messages(&ms);
    assert_eq!(restored.message_count(), 3);
    let back = restored.get_messages();
    assert_eq!(back.len(), 3);
    for i in 0..3 {
        assert_eq!(back[i], ms[i + 1]);
    }
    c.clear();
    assert_eq!(c.message_count(), 0);
    assert_eq!(c.usage(), 0);
}

#[test]
fn compaction_joins_blocks() {
    let compactor = ChatCompactor::new();
    let ms = vec![msg("user", "fix it"), msg("assistant", "done"), JsonValue::Object(vec![])];
    assert_eq!(compactor.compact(&ms, 1000), "user:\nfix it\n\nassistant:\ndone\n\nunknown:\n");
    let long_tool = msg("tool", &"w ".repeat(150));
    let out = compactor.compact(&vec![long_tool], 1000);
    assert!(out.ends_with("\n...[tool output truncated]"));
    let out = compactor.compact(&vec![msg("user", "a b c d e")], 3);
    assert!(out.ends_with("\n...[conversation summary truncated]"));
}

#[test]
fn loop_is_detected_after_three_alternations() {
    let mut d = LoopDetector::new();
    for _ in 0..2 {
        d.record_action("read".to_string());
        d.record_action("edit".to_string());
    }
    assert!(!d.has_loop());
    d.record_action("read".to_string());
    d.record_action("edit".to_string());
    assert!(d.has_loop());
    d.record_action("shell".to_string());
    assert!(!d.has_loop());
    d.clear();
    assert!(!d.has_loop());
    let mut w = LoopDetector::default();
    for _ in 0..6 {
        w.record_action("x".to_string());
    }
    assert!(!w.has_loop());
}

#[test]
fn table_sets_gets_and_removes() {
    let mut t = StringTable::new();
    t.set("b".to_string(), "1".to_string());
    t.set("a".to_string(), "2".to_string());
    t.set("b".to_string(), "3".to_string());
    assert_eq!(t.len(), 2);
    assert_eq!(t.get("b"), Some("3".to_string()));
    assert_eq!(t.keys(), vec!["b".to_string(), "a".to_string()]);
    assert_eq!(t.remove("b"), Some("3".to_string()));
    assert_eq!(t.get("b"), None);
    assert_eq!(t.entry(0), ("a".to_string(), "2".to_string()));
    t.clear();
    assert_eq!(t.len(), 0);
}

#[test]
fn paths_join_and_show() {
    assert_eq!(join("/a", "b"), "/a/b");
    assert_eq!(join("/a/", "b"), "/a/b");
    assert_eq!(join("/a", "/etc"), "/etc");
    assert_eq!(resolve_path("/w", "src/x.rs"), "/w/src/x.rs");
    assert_eq!(display_path_rel_to_cwd("/w/src/x.rs", Some("/w")), "src/x.rs");
    assert_eq!(display_path_rel_to_cwd("/other/x.rs", Some("/w")), "/other/x.rs");
    assert_eq!(display_path_rel_to_cwd("/w/x", None), "/w/x");
    assert_eq!(agent_dir(None), "./rust-coding-agent");
    assert_eq!(agent_dir(Some("/home/u/.config".to_string())), "/home/u/.config/rust-coding-agent");
    assert_eq!(project_config_candidates("/w"), vec!["/w/agent.toml".to_string(), "/w/.agent/config.toml".to_string()]);
}

#[test]
fn prompts() {
    assert_eq!(get_compression_prompt(), "Compress the conversation while preserving actionable details.");
    assert_eq!(
        create_loop_breaker_prompt("read/edit"),
        "Loop detected: read/edit. Try a different strategy and avoid repeating the same calls."
    );
    let p = get_system_prompt(Some("dev"), None, Some("mem"), &vec!["grep".to_string(), "glob".to_string()]);
    assert!(p.starts_with("You are Codex, a coding agent based on GPT-5.\n\n"));
    assert!(p.contains("Developer instructions:\ndev\n\nUser instructions:\n\n\nMemory:\nmem"));
    assert!(p.ends_with("Tools: grep, glob"));
}

#[test]
fn strings_sort_by_characters() {
    let v = vec!["b".to_string(), "B".to_string(), "a".to_string(), "ab".to_string()];
    assert_eq!(sort_strings(&v), vec!["B".to_string(), "a".to_string(), "ab".to_string(), "b".to_string()]);
}

#[test]
fn tool_call_arguments() {
    let m = parse_tool_call_arguments("{\"path\": \"a.rs\"}");
    assert_eq!(m, vec![("path".to_string(), s("a.rs"))]);
    assert!(parse_tool_call_arguments("   ").is_empty());
    assert_eq!(parse_tool_call_arguments("[1]"), vec![("value".to_string(), JsonValue::Array(vec![JsonValue::Number("1".to_string())]))]);
    assert_eq!(parse_tool_call_arguments("oops"), vec![("raw".to_string(), s("oops"))]);
}

#[test]
fn terminal_lines() {
    get_console();
    let tui = Tui::new();
    assert_eq!(tui.print_welcome("T", &vec!["x".to_string()]), vec!["== T ==".to_string(), "x".to_string()]);
    assert_eq!(tui.tool_call_start("c1", "grep", "{}"), "\n[tool:start] grep #c1 args={}");
    assert_eq!(
        tui.tool_call_complete("c1", "grep", false, "", Some("bad")),
        vec!["\n[tool:done] grep #c1 success=false output=".to_string(), "[tool:error] bad".to_string()]
    );
    assert!(!tui.handle_confirmation("anything"));
    assert_eq!(tui.begin_assistant(), "\n[assistant]> ");
}

#[test]
fn errors_show_their_text() {
    assert_eq!(AgentError("boom".to_string()).message(), "boom");
    assert_eq!(ConfigError("bad".to_string()).message(), "bad");
}

#[test]
fn streamed_text_and_end_of_answer() {
    let tui = Tui::new();
    assert_eq!(tui.stream_assistant_delta("partial"), "partial");
    assert_eq!(tui.end_assistant(), "\n");
}
