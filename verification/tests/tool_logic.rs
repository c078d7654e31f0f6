use rust_coding_agent::approval::{is_dangerous_command, is_safe_command, ApprovalContext, ApprovalDecision, ApprovalManager};
use rust_coding_agent::builtin::{builtin_tool_names, glob, list_dir, read_file, shell, web_fetch, web_search, write_file};
use rust_coding_agent::config::ApprovalPolicy;
use rust_coding_agent::discovery::{DiscoveredTool, DiscoveredToolSpec, ToolDiscoveryManager};
use rust_coding_agent::edit::{edit_confirmation, no_match_error, plan_edit};
use rust_coding_agent::file_tools::{
    binary_file, file_not_found, format_file_lines, format_listing, glob_report, missing_directory, write_file_confirmation,
    write_file_result,
};
use rust_coding_agent::json::JsonValue;
use rust_coding_agent::memory_tool::memory_action;
use rust_coding_agent::process_tools::{
    discovered_tool_result, fetch_result, is_complete_tool_spec, is_http_url, missing_working_dir, shell_block_check,
    shell_command_result, shell_confirmation, shell_timeout_result, truncate_fetched_body, url_refused,
};
use rust_coding_agent::search_tools::{
    clamp_max_results, grep_report, is_skipped_dir, path_missing, search_failed, search_url, web_search_report,
};
use rust_coding_agent::table::StringTable;
use rust_coding_agent::todo_tool::{apply_todo_action, todo_action};
use rust_coding_agent::tool_base::{default_confirmation, kind_is_mutating, ToolKind, ToolResult};

fn s(x: &str) -> JsonValue {
    JsonValue::Str(x.to_string())
}

#[test]
fn dangerous_commands_are_spotted_in_any_case() {
    assert!(is_dangerous_command("sudo SHUTDOWN -h now"));
    assert!(is_dangerous_command("rm -rf / --no-preserve-root"));
    assert!(is_dangerous_command("mkfs.ext4 /dev/sda1"));
    assert!(!is_dangerous_command("rm -rf ./build"));
    assert!(is_safe_command("ls -la"));
}

#[test]
fn approval_decisions() {
    let ctx = |m: bool, d: bool| ApprovalContext {
        tool_name: "t".to_string(),
        is_mutating: m,
        affected_paths: vec![],
        command: None,
        is_dangerous: d,
    };
    let on_request = ApprovalManager::new(ApprovalPolicy::OnRequest, "/w".to_string());
    assert_eq!(on_request.check_approval(&ctx(true, false)), ApprovalDecision::NeedsConfirmation);
    assert_eq!(on_request.check_approval(&ctx(false, false)), ApprovalDecision::Approved);
    let auto = ApprovalManager::new(ApprovalPolicy::Auto, "/w".to_string());
    assert_eq!(auto.check_approval(&ctx(true, false)), ApprovalDecision::Approved);
    assert_eq!(auto.check_approval(&ctx(false, true)), ApprovalDecision::NeedsConfirmation);
    let never = ApprovalManager::new(ApprovalPolicy::Never, "/w".to_string());
    assert_eq!(never.check_approval(&ctx(false, true)), ApprovalDecision::Rejected);
    let yolo = ApprovalManager::new(ApprovalPolicy::Yolo, "/w".to_string());
    assert_eq!(yolo.check_approval(&ctx(true, true)), ApprovalDecision::Approved);
    assert!(!yolo.request_confirmation(&ctx(true, true)));
    assert_eq!(yolo.policy(), ApprovalPolicy::Yolo);
}

#[test]
fn results_and_model_output() {
    let ok = ToolResult::success_result("fine".to_string());
    assert_eq!(ok.to_model_output(), "fine");
    let err = ToolResult::error_result("bad".to_string());
    assert_eq!(err.to_model_output(), "Error: bad\n\nOutput:\n");
    assert!(kind_is_mutating(ToolKind::Shell));
    assert!(!kind_is_mutating(ToolKind::Read));
    assert!(!kind_is_mutating(ToolKind::Mcp));
    let c = default_confirmation("grep", true).unwrap();
    assert_eq!(c.description, "Execute grep");
    assert!(default_confirmation("grep", false).is_none());
}

#[test]
fn file_lines_are_numbered() {
    let r = format_file_lines("a\nb\nc\n", 2, Some(1));
    assert_eq!(r.output, "     2|b");
    let r = format_file_lines("a\nb", 0, None);
    assert_eq!(r.output, "     1|a\n     2|b");
    assert_eq!(format_file_lines("", 1, None).output, "File is empty.");
    assert_eq!(format_file_lines("x\n", 2, None).output, "File is empty.");
}

#[test]
fn directory_listing_sorted_and_filtered() {
    let entries = vec![
        ("src".to_string(), true),
        (".git".to_string(), true),
        ("Cargo.toml".to_string(), false),
        ("README.md".to_string(), false),
    ];
    assert_eq!(format_listing(&entries, false).output, "Cargo.toml\nREADME.md\nsrc/");
    assert_eq!(format_listing(&entries, true).output, ".git/\nCargo.toml\nREADME.md\nsrc/");
    assert_eq!(format_listing(&vec![(".hidden".to_string(), false)], false).output, "Directory is empty");
}

#[test]
fn writing_a_file_is_reported() {
    let r = write_file_result("a.txt", true, "", "one\ntwo\n");
    assert_eq!(r.output, "Created a.txt 2 lines");
    assert!(r.diff.as_ref().unwrap().is_new_file);
    let r = write_file_result("a.txt", false, "old", "new");
    assert_eq!(r.output, "Updated a.txt 1 lines");
    let c = write_file_confirmation("a.txt", false, "old", "new");
    assert_eq!(c.description, "Updated file: a.txt");
    assert!(c.is_dangerous);
    assert_eq!(write_file_confirmation("a.txt", true, "", "new").description, "Created file: a.txt");
}

#[test]
fn path_errors() {
    assert_eq!(file_not_found("/x").error, Some("File not found: /x".to_string()));
    assert_eq!(binary_file("/x").error, Some("Cannot read binary file: /x".to_string()));
    assert_eq!(missing_directory("/x").error, Some("Directory does not exist: /x".to_string()));
    assert_eq!(path_missing("/x").error, Some("Path does not exist: /x".to_string()));
    assert_eq!(missing_working_dir("/x").error, Some("Working directory doesn't exist: /x".to_string()));
}

#[test]
fn glob_lists_files_relative_to_cwd() {
    let items = vec![
        ("/w/src/a.rs".to_string(), true),
        ("/w/src".to_string(), false),
        ("/elsewhere/b.rs".to_string(), true),
    ];
    assert_eq!(glob_report(&items, "/w").output, "src/a.rs\n/elsewhere/b.rs");
    let many: Vec<(String, bool)> = (0..1005).map(|i| (format!("/w/f{}", i), true)).collect();
    let out = glob_report(&many, "/w").output;
    assert_eq!(out.lines().count(), 1000);
    assert!(out.ends_with("f999"));
}

#[test]
fn edits_are_planned() {
    let o = plan_edit("f.txt", true, "let a = 1;\nlet b = 2;\n", "a = 1", "a = 10", false);
    assert!(o.result.success);
    assert_eq!(o.result.output, "Edited f.txt");
    assert_eq!(o.write, Some("let a = 10;\nlet b = 2;\n".to_string()));
    let o = plan_edit("f.txt", true, "x x", "x", "y", false);
    assert_eq!(o.result.error, Some("old_string found 2 times in f.txt. Provide more context or set replace_all=true.".to_string()));
    let o = plan_edit("f.txt", true, "x x", "x", "y", true);
    assert_eq!(o.write, Some("y y".to_string()));
    let o = plan_edit("f.txt", true, "x", "x", "x", false);
    assert_eq!(o.result.error, Some("No change made - old_string equals new_string".to_string()));
    let o = plan_edit("f.txt", true, "x", "", "y", false);
    assert_eq!(
        o.result.error,
        Some("old_string is empty but file exists. Provide old_string to edit, or use write_file to overwrite.".to_string())
    );
    let o = plan_edit("new.txt", false, "", "", "a\nb", false);
    assert_eq!(o.result.output, "Created new.txt 2 lines");
    assert_eq!(o.write, Some("a\nb".to_string()));
    let o = plan_edit("new.txt", false, "", "x", "a", false);
    assert_eq!(
        o.result.error,
        Some("File does not exist: new.txt. To create a new file, use an empty old_string.".to_string())
    );
}

#[test]
fn missing_text_shows_similar_lines() {
    let r = no_match_error("fn main() {}", "fn helper() {}\nlet x = 1;\nfn other()", "m.rs");
    assert_eq!(
        r.error,
        Some("old_string not found in m.rs.\nPossible similar lines:\nLine 1: fn helper() {}\nLine 3: fn other()".to_string())
    );
    let r = no_match_error("zzz", "abc", "m.rs");
    assert_eq!(r.error, Some("old_string not found in m.rs. Make sure old_string matches exactly.".to_string()));
    let c = edit_confirmation("m.rs", true, "a b", "a", "c", false);
    assert_eq!(c.description, "Edit file: m.rs");
    assert_eq!(c.diff.unwrap().new_content, "c b");
}

#[test]
fn memory_actions() {
    let mut store = StringTable::new();
    let (r, save) = memory_action(&mut store, "SET", Some("editor".to_string()), Some("vim".to_string()));
    assert_eq!(r.output, "Set memory: editor");
    assert!(save);
    let (r, save) = memory_action(&mut store, "get", Some("editor".to_string()), None);
    assert_eq!(r.output, "Memory found: editor: vim");
    assert!(!save);
    let (r, _) = memory_action(&mut store, "get", Some("shell".to_string()), None);
    assert_eq!(r.output, "Memory not found: shell");
    memory_action(&mut store, "set", Some("alpha".to_string()), Some("1".to_string()));
    let (r, _) = memory_action(&mut store, "list", None, None);
    assert_eq!(r.output, "Stored memories:\n  alpha: 1\n  editor: vim");
    let (r, _) = memory_action(&mut store, "set", Some("k".to_string()), None);
    assert_eq!(r.error, Some("`key` and `value` are required for 'set' action".to_string()));
    let (r, _) = memory_action(&mut store, "delete", Some("alpha".to_string()), None);
    assert_eq!(r.output, "Deleted memory: alpha");
    let (r, save) = memory_action(&mut store, "clear", None, None);
    assert_eq!(r.output, "Cleared 1 memory entries");
    assert!(save);
    let (r, _) = memory_action(&mut store, "list", None, None);
    assert_eq!(r.output, "No memories stored");
    let (r, _) = memory_action(&mut store, "Forget", None, None);
    assert_eq!(r.error, Some("Unknown action: Forget".to_string()));
}

#[test]
fn todo_actions() {
    let mut todos = StringTable::new();
    let r = apply_todo_action(&mut todos, "add", None, Some("write tests".to_string()), "abcd1234");
    assert_eq!(r.output, "Added todo [abcd1234]: write tests");
    let r = apply_todo_action(&mut todos, "list", None, None, "unused00");
    assert_eq!(r.output, "Todos:\n  [abcd1234] write tests");
    let r = apply_todo_action(&mut todos, "complete", Some("abcd1234".to_string()), None, "unused00");
    assert_eq!(r.output, "Completed todo [abcd1234]: write tests");
    let r = apply_todo_action(&mut todos, "complete", Some("abcd1234".to_string()), None, "unused00");
    assert_eq!(r.error, Some("Todo not found: abcd1234".to_string()));
    let r = apply_todo_action(&mut todos, "list", None, None, "unused00");
    assert_eq!(r.output, "No todos");
    let r = todo_action(&mut todos, "ADD", None, Some("x".to_string()));
    assert!(r.output.starts_with("Added todo ["));
    assert_eq!(r.output.len(), "Added todo [12345678]: x".len());
    let r = apply_todo_action(&mut todos, "clear", None, None, "unused00");
    assert_eq!(r.output, "Cleared 1 todos");
    let r = apply_todo_action(&mut todos, "add", None, None, "unused00");
    assert_eq!(r.error, Some("`content` required for 'add' action".to_string()));
}

#[test]
fn shell_results() {
    let r = shell_command_result("out\n", "warn\n", true, 0);
    assert_eq!(r.output, "out\n--- stderr ---\nwarn");
    assert_eq!(r.exit_code, Some(0));
    let r = shell_command_result("  \n", "boom\n", false, 2);
    assert_eq!(r.output, "--- stderr ---\nboom");
    assert_eq!(r.error, Some("boom\n".to_string()));
    assert!(!r.success);
    assert_eq!(shell_block_check("reboot").unwrap().error, Some("Command blocked for safety: reboot".to_string()));
    assert!(shell_block_check("echo hi").is_none());
    assert_eq!(shell_timeout_result(120).error, Some("Command timed out after 120s".to_string()));
    let c = shell_confirmation("halt");
    assert_eq!(c.description, "Execute: halt");
    assert!(c.is_dangerous);
}

#[test]
fn discovered_tools() {
    let r = discovered_tool_result(" hi \n", "", false, Some(1));
    assert_eq!(r.output, "hi");
    assert_eq!(r.error, Some("Discovered tool failed".to_string()));
    assert!(is_complete_tool_spec("a", "b", "c"));
    assert!(!is_complete_tool_spec("a", " ", "c"));
    let spec = |name: &str, cwd: Option<&str>| DiscoveredToolSpec {
        name: name.to_string(),
        description: "d".to_string(),
        parameters: JsonValue::Null,
        command: "run".to_string(),
        args: vec![],
        cwd: cwd.map(|c| c.to_string()),
        timeout_sec: 0,
        env: vec![],
    };
    let mut m = ToolDiscoveryManager::new();
    m.record(vec![
        ("/w/tools/discovered/a.json".to_string(), spec("a", None)),
        ("/w/tools/discovered/b.json".to_string(), spec(" ", None)),
        ("/w/.agent/tools/c.json".to_string(), spec("c", Some("/elsewhere"))),
    ]);
    assert_eq!(m.discovered_files(), vec!["/w/tools/discovered/a.json".to_string(), "/w/.agent/tools/c.json".to_string()]);
    let tools = m.build_tools("/w");
    assert_eq!(tools.len(), 2);
    assert_eq!(tools[0].spec.cwd, Some("/w".to_string()));
    assert_eq!(tools[1].spec.cwd, Some("/elsewhere".to_string()));
    assert_eq!(tools[0].timeout(), 1);
    assert_eq!(
        ToolDiscoveryManager::discovery_roots("/w"),
        vec!["/w/tools/discovered".to_string(), "/w/.agent/tools".to_string()]
    );
    let t = DiscoveredTool::new(spec("z", None));
    assert_eq!(t.working_dir("/here"), "/here");
    assert_eq!(t.kind(), ToolKind::Shell);
}

#[test]
fn fetching_pages() {
    assert!(is_http_url("https://example.com"));
    assert!(!is_http_url("ftp://example.com"));
    assert_eq!(url_refused().error, Some("Url must be http:// or https://".to_string()));
    assert_eq!(fetch_result(false, "404 Not Found", "x").error, Some("HTTP 404 Not Found".to_string()));
    assert_eq!(fetch_result(true, "200 OK", "body").output, "body");
    let big = format!("a{}", "é".repeat(60000));
    assert!(!big.is_char_boundary(102400));
    assert_eq!(fetch_result(false, "500 Internal Server Error", &big).error, Some("HTTP 500 Internal Server Error".to_string()));
    let long = "a".repeat(102_401);
    let cut = truncate_fetched_body(&long);
    assert_eq!(cut, format!("{}\n... [content truncated]", "a".repeat(102_400)));
}

#[test]
fn grep_finds_lines() {
    let files = vec![
        ("src/a.rs".to_string(), "fn main() {}\nlet x = 1;\nFN other".to_string()),
        ("src/b.rs".to_string(), "nothing".to_string()),
    ];
    let r = grep_report("fn", false, &files).unwrap();
    assert_eq!(r.output, "=== src/a.rs ===\n1:fn main() {}\n");
    let r = grep_report("fn", true, &files).unwrap();
    assert_eq!(r.output, "=== src/a.rs ===\n1:fn main() {}\n3:FN other\n");
    let r = grep_report("zzz", false, &files).unwrap();
    assert_eq!(r.output, "No matches found for pattern 'zzz'");
    assert!(grep_report("(", false, &files).is_err());
    assert!(is_skipped_dir("node_modules"));
    assert!(!is_skipped_dir("src"));
}

#[test]
fn web_search_page_is_read() {
    assert_eq!(search_url("rust verus&x"), "https://html.duckduckgo.com/html/?q=rust%20verus%26x");
    assert_eq!(clamp_max_results(0), 1);
    assert_eq!(clamp_max_results(50), 20);
    let html = "<a class=\"result__a\" href=\"https://a.example\">First <b>one</b></a>\
<a class=\"result__snippet\" href=\"x\">Snippet <i>A</i></a>\
<a class=\"result__a\" href=\"https://b.example\">Second</a>";
    let r = web_search_report("q", html, 10).unwrap();
    assert_eq!(
        r.output,
        "Search results for: q\n1. Title: First one\n   URL: https://a.example\n   Snippet: Snippet A\n\n2. Title: Second\n   URL: https://b.example\n"
    );
    let r = web_search_report("q", html, 1).unwrap();
    assert_eq!(r.output, "Search results for: q\n1. Title: First one\n   URL: https://a.example\n   Snippet: Snippet A\n");
    let r = web_search_report("none", "<p>nothing</p>", 5).unwrap();
    assert_eq!(r.output, "No results found for: none");
    assert_eq!(search_failed("503 Service Unavailable").error, Some("Search failed: HTTP 503 Service Unavailable".to_string()));
}

#[test]
fn builtin_tool_descriptions() {
    assert_eq!(builtin_tool_names().len(), 11);
    assert_eq!(glob::default_path(), ".");
    assert_eq!(list_dir::default_path(), ".");
    assert_eq!(read_file::default_offset(), 1);
    assert_eq!(shell::default_timeout(), 120);
    assert_eq!(web_fetch::default_timeout(), 30);
    assert_eq!(web_search::default_max_results(), 10);
    assert!(write_file::default_true());
    assert_eq!(rust_coding_agent::discovery::default_timeout(), 30);
    assert_eq!(rust_coding_agent::builtin::grep::default_path(), ".");
    assert_eq!(glob::name(), "glob");
    assert_eq!(shell::kind(), ToolKind::Shell);
    let schema = glob::schema();
    assert_eq!(schema.get("type"), Some(&s("object")));
    assert_eq!(schema.get("required"), Some(&JsonValue::Array(vec![s("pattern")])));
    assert_eq!(
        schema.get("properties").unwrap().get("path"),
        Some(&JsonValue::Object(vec![("type".to_string(), s("string"))]))
    );
    assert!(list_dir::schema().get("required").is_none());
}
