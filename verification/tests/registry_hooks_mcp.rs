use rust_coding_agent::approval::ApprovalManager;
use rust_coding_agent::config::{ApprovalPolicy, Config, HookConfig, HookTrigger, MCPServerConfig, MCPToolConfig};
use rust_coding_agent::hooks::{hook_command, HookSystem};
use rust_coding_agent::json::JsonValue;
use rust_coding_agent::mcp::{invalid_response, MCPClient, MCPManager, MCPServerStatus, ToolCallPlan, Transport};
use rust_coding_agent::mcp_tool::MCPTool;
use rust_coding_agent::registry::{approval_gate, create_default_registry, schema_entry, unknown_tool, ToolRegistry, ToolSource};
use rust_coding_agent::tool_base::{ToolConfirmation, ToolKind, ToolResult};

fn s(x: &str) -> JsonValue {
    JsonValue::Str(x.to_string())
}

fn confirmation(dangerous: bool) -> Option<ToolConfirmation> {
    Some(ToolConfirmation {
        tool_name: "shell".to_string(),
        description: "Execute shell".to_string(),
        diff: None,
        affected_paths: vec![],
        command: Some("ls".to_string()),
        is_dangerous: dangerous,
    })
}

fn hook(trigger: HookTrigger, command: Option<&str>, script: Option<&str>, enabled: bool) -> HookConfig {
    HookConfig {
        trigger,
        command: command.map(|c| c.to_string()),
        script: script.map(|c| c.to_string()),
        enabled,
        timeout_sec: 9,
    }
}

fn server(name: &str, command: Option<&str>, url: Option<&str>, enabled: bool) -> MCPServerConfig {
    MCPServerConfig {
        name: name.to_string(),
        transport: "stdio".to_string(),
        command: command.map(|c| c.to_string()),
        url: url.map(|c| c.to_string()),
        enabled,
        startup_timeout_sec: 0,
        cwd: None,
        env: vec![],
        tools: vec![
            MCPToolConfig { name: "search".to_string(), description: "Search".to_string(), input_schema: JsonValue::Null },
            MCPToolConfig { name: "fetch".to_string(), description: "Fetch".to_string(), input_schema: JsonValue::Bool(true) },
        ],
    }
}

#[test]
fn registry_finds_builtin_before_mcp() {
    let mut r = ToolRegistry::new(None);
    r.register("grep".to_string());
    r.register_mcp_tool("grep".to_string());
    r.register_mcp_tool("srv__search".to_string());
    r.register("grep".to_string());
    assert_eq!(r.get("grep"), Some(ToolSource::Builtin));
    assert_eq!(r.get("srv__search"), Some(ToolSource::Mcp));
    assert_eq!(r.get("nope"), None);
    assert_eq!(r.get_tools(), vec!["grep".to_string(), "grep".to_string(), "srv__search".to_string()]);
    assert!(r.unregister("grep"));
    assert!(!r.unregister("grep"));
    assert_eq!(r.get("grep"), Some(ToolSource::Mcp));
}

#[test]
fn allow_list_hides_other_tools() {
    let mut r = ToolRegistry::new(Some(vec!["read_file".to_string()]));
    r.register("read_file".to_string());
    r.register("shell".to_string());
    assert_eq!(r.get_tools(), vec!["read_file".to_string()]);
    assert_eq!(r.get("shell"), Some(ToolSource::Builtin));
}

#[test]
fn default_registry_has_builtin_and_subagent_tools() {
    let r = create_default_registry(&Config::new("/w".to_string()));
    let names = r.get_tools();
    assert_eq!(names.len(), 13);
    assert_eq!(names[0], "read_file");
    assert_eq!(names[10], "memory");
    assert_eq!(names[12], "subagent_code_reviewer");
}

#[test]
fn approval_gate_follows_policy() {
    let never = ApprovalManager::new(ApprovalPolicy::Never, "/w".to_string());
    let yolo = ApprovalManager::new(ApprovalPolicy::Yolo, "/w".to_string());
    let on_request = ApprovalManager::new(ApprovalPolicy::OnRequest, "/w".to_string());
    let auto = ApprovalManager::new(ApprovalPolicy::Auto, "/w".to_string());
    let r = approval_gate(Some(&never), "shell", true, confirmation(false)).unwrap();
    assert_eq!(r.error, Some("Operation rejected by safety policy".to_string()));
    assert!(approval_gate(Some(&yolo), "shell", true, confirmation(true)).is_none());
    let r = approval_gate(Some(&on_request), "shell", true, confirmation(false)).unwrap();
    assert_eq!(r.error, Some("User rejected the operation".to_string()));
    assert!(approval_gate(Some(&auto), "shell", true, confirmation(false)).is_none());
    assert!(approval_gate(Some(&never), "shell", true, None).is_none());
    assert!(approval_gate(None, "shell", true, confirmation(true)).is_none());
    assert_eq!(unknown_tool("zap").error, Some("Unknown tool: zap".to_string()));
}

#[test]
fn schema_entry_of_a_tool() {
    assert_eq!(
        schema_entry("grep", "Search", JsonValue::Null),
        JsonValue::Object(vec![
            ("description".to_string(), s("Search")),
            ("name".to_string(), s("grep")),
            ("parameters".to_string(), JsonValue::Null),
        ])
    );
}

#[test]
fn hooks_keep_only_enabled_ones() {
    let mut c = Config::new("/w".to_string());
    c.hooks = vec![
        hook(HookTrigger::BeforeTool, Some("echo a"), None, true),
        hook(HookTrigger::BeforeTool, Some("echo b"), None, false),
        hook(HookTrigger::OnError, None, Some("notify \"x\""), true),
        hook(HookTrigger::OnError, None, None, true),
    ];
    let hs = HookSystem::new(c.copy());
    let runs = hs.trigger_before_tool("grep", "{\"pattern\":\"x\"}");
    assert_eq!(runs.len(), 1);
    assert_eq!(runs[0].command, "echo a");
    assert_eq!(runs[0].timeout_sec, 9);
    assert_eq!(
        runs[0].env,
        vec![
            ("AI_AGENT_TRIGGER".to_string(), "beforetool".to_string()),
            ("AI_AGENT_CWD".to_string(), "/w".to_string()),
            ("AI_AGENT_TOOL_NAME".to_string(), "grep".to_string()),
            ("AI_AGENT_TOOL_PARAMS".to_string(), "{\"pattern\":\"x\"}".to_string()),
        ]
    );
    let runs = hs.trigger_on_error("bad");
    assert_eq!(runs.len(), 1);
    assert_eq!(runs[0].command, "/bin/bash -lc \"notify \\\"x\\\"\"");
    assert_eq!(runs[0].env[2], ("AI_AGENT_ERROR".to_string(), "bad".to_string()));
    assert!(hs.trigger_before_agent("hi").is_empty());
    c.hooks_enabled = false;
    assert!(HookSystem::new(c.copy()).trigger_on_error("bad").is_empty());
}

#[test]
fn hooks_after_agent_and_tool_see_results() {
    let mut c = Config::new("/w".to_string());
    c.hooks = vec![
        hook(HookTrigger::AfterAgent, Some("a"), None, true),
        hook(HookTrigger::AfterTool, Some("t"), None, true),
        hook(HookTrigger::BeforeAgent, Some("b"), None, true),
    ];
    let hs = HookSystem::new(c.copy());
    let runs = hs.trigger_after_agent("q", "answer");
    assert_eq!(runs[0].env.last().unwrap(), &("AI_AGENT_RESPONSE".to_string(), "answer".to_string()));
    assert_eq!(runs[0].env[0].1, "afteragent");
    let runs = hs.trigger_after_tool("grep", "{}", &ToolResult::error_result("oops".to_string()));
    assert_eq!(runs[0].env.last().unwrap().1, "Error: oops\n\nOutput:\n");
    let runs = hs.trigger_before_run();
    assert_eq!(runs[0].env[2], ("AI_AGENT_USER_MESSAGE".to_string(), String::new()));
    assert_eq!(hs.trigger_after_run()[0].env.last().unwrap().1, "");
    assert_eq!(hook_command(&hook(HookTrigger::OnError, None, None, true)), None);
}

#[test]
fn mcp_client_connects_by_command() {
    let mut c = MCPClient::new("srv".to_string(), server("srv", Some("run"), None, true), "/w".to_string());
    assert_eq!(c.status(), MCPServerStatus::Disconnected);
    assert_eq!(c.startup_timeout(), 1);
    match c.begin_connect() {
        Ok(Some(Transport::Stdio(cmd))) => assert_eq!(cmd, "run"),
        _ => panic!("expected a command to start"),
    }
    assert_eq!(c.status(), MCPServerStatus::Connecting);
    c.finish_connect(true);
    assert_eq!(c.status(), MCPServerStatus::Connected);
    let tools = c.tools();
    assert_eq!(tools.len(), 2);
    assert_eq!(tools[0].name, "search");
    assert_eq!(tools[0].server_name, "srv");
    assert!(matches!(c.begin_connect(), Ok(None)));
    match c.call_tool("search", JsonValue::Null) {
        Ok(ToolCallPlan::Local(v)) => {
            assert_eq!(v.get("is_error"), Some(&JsonValue::Bool(false)));
            assert_eq!(v.get("output"), Some(&s("MCP stdio tool 'search' invoked (placeholder)")));
        },
        _ => panic!("expected a local result"),
    }
    c.disconnect();
    assert_eq!(c.status(), MCPServerStatus::Disconnected);
    assert!(c.tools().is_empty());
    assert_eq!(c.call_tool("search", JsonValue::Null).err(), Some("Not connected to server srv".to_string()));
}

#[test]
fn mcp_client_over_http_and_without_transport() {
    let mut c = MCPClient::new("web".to_string(), server("web", None, Some("http://h/mcp"), true), "/w".to_string());
    match c.begin_connect() {
        Ok(Some(Transport::Http(u))) => assert_eq!(u, "http://h/mcp"),
        _ => panic!("expected a URL"),
    }
    c.finish_connect(true);
    match c.call_tool("fetch", s("x")) {
        Ok(ToolCallPlan::Http(url, payload)) => {
            assert_eq!(url, "http://h/mcp");
            assert_eq!(payload, JsonValue::Object(vec![("arguments".to_string(), s("x")), ("tool".to_string(), s("fetch"))]));
        },
        _ => panic!("expected a request"),
    }
    let mut bad = MCPClient::new("none".to_string(), server("none", None, None, true), "/w".to_string());
    assert_eq!(bad.begin_connect().err(), Some("MCP server 'none' has no command or URL".to_string()));
    assert_eq!(bad.status(), MCPServerStatus::Error);
    let mut failed = MCPClient::new("f".to_string(), server("f", Some("x"), None, true), "/w".to_string());
    let _ = failed.begin_connect();
    failed.finish_connect(false);
    assert_eq!(failed.status(), MCPServerStatus::Error);
    assert!(failed.tools().is_empty());
    assert_eq!(invalid_response().get("error"), Some(&s("invalid json response")));
}

#[test]
fn mcp_manager_starts_enabled_servers_once() {
    let mut c = Config::new("/w".to_string());
    c.mcp_servers = vec![server("a", Some("x"), None, true), server("b", Some("y"), None, false)];
    let mut m = MCPManager::new();
    let mut pending = m.initialize(&c);
    assert_eq!(pending.len(), 1);
    assert_eq!(pending[0].name(), "a");
    assert!(m.initialize(&c).is_empty());
    let mut a = pending.remove(0);
    let _ = a.begin_connect();
    a.finish_connect(true);
    m.add_client(a);
    let tools = m.register_tools();
    assert_eq!(tools.len(), 2);
    assert_eq!(tools[0].tool_name, "a__search");
    assert_eq!(tools[1].tool_name, "a__fetch");
    assert_eq!(
        m.get_all_servers(),
        vec![JsonValue::Object(vec![
            ("name".to_string(), s("a")),
            ("status".to_string(), s("connected")),
            ("tools".to_string(), JsonValue::Number("2".to_string())),
        ])]
    );
    m.shutdown();
    assert!(m.get_all_servers().is_empty());
    assert_eq!(m.initialize(&c).len(), 1);
}

#[test]
fn mcp_tool_placeholder_execution() {
    let t = MCPTool::new("a__search".to_string(), "Search".to_string(), JsonValue::Null);
    assert_eq!(t.name(), "a__search");
    assert_eq!(t.kind(), ToolKind::Mcp);
    assert_eq!(t.schema(), JsonValue::Null);
    assert_eq!(t.execute(&JsonValue::Null).output, "MCP tool 'a__search' placeholder execution");
}

#[test]
fn servers_that_are_not_connected_offer_no_tools() {
    let mut c = Config::new("/w".to_string());
    c.mcp_servers = vec![server("a", Some("x"), None, true)];
    let mut m = MCPManager::new();
    let mut pending = m.initialize(&c);
    let mut a = pending.remove(0);
    let _ = a.begin_connect();
    a.finish_connect(false);
    m.add_client(a);
    assert!(m.register_tools().is_empty());
    assert_eq!(m.get_all_servers()[0].get("status"), Some(&s("error")));
}
