use rust_coding_agent::agent::{Agent, AgentEvent, AgentEventType};
use rust_coding_agent::cli::{
    checkpoint_message, classify_input, count_line, event_output, final_response, policy_debug, resume_message,
    saved_message, split_command, Cli, CommandOutcome, ConsoleOutput, UserInput,
};
use rust_coding_agent::config::{ApprovalPolicy, Config, MCPServerConfig, MCPToolConfig};
use rust_coding_agent::json::JsonValue;
use rust_coding_agent::session::Session;

fn setup() -> (Cli, Agent) {
    let cli = Cli::new(Config::new("/work".to_string()));
    let agent = Agent::new(Config::new("/work".to_string()), Session::new(Config::new("/work".to_string())));
    (cli, agent)
}

fn printed(o: CommandOutcome) -> Vec<String> {
    match o {
        CommandOutcome::Print(lines) => lines,
        _ => panic!("expected lines to print"),
    }
}

fn obj(k: &str, v: &str) -> JsonValue {
    JsonValue::Object(vec![(k.to_string(), JsonValue::Str(v.to_string()))])
}

#[test]
fn input_is_blank_command_or_message() {
    assert!(matches!(classify_input("   \n"), UserInput::Blank));
    match classify_input("  /help \n") {
        UserInput::Command(c) => assert_eq!(c, "/help"),
        _ => panic!("expected a command"),
    }
    match classify_input(" fix the bug\n") {
        UserInput::Message(m) => assert_eq!(m, "fix the bug"),
        _ => panic!("expected a message"),
    }
}

#[test]
fn command_splits_at_first_space() {
    assert_eq!(split_command("  /model   gpt-4o  "), ("/model".to_string(), "gpt-4o".to_string()));
    assert_eq!(split_command("/resume a b"), ("/resume".to_string(), "a b".to_string()));
    assert_eq!(split_command("/help"), ("/help".to_string(), String::new()));
    assert_eq!(split_command("/model "), ("/model".to_string(), String::new()));
}

#[test]
fn exit_and_quit_leave() {
    let (mut cli, mut agent) = setup();
    assert!(matches!(cli.handle_command(&mut agent, "/exit"), CommandOutcome::Quit));
    assert!(matches!(cli.handle_command(&mut agent, "/quit"), CommandOutcome::Quit));
}

#[test]
fn help_lists_the_commands() {
    let (mut cli, mut agent) = setup();
    assert_eq!(
        printed(cli.handle_command(&mut agent, "/help")),
        vec!["/help /exit /quit /clear /config /model /approval /stats /tools /mcp /save /checkpoint /checkpoints /restore /sessions /resume".to_string()]
    );
}

#[test]
fn model_is_shown_and_changed() {
    let (mut cli, mut agent) = setup();
    assert_eq!(printed(cli.handle_command(&mut agent, "/model")), vec!["Current model: gpt-5".to_string()]);
    assert_eq!(printed(cli.handle_command(&mut agent, "/model gpt-4o")), vec!["Model changed to: gpt-4o".to_string()]);
    assert_eq!(cli.config.model_name, "gpt-4o");
    assert_eq!(printed(cli.handle_command(&mut agent, "/model")), vec!["Current model: gpt-4o".to_string()]);
}

#[test]
fn approval_is_shown_and_changed() {
    let (mut cli, mut agent) = setup();
    assert_eq!(
        printed(cli.handle_command(&mut agent, "/approval")),
        vec!["Current approval policy: OnRequest".to_string()]
    );
    assert_eq!(printed(cli.handle_command(&mut agent, "/approval yolo")), vec!["Approval policy changed".to_string()]);
    assert_eq!(cli.config.approval, ApprovalPolicy::Yolo);
    assert_eq!(
        printed(cli.handle_command(&mut agent, "/approval sometimes")),
        vec!["Incorrect approval policy: sometimes".to_string(), "Approval policy changed".to_string()]
    );
    assert_eq!(cli.config.approval, ApprovalPolicy::Yolo);
    assert_eq!(printed(cli.handle_command(&mut agent, "/approval")), vec!["Current approval policy: Yolo".to_string()]);
}

#[test]
fn clear_empties_the_conversation() {
    let (mut cli, mut agent) = setup();
    agent.run("hello".to_string());
    assert_eq!(agent.session.context_manager.message_count(), 2);
    agent.session.loop_detector.record_action("a".to_string());
    assert_eq!(printed(cli.handle_command(&mut agent, "/clear")), vec!["Conversation cleared".to_string()]);
    assert_eq!(agent.session.context_manager.message_count(), 0);
    assert!(!agent.session.loop_detector.has_loop());
}

#[test]
fn resume_and_restore_need_an_identifier() {
    let (mut cli, mut agent) = setup();
    assert_eq!(printed(cli.handle_command(&mut agent, "/resume")), vec!["Usage: /resume <session_id>".to_string()]);
    assert_eq!(printed(cli.handle_command(&mut agent, "/restore")), vec!["Usage: /restore <checkpoint_id>".to_string()]);
    match cli.handle_command(&mut agent, "/resume abc") {
        CommandOutcome::Resume(id) => assert_eq!(id, "abc"),
        _ => panic!("expected a resume"),
    }
    match cli.handle_command(&mut agent, "/restore abc_3") {
        CommandOutcome::Restore(id) => assert_eq!(id, "abc_3"),
        _ => panic!("expected a restore"),
    }
}

#[test]
fn other_commands_ask_the_program() {
    let (mut cli, mut agent) = setup();
    assert!(matches!(cli.handle_command(&mut agent, "/config"), CommandOutcome::ShowConfig));
    assert!(matches!(cli.handle_command(&mut agent, "/save"), CommandOutcome::SaveSession));
    assert!(matches!(cli.handle_command(&mut agent, "/sessions"), CommandOutcome::ListSessions));
    assert!(matches!(cli.handle_command(&mut agent, "/checkpoint"), CommandOutcome::CreateCheckpoint));
    assert!(matches!(cli.handle_command(&mut agent, "/checkpoints"), CommandOutcome::ListCheckpoints));
}

#[test]
fn stats_show_the_session_as_json() {
    let (mut cli, mut agent) = setup();
    agent.session.session_id = "abc".to_string();
    agent.session.created_at = 1_704_067_200_000;
    agent.run("hi".to_string());
    assert_eq!(
        printed(cli.handle_command(&mut agent, "/stats")),
        vec![
            "{\"created_at\":\"2024-01-01T00:00:00+00:00\",\"mcp_servers\":0,\"message_count\":2,\"session_id\":\"abc\",\"token_usage\":0,\"tools_count\":13,\"turn_count\":1}"
                .to_string()
        ]
    );
}

#[test]
fn tools_lists_the_offered_names() {
    let (mut cli, mut agent) = setup();
    let lines = printed(cli.handle_command(&mut agent, "/tools"));
    assert_eq!(lines.len(), 14);
    assert_eq!(lines[0], "Available tools (13)");
    assert_eq!(lines[1], "read_file");
    assert_eq!(lines[13], "subagent_code_reviewer");
    agent.session.tool_registry.unregister("shell");
    let lines = printed(cli.handle_command(&mut agent, "/tools"));
    assert_eq!(lines[0], "Available tools (12)");
    assert!(!lines.contains(&"shell".to_string()));
}

#[test]
fn mcp_lists_the_servers_as_json() {
    let (mut cli, mut agent) = setup();
    assert_eq!(printed(cli.handle_command(&mut agent, "/mcp")), vec!["MCP Servers (0)".to_string()]);
    let mut c = Config::new("/work".to_string());
    c.mcp_servers = vec![MCPServerConfig {
        name: "docs".to_string(),
        transport: "stdio".to_string(),
        command: Some("serve".to_string()),
        url: None,
        enabled: true,
        startup_timeout_sec: 0,
        cwd: None,
        env: vec![],
        tools: vec![MCPToolConfig { name: "find".to_string(), description: "Find".to_string(), input_schema: JsonValue::Null }],
    }];
    let mut pending = agent.session.mcp_manager.initialize(&c);
    let mut client = pending.remove(0);
    let _ = client.begin_connect();
    client.finish_connect(true);
    agent.session.mcp_manager.add_client(client);
    assert_eq!(
        printed(cli.handle_command(&mut agent, "/mcp")),
        vec!["MCP Servers (1)".to_string(), "{\"name\":\"docs\",\"status\":\"connected\",\"tools\":1}".to_string()]
    );
}

#[test]
fn unknown_command_is_reported() {
    let (mut cli, mut agent) = setup();
    assert_eq!(printed(cli.handle_command(&mut agent, "/frobnicate now")), vec!["Unknown command: /frobnicate".to_string()]);
}

#[test]
fn config_report_lists_settings() {
    let (cli, _) = setup();
    assert_eq!(
        cli.config_report("0.2"),
        vec![
            "Model: gpt-5".to_string(),
            "Temperature: 0.2".to_string(),
            "Approval: OnRequest".to_string(),
            "Working Dir: /work".to_string(),
            "Max Turns: 40".to_string(),
            "Hooks Enabled: true".to_string(),
        ]
    );
}

#[test]
fn welcome_banner() {
    let (cli, _) = setup();
    assert_eq!(
        cli.welcome_lines(),
        vec![
            "== AI Agent ==".to_string(),
            "model: gpt-5".to_string(),
            "cwd: /work".to_string(),
            "commands: /help /config /approval /model /exit".to_string(),
        ]
    );
}

#[test]
fn messages_after_saving_and_resuming() {
    assert_eq!(saved_message("s1"), "Session saved: s1");
    assert_eq!(checkpoint_message("s1_2"), "Checkpoint created: s1_2");
    assert_eq!(resume_message(Some("s1"), false), "Resumed session: s1");
    assert_eq!(resume_message(None, false), "Session does not exist");
    assert_eq!(resume_message(None, true), "Checkpoint does not exist");
    assert_eq!(count_line("Available tools", 12), "Available tools (12)");
    assert_eq!(policy_debug(ApprovalPolicy::Never), "Never");
}

#[test]
fn events_are_shown_and_last_text_is_the_answer() {
    let events = vec![
        AgentEvent { event_type: AgentEventType::TextDelta, data: obj("content", "Hel") },
        AgentEvent { event_type: AgentEventType::TextComplete, data: obj("content", "first") },
        AgentEvent { event_type: AgentEventType::AgentError, data: obj("other", "x") },
        AgentEvent { event_type: AgentEventType::TextComplete, data: obj("content", "second") },
        AgentEvent { event_type: AgentEventType::AgentEnd, data: obj("response", "done") },
    ];
    assert_eq!(final_response(&events), Some("second".to_string()));
    match event_output(&events[0]) {
        Some(ConsoleOutput::Inline(s)) => assert_eq!(s, "Hel"),
        _ => panic!("expected inline text"),
    }
    match event_output(&events[2]) {
        Some(ConsoleOutput::ErrorLine(s)) => assert_eq!(s, "Error: unknown"),
        _ => panic!("expected an error line"),
    }
    assert!(event_output(&events[4]).is_none());
    assert_eq!(final_response(&Vec::new()), None);
}
