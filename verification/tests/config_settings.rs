use rust_coding_agent::config::{
    apply_partial, approval_policy_name, parse_approval_policy, ApprovalPolicy, Config, ConfigPartial, HookConfig,
    HookTrigger, ShellEnvironmentPolicy,
};
use rust_coding_agent::config_loader::{agent_md_choice, get_agent_md_files, get_project_config, merge_dicts, parse_toml_text};
use rust_coding_agent::json::JsonValue;

fn empty_partial() -> ConfigPartial {
    ConfigPartial {
        model_name: None,
        approval: None,
        max_turns: None,
        hooks_enabled: None,
        allowed_tools: None,
        api_key: None,
        base_url: None,
        shell_environment: None,
        mcp_servers: None,
        hooks: None,
    }
}

#[test]
fn defaults_of_a_new_configuration() {
    let c = Config::new("/tmp/p".to_string());
    assert_eq!(c.model_name, "gpt-5");
    assert_eq!(c.approval, ApprovalPolicy::OnRequest);
    assert_eq!(c.cwd, "/tmp/p");
    assert_eq!(c.max_turns, 40);
    assert!(c.hooks_enabled);
    assert!(c.allowed_tools.is_none());
    assert!(c.api_key.is_none());
    assert_eq!(c.base_url, "");
    assert!(!c.shell_environment.ignore_default_excludes);
    assert_eq!(c.shell_environment.exclude_patterns, vec!["*TOKEN*", "*SECRET*", "*PASSWORD*"]);
    assert!(c.mcp_servers.is_empty());
    assert!(c.hooks.is_empty());
}

#[test]
fn validation_messages_in_order() {
    let mut c = Config::new("/nowhere".to_string());
    assert!(c.validate(true, true).is_empty());
    c.max_turns = 0;
    assert_eq!(
        c.validate(false, false),
        vec![
            "temperature must be in [0.0, 2.0]".to_string(),
            "max_turns must be > 0".to_string(),
            "cwd does not exist: /nowhere".to_string(),
        ]
    );
}

#[test]
fn policies_are_named_and_read_back() {
    for p in [ApprovalPolicy::OnRequest, ApprovalPolicy::Auto, ApprovalPolicy::Never, ApprovalPolicy::Yolo] {
        assert_eq!(parse_approval_policy(&approval_policy_name(p)), Some(p));
    }
    assert_eq!(approval_policy_name(ApprovalPolicy::OnRequest), "on-request");
    assert_eq!(parse_approval_policy("Yolo"), None);
    assert_eq!(parse_approval_policy(""), None);
}

#[test]
fn partial_settings_replace_what_they_give() {
    let mut c = Config::new("/p".to_string());
    let mut p = empty_partial();
    p.model_name = Some("gpt-4o".to_string());
    p.approval = Some("never".to_string());
    p.max_turns = Some(3);
    p.allowed_tools = Some(vec!["grep".to_string()]);
    p.api_key = Some("k".to_string());
    p.base_url = Some("http://localhost:1".to_string());
    p.hooks = Some(vec![HookConfig {
        trigger: HookTrigger::OnError,
        command: Some("echo".to_string()),
        script: None,
        enabled: true,
        timeout_sec: 5,
    }]);
    apply_partial(&mut c, p);
    assert_eq!(c.model_name, "gpt-4o");
    assert_eq!(c.approval, ApprovalPolicy::Never);
    assert_eq!(c.max_turns, 3);
    assert_eq!(c.allowed_tools, Some(vec!["grep".to_string()]));
    assert_eq!(c.api_key, Some("k".to_string()));
    assert_eq!(c.base_url, "http://localhost:1");
    assert_eq!(c.hooks.len(), 1);
    assert_eq!(c.cwd, "/p");
    assert!(c.hooks_enabled);
}

#[test]
fn unknown_policy_in_a_file_is_ignored() {
    let mut c = Config::new("/p".to_string());
    let mut p = empty_partial();
    p.approval = Some("sometimes".to_string());
    apply_partial(&mut c, p);
    assert_eq!(c.approval, ApprovalPolicy::OnRequest);
}

#[test]
fn later_file_wins_and_empty_file_changes_nothing() {
    let mut c = Config::new("/p".to_string());
    let mut first = empty_partial();
    first.model_name = Some("a".to_string());
    first.hooks_enabled = Some(false);
    let mut second = empty_partial();
    second.model_name = Some("b".to_string());
    apply_partial(&mut c, first);
    apply_partial(&mut c, second);
    assert_eq!(c.model_name, "b");
    assert!(!c.hooks_enabled);
    apply_partial(&mut c, empty_partial());
    assert_eq!(c.model_name, "b");
    let mut shell = empty_partial();
    shell.shell_environment = Some(ShellEnvironmentPolicy {
        ignore_default_excludes: true,
        exclude_patterns: vec![],
        set_vars: Some(vec![("A".to_string(), "1".to_string())]),
    });
    apply_partial(&mut c, shell);
    assert!(c.shell_environment.ignore_default_excludes);
}

#[test]
fn copy_keeps_every_setting() {
    let mut c = Config::new("/p".to_string());
    c.allowed_tools = Some(vec!["grep".to_string()]);
    let d = c.copy();
    assert_eq!(d.cwd, "/p");
    assert_eq!(d.allowed_tools, Some(vec!["grep".to_string()]));
    assert_eq!(d.model_name, c.model_name);
}

#[test]
fn merging_settings_lets_the_override_win() {
    let base = vec![
        ("a".to_string(), JsonValue::Number("1".to_string())),
        ("b".to_string(), JsonValue::Bool(true)),
    ];
    let over = vec![
        ("b".to_string(), JsonValue::Bool(false)),
        ("c".to_string(), JsonValue::Null),
    ];
    let m = merge_dicts(base, over);
    assert_eq!(
        m,
        vec![
            ("a".to_string(), JsonValue::Number("1".to_string())),
            ("b".to_string(), JsonValue::Bool(false)),
            ("c".to_string(), JsonValue::Null),
        ]
    );
}

#[test]
fn toml_settings_read_as_json() {
    let v = parse_toml_text("model_name = \"gpt-4o\"\nmax_turns = 7\n").unwrap();
    assert_eq!(v.get("model_name"), Some(&JsonValue::Str("gpt-4o".to_string())));
    assert_eq!(v.get("max_turns"), Some(&JsonValue::Number("7".to_string())));
    assert!(parse_toml_text("this is = = not toml").is_err());
}

#[test]
fn project_files_are_not_found_where_there_are_none() {
    assert_eq!(get_project_config("/no/such/directory/for/agent"), None);
    assert_eq!(get_agent_md_files("/no/such/directory/for/agent"), None);
}

#[test]
fn agents_md_is_given_exactly_when_it_exists() {
    assert_eq!(agent_md_choice("/proj", true), Some("/proj/AGENTS.md".to_string()));
    assert_eq!(agent_md_choice("/proj", false), None);
}
